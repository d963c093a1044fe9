//! The dbusmenu client: the calls that go to the menu object of an item, and
//! the decoding of the layout that comes back into the flat list of entries
//! to show.

use vstd::prelude::*;
use vstd::string::*;
use crate::text::{chars_of, contains, has_substring};
use crate::wire::{
    lemma_list_view, peel, unwrap_variant, views, MethodCall, MethodCallView, Value, ValueView,
    CALL_TIMEOUT_MS, INTROSPECTABLE_INTERFACE,
};

verus! {

/// The value of the first entry with key `key` in a flattened dictionary,
/// that is in a list of keys and values in turn, freed of its variants.
/// A key without a value at the end of the list is no entry.
pub open spec fn lookup(props: Seq<ValueView>, key: Seq<char>) -> Option<ValueView>
    decreases props.len(),
{
    if props.len() < 2 {
        None
    } else if props[0] == ValueView::Str(key) {
        Some(peel(props[1]))
    } else {
        lookup(props.skip(2), key)
    }
}

/// The string under `key`, where the first entry of that key holds one.
pub open spec fn text_property(props: Seq<ValueView>, key: Seq<char>) -> Option<Seq<char>> {
    match lookup(props, key) {
        Some(ValueView::Str(s)) => Some(s),
        _ => None,
    }
}

/// The flag under `key`; `true` where the first entry of that key holds no
/// boolean or there is no such entry.
pub open spec fn flag_property(props: Seq<ValueView>, key: Seq<char>) -> bool {
    match lookup(props, key) {
        Some(ValueView::Bool(b)) => b,
        _ => true,
    }
}

/// A label without its mnemonic markers. An underscore is dropped and the
/// character after it is kept as it is, so a doubled underscore leaves one;
/// an underscore at the end is dropped.
pub open spec fn clean_label(s: Seq<char>) -> Seq<char>
    decreases s.len(),
{
    if s.len() == 0 {
        s
    } else if s[0] != '_' {
        seq![s[0]] + clean_label(s.skip(1))
    } else if s.len() == 1 {
        Seq::<char>::empty()
    } else {
        seq![s[1]] + clean_label(s.skip(2))
    }
}

/// One entry of a menu.
#[derive(Debug, PartialEq, Eq)]
pub struct MenuItem {
    pub id: i32,
    pub label: String,
    pub enabled: bool,
    pub visible: bool,
}

/// A `MenuItem` over mathematical values.
pub struct MenuItemView {
    pub id: int,
    pub label: Seq<char>,
    pub enabled: bool,
    pub visible: bool,
}

impl View for MenuItem {
    type V = MenuItemView;

    open spec fn view(&self) -> MenuItemView {
        MenuItemView {
            id: self.id as int,
            label: self.label@,
            enabled: self.enabled,
            visible: self.visible,
        }
    }
}

impl DeepView for MenuItem {
    type V = MenuItemView;

    open spec fn deep_view(&self) -> MenuItemView {
        self@
    }
}

impl Clone for MenuItem {
    fn clone(&self) -> (r: Self)
        ensures
            r == *self,
    {
        MenuItem {
            id: self.id,
            label: self.label.clone(),
            enabled: self.enabled,
            visible: self.visible,
        }
    }
}

/// Whether the properties are those of a separator.
pub open spec fn is_separator(props: Seq<ValueView>) -> bool {
    text_property(props, "type"@) == Some("separator"@)
}

/// The label that the properties give, cleaned; empty where they give none.
pub open spec fn label_of(props: Seq<ValueView>) -> Seq<char> {
    match text_property(props, "label"@) {
        Some(l) => clean_label(l),
        None => Seq::<char>::empty(),
    }
}

/// The entry that a node with this id and these properties stands for. A
/// separator and a node whose cleaned label is empty stand for none. The
/// flags `enabled` and `visible` are carried as they are, set where the
/// properties do not say.
pub open spec fn entry_of(id: int, props: Seq<ValueView>) -> Option<MenuItemView> {
    if is_separator(props) || label_of(props).len() == 0 {
        None
    } else {
        Some(
            MenuItemView {
                id,
                label: label_of(props),
                enabled: flag_property(props, "enabled"@),
                visible: flag_property(props, "visible"@),
            },
        )
    }
}

/// Nothing or one entry, as a sequence.
pub open spec fn entries(e: Option<MenuItemView>) -> Seq<MenuItemView> {
    match e {
        Some(item) => seq![item],
        None => Seq::<MenuItemView>::empty(),
    }
}

/// Whether the fields are those of a layout node: an id that fits 32 bits,
/// a list of properties and a list of children.
pub open spec fn is_node(fields: Seq<ValueView>) -> bool {
    &&& fields.len() == 3
    &&& fields[0] is Int
    &&& i32::MIN <= fields[0]->Int_0 <= i32::MAX
    &&& fields[1] is List
    &&& fields[2] is List
}

/// The entries of the layout under `v`, in document order: the entry of the
/// node itself, where it stands for one, then those of its children. A
/// variant around a node counts for nothing. A value that is no node, also
/// a child, gives no entries.
pub open spec fn flatten(v: ValueView) -> Seq<MenuItemView>
    decreases v, 0nat,
{
    match v {
        ValueView::Variant(inner) => flatten(*inner),
        ValueView::List(fields) => if is_node(fields) {
            entries(entry_of(fields[0]->Int_0, fields[1]->List_0)) + flatten_all(
                fields[2]->List_0,
            )
        } else {
            Seq::<MenuItemView>::empty()
        },
        _ => Seq::<MenuItemView>::empty(),
    }
}

/// The entries of the layouts under each of `children`, one after another.
pub open spec fn flatten_all(children: Seq<ValueView>) -> Seq<MenuItemView>
    decreases children, 1nat,
{
    if children.len() == 0 {
        Seq::<MenuItemView>::empty()
    } else {
        flatten_all(children.drop_last()) + flatten(children.last())
    }
}

/// A label without underscores is left as it is.
pub proof fn law_plain_label_is_kept(s: Seq<char>)
    requires
        forall|i: int| 0 <= i < s.len() ==> s[i] != '_',
    ensures
        clean_label(s) == s,
    decreases s.len(),
{
    if s.len() > 0 {
        let rest = s.skip(1);
        assert forall|i: int| 0 <= i < rest.len() implies rest[i] != '_' by {
            assert(rest[i] == s[i + 1]);
        }
        law_plain_label_is_kept(rest);
        assert(seq![s[0]] + rest =~= s);
    }
}

/// The first underscore of a label goes and the character behind it
/// stays, whatever it is; what follows is cleaned in the same way. An
/// underscore that ends the label goes.
pub proof fn law_mnemonic_marker_is_dropped(before: Seq<char>, c: char, after: Seq<char>)
    requires
        forall|i: int| 0 <= i < before.len() ==> before[i] != '_',
    ensures
        clean_label(before + seq!['_', c] + after) == before + seq![c] + clean_label(after),
        clean_label(before + seq!['_']) == before,
    decreases before.len(),
{
    let marked = before + seq!['_', c] + after;
    let ending = before + seq!['_'];
    if before.len() == 0 {
        assert(marked =~= seq!['_', c] + after);
        assert(marked.skip(2) =~= after);
        assert(clean_label(marked) =~= before + seq![c] + clean_label(after));
        assert(ending =~= seq!['_']);
        assert(clean_label(ending) =~= before);
    } else {
        let rest = before.skip(1);
        assert forall|i: int| 0 <= i < rest.len() implies rest[i] != '_' by {
            assert(rest[i] == before[i + 1]);
        }
        law_mnemonic_marker_is_dropped(rest, c, after);
        assert(marked[0] == before[0]);
        assert(marked.skip(1) =~= rest + seq!['_', c] + after);
        assert(clean_label(marked) =~= before + seq![c] + clean_label(after));
        assert(ending[0] == before[0]);
        assert(ending.skip(1) =~= rest + seq!['_']);
        assert(clean_label(ending) =~= before);
    }
}

/// Strips the mnemonic markers from a label.
pub fn clean_menu_label(label: &str) -> (r: String)
    ensures
        r@ == clean_label(label@),
{
    let chars = chars_of(label);
    let mut r = String::new();
    let mut i: usize = 0;
    assert(chars@.skip(0) =~= chars@);
    assert(r@ + clean_label(chars@) =~= clean_label(chars@));
    while i < chars.len()
        invariant
            i <= chars.len(),
            chars@ == label@,
            r@ + clean_label(chars@.skip(i as int)) == clean_label(chars@),
        decreases chars.len() - i,
    {
        let ghost rest = chars@.skip(i as int);
        if chars[i] != '_' {
            r.push(chars[i]);
            assert(rest.skip(1) =~= chars@.skip(i + 1));
            assert(r@ + clean_label(chars@.skip(i + 1)) =~= clean_label(chars@));
            i += 1;
        } else if i + 1 < chars.len() {
            r.push(chars[i + 1]);
            assert(rest.skip(2) =~= chars@.skip(i + 2));
            assert(r@ + clean_label(chars@.skip(i + 2)) =~= clean_label(chars@));
            i += 2;
        } else {
            assert(rest.len() == 1);
            assert(chars@.skip(i + 1).len() == 0);
            assert(r@ + clean_label(chars@.skip(i + 1)) =~= clean_label(chars@));
            i += 1;
        }
    }
    assert(r@ =~= r@ + clean_label(chars@.skip(i as int)));
    r
}

/// Scans a flattened dictionary for the first entry with key `key`.
fn find_property<'a>(props: &'a Vec<Value>, key: &str) -> (r: Option<&'a Value>)
    ensures
        match r {
            Some(v) => lookup(views(props@), key@) == Some(v@),
            None => lookup(views(props@), key@) is None,
        },
{
    let ghost all = views(props@);
    let mut i: usize = 0;
    assert(all.skip(0) =~= all);
    while i < props.len() && props.len() - i >= 2
        invariant
            i <= props.len(),
            all == views(props@),
            lookup(all, key@) == lookup(all.skip(i as int), key@),
        decreases props.len() - i,
    {
        let ghost rest = all.skip(i as int);
        assert(rest[0] == props@[i as int]@);
        assert(rest[1] == props@[i + 1]@);
        let hit = match &props[i] {
            Value::Str(k) => k.as_str().eq(key),
            _ => false,
        };
        if hit {
            return Some(unwrap_variant(&props[i + 1]));
        }
        assert(rest.skip(2) =~= all.skip(i + 2));
        i += 2;
    }
    None
}

/// Reads the string under `key`.
fn read_text<'a>(props: &'a Vec<Value>, key: &str) -> (r: Option<&'a String>)
    ensures
        match r {
            Some(s) => text_property(views(props@), key@) == Some(s@),
            None => text_property(views(props@), key@) is None,
        },
{
    match find_property(props, key) {
        Some(Value::Str(s)) => Some(s),
        _ => None,
    }
}

/// Reads the flag under `key`, which is set where nothing says otherwise.
fn read_flag(props: &Vec<Value>, key: &str) -> (r: bool)
    ensures
        r == flag_property(views(props@), key@),
{
    match find_property(props, key) {
        Some(Value::Bool(b)) => *b,
        _ => true,
    }
}

/// The entry of a node with this id and these properties, if it stands for
/// one.
pub fn menu_entry(id: i32, props: &Vec<Value>) -> (r: Option<MenuItem>)
    ensures
        r.deep_view() == entry_of(id as int, views(props@)),
{
    let separator = match read_text(props, "type") {
        Some(kind) => kind.as_str().eq("separator"),
        None => false,
    };
    if separator {
        return None;
    }
    let label = match read_text(props, "label") {
        Some(l) => clean_menu_label(l.as_str()),
        None => String::new(),
    };
    if label.as_str().is_empty() {
        return None;
    }
    Some(
        MenuItem {
            id,
            label,
            enabled: read_flag(props, "enabled"),
            visible: read_flag(props, "visible"),
        },
    )
}

/// Appends the entries of the layout under `v` to `out`.
fn collect(v: &Value, out: &mut Vec<MenuItem>)
    ensures
        final(out).deep_view() == old(out).deep_view() + flatten(v@),
    decreases v, 0nat,
{
    match v {
        Value::Variant(inner) => {
            collect(inner, out);
        },
        Value::List(fields) => {
            proof {
                lemma_list_view(*fields);
            }
            if fields.len() != 3 {
                assert(out.deep_view() =~= out.deep_view() + flatten(v@));
                return ;
            }
            match (&fields[0], &fields[1], &fields[2]) {
                (Value::Int(n), Value::List(props), Value::List(children)) => {
                    proof {
                        lemma_list_view(*props);
                        lemma_list_view(*children);
                    }
                    if *n < -2147483648 || *n > 2147483647 {
                        assert(out.deep_view() =~= out.deep_view() + flatten(v@));
                        return ;
                    }
                    let ghost before = out.deep_view();
                    let ghost own = entries(entry_of(*n as int, views(props@)));
                    match menu_entry(*n as i32, props) {
                        Some(item) => {
                            out.push(item);
                        },
                        None => {},
                    }
                    assert(views(children@).take(0) =~= Seq::<ValueView>::empty());
                    assert(out.deep_view() =~= before + own + flatten_all(
                        views(children@).take(0),
                    ));
                    collect_all(children, 0, out, Ghost(before + own));
                    assert(out.deep_view() =~= before + flatten(v@));
                },
                _ => {
                    assert(out.deep_view() =~= out.deep_view() + flatten(v@));
                },
            }
        },
        _ => {
            assert(out.deep_view() =~= out.deep_view() + flatten(v@));
        },
    }
}

/// Appends the entries of the layouts under `children[from..]` to `out`,
/// which holds `base` and the entries of the children before `from`.
fn collect_all(
    children: &Vec<Value>,
    from: usize,
    out: &mut Vec<MenuItem>,
    Ghost(base): Ghost<Seq<MenuItemView>>,
)
    requires
        from <= children.len(),
        old(out).deep_view() == base + flatten_all(views(children@).take(from as int)),
    ensures
        final(out).deep_view() == base + flatten_all(views(children@)),
    decreases children, children.len() - from,
{
    let ghost all = views(children@);
    if from == children.len() {
        assert(all.take(from as int) =~= all);
        return ;
    }
    collect(&children[from], out);
    proof {
        let upto = all.take(from + 1);
        assert(upto.drop_last() =~= all.take(from as int));
        assert(upto.last() == children@[from as int]@);
        assert(out.deep_view() =~= base + flatten_all(upto));
    }
    collect_all(children, from + 1, out, Ghost(base));
}

/// Decodes the layout of a menu, as `GetLayout` returned it, into the list
/// of its entries in document order. `root` is the root node of the reply: a
/// node is a list of an id, a flattened dictionary of properties and a list
/// of child nodes, and may stand in any number of variants. A node that
/// cannot be read is left out with all that is under it; a separator and a
/// node without a label are left out themselves, but not what is under
/// them. Every entry carries its `enabled` and `visible` flags.
pub fn decode_layout(root: &Value) -> (items: Vec<MenuItem>)
    ensures
        items.deep_view() == flatten(root@),
{
    let mut items: Vec<MenuItem> = Vec::new();
    collect(root, &mut items);
    assert(items.deep_view() =~= Seq::<MenuItemView>::empty() + flatten(root@));
    items
}

/// A layout node with this id, these properties and these children.
pub open spec fn node(id: int, props: Seq<ValueView>, children: Seq<ValueView>) -> ValueView {
    ValueView::List(seq![ValueView::Int(id), ValueView::List(props), ValueView::List(children)])
}

/// Lists whose members decode alike decode alike.
pub proof fn lemma_flatten_all_alike(a: Seq<ValueView>, b: Seq<ValueView>)
    requires
        a.len() == b.len(),
        forall|i: int| 0 <= i < a.len() ==> flatten(a[i]) == flatten(b[i]),
    ensures
        flatten_all(a) == flatten_all(b),
    decreases a.len(),
{
    if a.len() > 0 {
        lemma_flatten_all_alike(a.drop_last(), b.drop_last());
    }
}

/// A separator never shows up as an entry, whatever else its properties
/// say, but everything under it does: the node decodes to exactly what its
/// children decode to.
pub proof fn law_separator_is_left_out(
    id: int,
    props: Seq<ValueView>,
    children: Seq<ValueView>,
)
    requires
        is_separator(props),
    ensures
        entry_of(id, props) is None,
        flatten(node(id, props, children)) == if i32::MIN <= id <= i32::MAX {
            flatten_all(children)
        } else {
            Seq::<MenuItemView>::empty()
        },
{
    let fields = seq![ValueView::Int(id), ValueView::List(props), ValueView::List(children)];
    assert(fields[0] == ValueView::Int(id));
    assert(fields[1] == ValueView::List(props));
    assert(fields[2] == ValueView::List(children));
    if i32::MIN <= id <= i32::MAX {
        assert(is_node(fields));
        assert(flatten(node(id, props, children)) =~= flatten_all(children));
    }
}

/// A node without a label, such as the root of a layout, is left out in
/// the same way: only what is under it shows up.
pub proof fn law_unlabelled_node_is_left_out(
    id: int,
    props: Seq<ValueView>,
    children: Seq<ValueView>,
)
    requires
        i32::MIN <= id <= i32::MAX,
        label_of(props).len() == 0,
    ensures
        flatten(node(id, props, children)) == flatten_all(children),
{
    let fields = seq![ValueView::Int(id), ValueView::List(props), ValueView::List(children)];
    assert(fields[0] == ValueView::Int(id));
    assert(fields[1] == ValueView::List(props));
    assert(fields[2] == ValueView::List(children));
    assert(is_node(fields));
    assert(flatten(node(id, props, children)) =~= flatten_all(children));
}

/// A variant around a layout changes nothing of what it decodes to.
pub proof fn law_variant_is_transparent(v: ValueView)
    ensures
        flatten(ValueView::Variant(Box::new(v))) == flatten(v),
{
}

/// A node of which one child stands in a variant decodes to the same
/// entries as the node with that child bare.
pub proof fn law_wrapped_child_decodes_alike(
    id: int,
    props: Seq<ValueView>,
    children: Seq<ValueView>,
    i: int,
)
    requires
        0 <= i < children.len(),
    ensures
        flatten(node(id, props, children.update(i, ValueView::Variant(Box::new(children[i])))))
            == flatten(node(id, props, children)),
{
    let wrapped = children.update(i, ValueView::Variant(Box::new(children[i])));
    assert forall|j: int| 0 <= j < children.len() implies flatten(wrapped[j]) == flatten(
        children[j],
    ) by {
        if j == i {
            law_variant_is_transparent(children[i]);
        }
    }
    lemma_flatten_all_alike(wrapped, children);
    let fields = seq![ValueView::Int(id), ValueView::List(props), ValueView::List(children)];
    let fields_w = seq![ValueView::Int(id), ValueView::List(props), ValueView::List(wrapped)];
    assert(fields[0] == fields_w[0] && fields[1] == fields_w[1]);
    assert(fields[2] == ValueView::List(children));
    assert(fields_w[2] == ValueView::List(wrapped));
    assert(is_node(fields) == is_node(fields_w));
}

/// A node that stands for an entry decodes to that entry, followed by the
/// entries of its children in their order.
pub proof fn law_entry_comes_before_its_children(
    id: int,
    props: Seq<ValueView>,
    children: Seq<ValueView>,
)
    requires
        i32::MIN <= id <= i32::MAX,
        entry_of(id, props) is Some,
    ensures
        flatten(node(id, props, children)) == seq![entry_of(id, props)->0] + flatten_all(children),
        flatten(node(id, props, children))[0].id == id,
{
    let fields = seq![ValueView::Int(id), ValueView::List(props), ValueView::List(children)];
    assert(fields[0] == ValueView::Int(id));
    assert(fields[1] == ValueView::List(props));
    assert(fields[2] == ValueView::List(children));
    assert(is_node(fields));
}

/// The interface of a menu object.
pub const MENU_INTERFACE: &'static str = "com.canonical.dbusmenu";

/// Tells whether the introspection data of an object advertises the menu
/// interface. Where it does not, the layout is not asked for and the menu
/// is empty.
pub fn advertises_menu(introspection: &str) -> (r: bool)
    ensures
        r == has_substring(introspection@, MENU_INTERFACE@),
{
    contains(introspection, MENU_INTERFACE)
}

/// The call that asks an object to describe itself.
pub open spec fn introspect_call_spec(bus_name: Seq<char>, menu_path: Seq<char>) -> MethodCallView {
    MethodCallView {
        destination: bus_name,
        path: menu_path,
        interface: INTROSPECTABLE_INTERFACE@,
        member: "Introspect"@,
        signature: ""@,
        arguments: Seq::<ValueView>::empty(),
        timeout_ms: CALL_TIMEOUT_MS,
        wait_for_reply: true,
    }
}

/// The `Introspect` call on the menu object of an item, by which the client
/// learns whether the object is a menu at all.
pub fn introspect_call(bus_name: &str, menu_path: &str) -> (call: MethodCall)
    ensures
        call@ == introspect_call_spec(bus_name@, menu_path@),
{
    let call = MethodCall {
        destination: bus_name.to_owned(),
        path: menu_path.to_owned(),
        interface: INTROSPECTABLE_INTERFACE.to_owned(),
        member: "Introspect".to_owned(),
        signature: "".to_owned(),
        arguments: Vec::new(),
        timeout_ms: CALL_TIMEOUT_MS,
        wait_for_reply: true,
    };
    assert(call@.arguments =~= Seq::<ValueView>::empty());
    call
}

/// The call for the whole layout of a menu: `GetLayout` from the root
/// (parent 0), to any depth (-1), with all properties (an empty filter).
pub open spec fn get_layout_call_spec(bus_name: Seq<char>, menu_path: Seq<char>) -> MethodCallView {
    MethodCallView {
        destination: bus_name,
        path: menu_path,
        interface: MENU_INTERFACE@,
        member: "GetLayout"@,
        signature: "iias"@,
        arguments: seq![
            ValueView::Int(0),
            ValueView::Int(-1),
            ValueView::List(Seq::<ValueView>::empty()),
        ],
        timeout_ms: CALL_TIMEOUT_MS,
        wait_for_reply: true,
    }
}

/// The `GetLayout` call that fetches the whole menu of an item.
pub fn get_layout_call(bus_name: &str, menu_path: &str) -> (call: MethodCall)
    ensures
        call@ == get_layout_call_spec(bus_name@, menu_path@),
{
    let filter: Vec<Value> = Vec::new();
    proof {
        lemma_list_view(filter);
        assert(views(filter@) =~= Seq::<ValueView>::empty());
    }
    let mut arguments: Vec<Value> = Vec::new();
    arguments.push(Value::Int(0));
    arguments.push(Value::Int(-1));
    arguments.push(Value::List(filter));
    let call = MethodCall {
        destination: bus_name.to_owned(),
        path: menu_path.to_owned(),
        interface: MENU_INTERFACE.to_owned(),
        member: "GetLayout".to_owned(),
        signature: "iias".to_owned(),
        arguments,
        timeout_ms: CALL_TIMEOUT_MS,
        wait_for_reply: true,
    };
    assert(call@.arguments =~= get_layout_call_spec(bus_name@, menu_path@).arguments);
    call
}

/// The call that tells a menu that its entry `item_id` was clicked: `Event`
/// with the id, `"clicked"`, a zero wrapped in a variant, and the timestamp
/// zero.
pub open spec fn trigger_spec(bus_name: Seq<char>, menu_path: Seq<char>, item_id: int)
    -> MethodCallView {
    MethodCallView {
        destination: bus_name,
        path: menu_path,
        interface: MENU_INTERFACE@,
        member: "Event"@,
        signature: "isvu"@,
        arguments: seq![
            ValueView::Int(item_id),
            ValueView::Str("clicked"@),
            ValueView::Variant(Box::new(ValueView::Int(0))),
            ValueView::Int(0),
        ],
        timeout_ms: CALL_TIMEOUT_MS,
        wait_for_reply: false,
    }
}

/// The `Event` call for a click on the entry `item_id`. Nothing is owed
/// for it: the caller sends it and does not wait for what comes back.
pub fn trigger(bus_name: &str, menu_path: &str, item_id: i32) -> (call: MethodCall)
    ensures
        call@ == trigger_spec(bus_name@, menu_path@, item_id as int),
{
    let zero = Value::Int(0);
    assert(zero@ == ValueView::Int(0));
    let mut arguments: Vec<Value> = Vec::new();
    arguments.push(Value::Int(item_id as i64));
    arguments.push(Value::Str("clicked".to_owned()));
    arguments.push(Value::Variant(Box::new(zero)));
    arguments.push(Value::Int(0));
    let call = MethodCall {
        destination: bus_name.to_owned(),
        path: menu_path.to_owned(),
        interface: MENU_INTERFACE.to_owned(),
        member: "Event".to_owned(),
        signature: "isvu".to_owned(),
        arguments,
        timeout_ms: CALL_TIMEOUT_MS,
        wait_for_reply: false,
    };
    assert(call@.arguments =~= trigger_spec(bus_name@, menu_path@, item_id as int).arguments);
    call
}

/// What a click on an entry of a context menu sets off.
#[derive(Debug, PartialEq, Eq, Clone, Copy)]
pub enum MenuAction {
    /// The `Event` call of the menu, for the entry of this id.
    Event(i32),
    /// The `Activate` call of the item.
    Activate,
    /// The `SecondaryActivate` call of the item.
    SecondaryActivate,
}

/// One line of the context menu that is shown.
#[derive(Debug, PartialEq, Eq)]
pub struct MenuEntry {
    pub label: String,
    pub enabled: bool,
    pub action: MenuAction,
}

/// A `MenuEntry` over character sequences.
pub struct MenuEntryView {
    pub label: Seq<char>,
    pub enabled: bool,
    pub action: MenuAction,
}

impl View for MenuEntry {
    type V = MenuEntryView;

    open spec fn view(&self) -> MenuEntryView {
        MenuEntryView { label: self.label@, enabled: self.enabled, action: self.action }
    }
}

impl DeepView for MenuEntry {
    type V = MenuEntryView;

    open spec fn deep_view(&self) -> MenuEntryView {
        self@
    }
}

/// The two lines shown for an item whose menu could not be read.
pub open spec fn fallback_menu() -> Seq<MenuEntryView> {
    seq![
        MenuEntryView { label: "Open"@, enabled: true, action: MenuAction::Activate },
        MenuEntryView {
            label: "Secondary Activate"@,
            enabled: true,
            action: MenuAction::SecondaryActivate,
        },
    ]
}

/// The line shown for a decoded menu entry.
pub open spec fn line_of(item: MenuItemView) -> MenuEntryView {
    MenuEntryView {
        label: item.label,
        enabled: item.enabled,
        action: MenuAction::Event(item.id as i32),
    }
}

/// The lines of the entries that are visible, in their order.
pub open spec fn visible_lines(items: Seq<MenuItemView>) -> Seq<MenuEntryView>
    decreases items.len(),
{
    if items.len() == 0 {
        Seq::<MenuEntryView>::empty()
    } else if items.last().visible {
        visible_lines(items.drop_last()).push(line_of(items.last()))
    } else {
        visible_lines(items.drop_last())
    }
}

/// The context menu for the decoded entries `items`: one line for each
/// visible entry, in their order, or the fallback menu where there is none
/// to show.
pub open spec fn context_menu_spec(items: Seq<MenuItemView>) -> Seq<MenuEntryView> {
    if visible_lines(items).len() == 0 {
        fallback_menu()
    } else {
        visible_lines(items)
    }
}

/// Chooses the context menu to show: the item's own where it has visible
/// entries, else the generic one of `Activate` and `SecondaryActivate`.
pub fn context_menu(items: &Vec<MenuItem>) -> (lines: Vec<MenuEntry>)
    ensures
        lines.deep_view() == context_menu_spec(items.deep_view()),
{
    let ghost all = items.deep_view();
    let mut lines: Vec<MenuEntry> = Vec::new();
    let mut i: usize = 0;
    assert(all.take(0) =~= Seq::<MenuItemView>::empty());
    assert(lines.deep_view() =~= visible_lines(all.take(0)));
    while i < items.len()
        invariant
            i <= items.len(),
            all == items.deep_view(),
            lines.deep_view() == visible_lines(all.take(i as int)),
        decreases items.len() - i,
    {
        let ghost upto = all.take(i + 1);
        assert(upto.drop_last() =~= all.take(i as int));
        assert(upto.last() == items@[i as int]@);
        let item = &items[i];
        if item.visible {
            let ghost before = lines.deep_view();
            lines.push(
                MenuEntry {
                    label: item.label.clone(),
                    enabled: item.enabled,
                    action: MenuAction::Event(item.id),
                },
            );
            assert(lines.deep_view() =~= before.push(line_of(item@)));
        }
        i += 1;
    }
    assert(all.take(i as int) =~= all);
    if lines.len() == 0 {
        lines.push(MenuEntry { label: "Open".to_owned(), enabled: true, action: MenuAction::Activate });
        lines.push(
            MenuEntry {
                label: "Secondary Activate".to_owned(),
                enabled: true,
                action: MenuAction::SecondaryActivate,
            },
        );
        assert(lines.deep_view() =~= fallback_menu());
    }
    lines
}

} // verus!
