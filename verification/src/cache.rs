//! The cache of the tray items that are shown, at most one for each bus
//! name, with the updates that each change of it sends to the render loop.

use vstd::prelude::*;
use vstd::string::*;
use crate::host::{
    bus_name_of, split_service_spec, TrayItem, TrayItemView, TrayUpdate, TrayUpdateView,
};
use crate::text::{first_index, lemma_first_index, lemma_first_index_is};

verus! {

/// The bus names of the items, in their order.
pub open spec fn item_names(items: Seq<TrayItemView>) -> Seq<Seq<char>> {
    items.map_values(|i: TrayItemView| i.bus_name)
}

/// Index of the item of bus name `name`, or `items.len()` where there is
/// none.
pub open spec fn item_position(items: Seq<TrayItemView>, name: Seq<char>) -> int {
    first_index(item_names(items), name)
}

/// Whether an item of bus name `name` is among `items`.
pub open spec fn is_cached(items: Seq<TrayItemView>, name: Seq<char>) -> bool {
    item_position(items, name) < items.len()
}

/// No bus name has two items.
pub open spec fn unique_items(items: Seq<TrayItemView>) -> bool {
    forall|i: int, j: int|
        0 <= i < j < items.len() ==> #[trigger] items[i].bus_name != #[trigger] items[j].bus_name
}

/// The cache after `item` was announced, and the update for the render
/// loop: an item whose bus name is already cached changes nothing and is
/// not shown twice.
pub open spec fn item_added(items: Seq<TrayItemView>, item: TrayItemView) -> (
    Seq<TrayItemView>,
    Option<TrayUpdateView>,
) {
    if is_cached(items, item.bus_name) {
        (items, None)
    } else {
        (items.push(item), Some(TrayUpdateView::Add(item)))
    }
}

/// The cache without the item of bus name `name`.
pub open spec fn item_removed(items: Seq<TrayItemView>, name: Seq<char>) -> Seq<TrayItemView> {
    if is_cached(items, name) {
        items.remove(item_position(items, name))
    } else {
        items
    }
}

/// The cache with the icon name of the item of bus name `name` replaced;
/// unchanged where no such item is cached.
pub open spec fn with_icon(items: Seq<TrayItemView>, name: Seq<char>, icon_name: Seq<char>) -> Seq<
    TrayItemView,
> {
    if is_cached(items, name) {
        let p = item_position(items, name);
        items.update(p, TrayItemView { icon_name, ..items[p] })
    } else {
        items
    }
}

/// The cache with the title of the item of bus name `name` replaced;
/// unchanged where no such item is cached.
pub open spec fn with_title(items: Seq<TrayItemView>, name: Seq<char>, title: Seq<char>) -> Seq<
    TrayItemView,
> {
    if is_cached(items, name) {
        let p = item_position(items, name);
        items.update(p, TrayItemView { title, ..items[p] })
    } else {
        items
    }
}

/// What `item_position` is: within bounds, past every item of another
/// name, and at an item of that name where it is inside.
pub proof fn lemma_item_position(items: Seq<TrayItemView>, name: Seq<char>)
    ensures
        0 <= item_position(items, name) <= items.len(),
        forall|j: int| 0 <= j < item_position(items, name) ==> items[j].bus_name != name,
        is_cached(items, name) ==> items[item_position(items, name)].bus_name == name,
        is_cached(items, name) <==> exists|j: int|
            0 <= j < items.len() && items[j].bus_name == name,
{
    let ns = item_names(items);
    lemma_first_index(ns, name);
    assert forall|j: int| 0 <= j < item_position(items, name) implies items[j].bus_name
        != name by {
        assert(ns[j] == items[j].bus_name);
    }
    if is_cached(items, name) {
        let p = item_position(items, name);
        assert(ns[p] == items[p].bus_name);
    } else {
        assert forall|j: int| 0 <= j < items.len() implies items[j].bus_name != name by {
            assert(ns[j] == items[j].bus_name);
        }
    }
}

/// Announcing an item keeps the bus names of the cache unique.
pub proof fn lemma_item_added_unique(items: Seq<TrayItemView>, item: TrayItemView)
    requires
        unique_items(items),
    ensures
        unique_items(item_added(items, item).0),
        is_cached(item_added(items, item).0, item.bus_name),
{
    lemma_item_position(items, item.bus_name);
    let after = item_added(items, item).0;
    if !is_cached(items, item.bus_name) {
        assert(after[items.len() as int].bus_name == item.bus_name);
    }
    lemma_item_position(after, item.bus_name);
}

/// Removing an item keeps the bus names of the cache unique and leaves
/// nothing under the name.
pub proof fn lemma_item_removed_unique(items: Seq<TrayItemView>, name: Seq<char>)
    requires
        unique_items(items),
    ensures
        unique_items(item_removed(items, name)),
        !is_cached(item_removed(items, name), name),
{
    lemma_item_position(items, name);
    let after = item_removed(items, name);
    if is_cached(items, name) {
        let p = item_position(items, name);
        assert forall|j: int| 0 <= j < after.len() implies after[j].bus_name != name by {
            if j < p {
                assert(after[j] == items[j]);
            } else {
                assert(after[j] == items[j + 1]);
            }
        }
        assert forall|i: int, j: int| 0 <= i < j < after.len() implies after[i].bus_name
            != after[j].bus_name by {
            let oi = if i < p {
                i
            } else {
                i + 1
            };
            let oj = if j < p {
                j
            } else {
                j + 1
            };
            assert(after[i] == items[oi]);
            assert(after[j] == items[oj]);
        }
    }
    lemma_item_position(after, name);
}

/// Nothing or one update, as a sequence.
pub open spec fn updates_of(u: Option<TrayUpdateView>) -> Seq<TrayUpdateView> {
    match u {
        Some(update) => seq![update],
        None => Seq::<TrayUpdateView>::empty(),
    }
}

/// The cached items that are still listed, in their order, and a `Remove`
/// for each that is not.
pub open spec fn swept(cache: Seq<TrayItemView>, listed: Seq<TrayItemView>) -> (
    Seq<TrayItemView>,
    Seq<TrayUpdateView>,
)
    decreases cache.len(),
{
    if cache.len() == 0 {
        (Seq::<TrayItemView>::empty(), Seq::<TrayUpdateView>::empty())
    } else {
        let before = swept(cache.drop_last(), listed);
        let last = cache.last();
        if is_cached(listed, last.bus_name) {
            (before.0.push(last), before.1)
        } else {
            (before.0, before.1.push(TrayUpdateView::Remove(last.bus_name)))
        }
    }
}

/// The cache after each of `listed` was announced in turn, and the updates
/// that this gave.
pub open spec fn added_all(cache: Seq<TrayItemView>, listed: Seq<TrayItemView>) -> (
    Seq<TrayItemView>,
    Seq<TrayUpdateView>,
)
    decreases listed.len(),
{
    if listed.len() == 0 {
        (cache, Seq::<TrayUpdateView>::empty())
    } else {
        let before = added_all(cache, listed.drop_last());
        let step = item_added(before.0, listed.last());
        (step.0, before.1 + updates_of(step.1))
    }
}

/// The cache brought in line with the full list of the items that exist
/// now, and the updates for the render loop: first a `Remove` for every
/// cached item that is no longer listed, then an `Add` for every listed
/// item that was not cached. An item that stays keeps what the cache knew
/// of it.
pub open spec fn reconciled(cache: Seq<TrayItemView>, listed: Seq<TrayItemView>) -> (
    Seq<TrayItemView>,
    Seq<TrayUpdateView>,
) {
    let after_sweep = swept(cache, listed);
    let after_add = added_all(after_sweep.0, listed);
    (after_add.0, after_sweep.1 + after_add.1)
}

/// The items that a sweep keeps are items of the cache, in the order of
/// the cache, so their bus names stay unique.
pub proof fn lemma_swept_unique(cache: Seq<TrayItemView>, listed: Seq<TrayItemView>)
    requires
        unique_items(cache),
    ensures
        unique_items(swept(cache, listed).0),
        forall|k: int|
            0 <= k < swept(cache, listed).0.len() ==> exists|j: int|
                0 <= j < cache.len() && cache[j] == #[trigger] swept(cache, listed).0[k],
    decreases cache.len(),
{
    if cache.len() > 0 {
        let front = cache.drop_last();
        lemma_swept_unique(front, listed);
        let before = swept(front, listed).0;
        let after = swept(cache, listed).0;
        assert forall|k: int| 0 <= k < after.len() implies exists|j: int|
            0 <= j < cache.len() && cache[j] == #[trigger] after[k] by {
            if k < before.len() {
                let j = choose|j: int| 0 <= j < front.len() && front[j] == before[k];
                assert(cache[j] == after[k]);
            } else {
                assert(cache[cache.len() - 1] == after[k]);
            }
        }
        if is_cached(listed, cache.last().bus_name) {
            assert forall|a: int, b: int| 0 <= a < b < after.len() implies after[a].bus_name
                != after[b].bus_name by {
                if b == before.len() {
                    let j = choose|j: int| 0 <= j < front.len() && front[j] == before[a];
                    assert(cache[j] == before[a]);
                    assert(cache[j].bus_name != cache[cache.len() - 1].bus_name);
                } else {
                    assert(before[a].bus_name != before[b].bus_name);
                }
            }
        }
    }
}

/// An item is among the items with one more at the end if it was among
/// them before or is the new one.
pub proof fn lemma_is_cached_push(items: Seq<TrayItemView>, item: TrayItemView, name: Seq<char>)
    ensures
        is_cached(items.push(item), name) <==> is_cached(items, name) || item.bus_name == name,
{
    let more = items.push(item);
    lemma_item_position(items, name);
    lemma_item_position(more, name);
    if is_cached(items, name) {
        let j = item_position(items, name);
        assert(more[j].bus_name == name);
    }
    if item.bus_name == name {
        assert(more[items.len() as int].bus_name == name);
    }
    if is_cached(more, name) {
        let j = item_position(more, name);
        if j < items.len() {
            assert(items[j].bus_name == name);
        }
    }
}

/// A sweep keeps exactly the cached items that are listed.
pub proof fn lemma_swept_holds(
    cache: Seq<TrayItemView>,
    listed: Seq<TrayItemView>,
    name: Seq<char>,
)
    ensures
        is_cached(swept(cache, listed).0, name) <==> is_cached(cache, name) && is_cached(
            listed,
            name,
        ),
    decreases cache.len(),
{
    lemma_item_position(cache, name);
    if cache.len() == 0 {
        lemma_item_position(swept(cache, listed).0, name);
    } else {
        let front = cache.drop_last();
        let last = cache.last();
        lemma_swept_holds(front, listed, name);
        lemma_is_cached_push(front, last, name);
        assert(front.push(last) =~= cache);
        lemma_is_cached_push(swept(front, listed).0, last, name);
    }
}

/// After the listed items were announced, the cache holds what it held and
/// what is listed.
pub proof fn lemma_added_all_holds(
    cache: Seq<TrayItemView>,
    listed: Seq<TrayItemView>,
    name: Seq<char>,
)
    ensures
        is_cached(added_all(cache, listed).0, name) <==> is_cached(cache, name) || is_cached(
            listed,
            name,
        ),
    decreases listed.len(),
{
    lemma_item_position(listed, name);
    if listed.len() > 0 {
        let front = listed.drop_last();
        let last = listed.last();
        lemma_added_all_holds(cache, front, name);
        lemma_is_cached_push(front, last, name);
        assert(front.push(last) =~= listed);
        let before = added_all(cache, front).0;
        lemma_is_cached_push(before, last, name);
        if is_cached(before, last.bus_name) && last.bus_name == name {
            assert(is_cached(before, name));
        }
    }
}

/// After a reconciliation the cache holds an item for exactly the bus names
/// that are listed, each once.
pub proof fn law_reconciled_cache_mirrors_the_list(
    cache: Seq<TrayItemView>,
    listed: Seq<TrayItemView>,
    name: Seq<char>,
)
    requires
        unique_items(cache),
    ensures
        is_cached(reconciled(cache, listed).0, name) <==> is_cached(listed, name),
        unique_items(reconciled(cache, listed).0),
{
    let kept = swept(cache, listed).0;
    lemma_swept_holds(cache, listed, name);
    lemma_added_all_holds(kept, listed, name);
    lemma_swept_unique(cache, listed);
    lemma_added_all_unique(kept, listed);
}

/// Announcing items one after another keeps the bus names unique.
pub proof fn lemma_added_all_unique(cache: Seq<TrayItemView>, listed: Seq<TrayItemView>)
    requires
        unique_items(cache),
    ensures
        unique_items(added_all(cache, listed).0),
    decreases listed.len(),
{
    if listed.len() > 0 {
        lemma_added_all_unique(cache, listed.drop_last());
        lemma_item_added_unique(added_all(cache, listed.drop_last()).0, listed.last());
    }
}

/// The views of the items, in their order.
pub open spec fn item_views(items: Seq<TrayItem>) -> Seq<TrayItemView> {
    items.map_values(|i: TrayItem| i@)
}

/// Where the item of bus name `name` stands among `items`, if there is one.
fn find_item(items: &Vec<TrayItem>, name: &str) -> (r: Option<usize>)
    ensures
        match r {
            Some(i) => i < items.len() && i == item_position(item_views(items@), name@),
            None => !is_cached(item_views(items@), name@),
        },
{
    let ghost all = item_views(items@);
    let mut i: usize = 0;
    while i < items.len()
        invariant
            i <= items.len(),
            all == item_views(items@),
            forall|j: int| 0 <= j < i ==> item_names(all)[j] != name@,
        decreases items.len() - i,
    {
        assert(item_names(all)[i as int] == items@[i as int].bus_name@);
        if items[i].bus_name.as_str().eq(name) {
            proof {
                lemma_first_index_is(item_names(all), name@, i as int);
            }
            return Some(i);
        }
        i += 1;
    }
    proof {
        lemma_first_index_is(item_names(all), name@, i as int);
    }
    None
}

/// The host's cache of the items it shows, at most one for each bus name,
/// in the order in which they were announced.
pub struct TrayCache {
    items: Vec<TrayItem>,
}

impl View for TrayCache {
    type V = Seq<TrayItemView>;

    closed spec fn view(&self) -> Seq<TrayItemView> {
        item_views(self.items@)
    }
}

impl TrayCache {
    #[verifier::type_invariant]
    spec fn names_are_unique(&self) -> bool {
        unique_items(self@)
    }

    /// The empty cache.
    pub fn new() -> (c: Self)
        ensures
            c@ == Seq::<TrayItemView>::empty(),
    {
        let c = TrayCache { items: Vec::new() };
        assert(c@ =~= Seq::<TrayItemView>::empty());
        c
    }

    /// Every cache holds each bus name at most once: this hands the fact to
    /// a caller that needs it.
    pub fn names_unique(&self)
        ensures
            unique_items(self@),
    {
        proof {
            use_type_invariant(self);
        }
    }

    /// The number of cached items.
    pub fn len(&self) -> (n: usize)
        ensures
            n == self@.len(),
    {
        self.items.len()
    }

    /// Whether the cache is empty.
    pub fn is_empty(&self) -> (r: bool)
        ensures
            r == (self@.len() == 0),
    {
        self.items.len() == 0
    }

    /// Where the item of `name` stands, if there is one.
    fn find(&self, name: &str) -> (r: Option<usize>)
        ensures
            match r {
                Some(i) => i < self@.len() && i == item_position(self@, name@),
                None => !is_cached(self@, name@),
            },
    {
        find_item(&self.items, name)
    }

    /// Whether an item of bus name `name` is cached.
    pub fn contains(&self, name: &str) -> (r: bool)
        ensures
            r == is_cached(self@, name@),
    {
        self.find(name).is_some()
    }

    /// The cached item of bus name `name`, if there is one.
    pub fn get(&self, name: &str) -> (r: Option<&TrayItem>)
        ensures
            match r {
                Some(i) => is_cached(self@, name@) && i@ == self@[item_position(self@, name@)],
                None => !is_cached(self@, name@),
            },
    {
        match self.find(name) {
            Some(i) => Some(&self.items[i]),
            None => None,
        }
    }

    /// Takes note of an item that was announced, by the registration signal
    /// or by the first enumeration. Returns the update for the render loop:
    /// `Add` for an item that is new, nothing for one that is already shown.
    pub fn add(&mut self, item: TrayItem) -> (update: Option<TrayUpdate>)
        ensures
            final(self)@ == item_added(old(self)@, item@).0,
            update.deep_view() == item_added(old(self)@, item@).1,
    {
        proof {
            use_type_invariant(&*self);
            lemma_item_added_unique(self@, item@);
        }
        if self.find(item.bus_name.as_str()).is_some() {
            return None;
        }
        let ghost before = self@;
        let shown = item.clone();
        let mut items: Vec<TrayItem> = Vec::new();
        core::mem::swap(&mut self.items, &mut items);
        items.push(item);
        assert(item_views(items@) =~= before.push(item@));
        core::mem::swap(&mut self.items, &mut items);
        Some(TrayUpdate::Add(shown))
    }

    /// Forgets the item of bus name `name` and tells whether there was one.
    pub fn remove(&mut self, name: &str) -> (was_cached: bool)
        ensures
            final(self)@ == item_removed(old(self)@, name@),
            was_cached == is_cached(old(self)@, name@),
    {
        proof {
            use_type_invariant(&*self);
            lemma_item_removed_unique(self@, name@);
        }
        match self.find(name) {
            Some(i) => {
                let ghost before = self@;
                let mut items: Vec<TrayItem> = Vec::new();
                core::mem::swap(&mut self.items, &mut items);
                let _ = items.remove(i);
                assert(item_views(items@) =~= before.remove(i as int));
                core::mem::swap(&mut self.items, &mut items);
                true
            },
            None => false,
        }
    }

    /// Puts `item` in the place of the cached item at `i`, which has the
    /// same bus name.
    fn replace_at(&mut self, i: usize, item: TrayItem)
        requires
            i < old(self)@.len(),
            item@.bus_name == old(self)@[i as int].bus_name,
        ensures
            final(self)@ == old(self)@.update(i as int, item@),
    {
        proof {
            use_type_invariant(&*self);
        }
        let ghost before = self@;
        let ghost after = before.update(i as int, item@);
        assert forall|a: int, b: int| 0 <= a < b < after.len() implies after[a].bus_name
            != after[b].bus_name by {
            assert(after[a].bus_name == before[a].bus_name);
            assert(after[b].bus_name == before[b].bus_name);
        }
        let mut items: Vec<TrayItem> = Vec::new();
        core::mem::swap(&mut self.items, &mut items);
        let _ = items.remove(i);
        items.insert(i, item);
        assert(item_views(items@) =~= after);
        core::mem::swap(&mut self.items, &mut items);
    }

    /// Notes the icon name that an item now has, after its icon changed.
    /// Tells whether the item is cached; nothing changes where it is not.
    pub fn set_icon(&mut self, name: &str, icon_name: String) -> (was_cached: bool)
        ensures
            final(self)@ == with_icon(old(self)@, name@, icon_name@),
            was_cached == is_cached(old(self)@, name@),
    {
        match self.find(name) {
            Some(i) => {
                let current = &self.items[i];
                let item = TrayItem {
                    bus_name: current.bus_name.clone(),
                    object_path: current.object_path.clone(),
                    title: current.title.clone(),
                    icon_name,
                    menu_path: current.menu_path.clone(),
                };
                self.replace_at(i, item);
                true
            },
            None => false,
        }
    }

    /// Notes the title that an item now has, after its title changed.
    /// Tells whether the item is cached; nothing changes where it is not.
    pub fn set_title(&mut self, name: &str, title: String) -> (was_cached: bool)
        ensures
            final(self)@ == with_title(old(self)@, name@, title@),
            was_cached == is_cached(old(self)@, name@),
    {
        match self.find(name) {
            Some(i) => {
                let current = &self.items[i];
                let item = TrayItem {
                    bus_name: current.bus_name.clone(),
                    object_path: current.object_path.clone(),
                    title,
                    icon_name: current.icon_name.clone(),
                    menu_path: current.menu_path.clone(),
                };
                self.replace_at(i, item);
                true
            },
            None => false,
        }
    }

    /// Handles the watcher's `StatusNotifierItemUnregistered(service)`: the
    /// item of the bus name in `service` leaves the cache, and `Remove` with
    /// that bus name goes to the render loop.
    pub fn item_unregistered(&mut self, service: &str) -> (update: TrayUpdate)
        ensures
            final(self)@ == item_removed(old(self)@, split_service_spec(service@).bus_name),
            update@ == TrayUpdateView::Remove(split_service_spec(service@).bus_name),
    {
        let name = bus_name_of(service);
        let _ = self.remove(name.as_str());
        TrayUpdate::Remove(name)
    }

    /// Handles a bus name that lost its owner: a cached item of that name
    /// leaves the cache and is removed from the display; any other name has
    /// no effect.
    pub fn name_vanished(&mut self, name: &str) -> (update: Option<TrayUpdate>)
        ensures
            final(self)@ == item_removed(old(self)@, name@),
            update.deep_view() == if is_cached(old(self)@, name@) {
                Some(TrayUpdateView::Remove(name@))
            } else {
                None
            },
    {
        if self.remove(name) {
            Some(TrayUpdate::Remove(name.to_owned()))
        } else {
            None
        }
    }

    /// Brings the cache in line with the full list of the items that exist
    /// now, as an enumeration of the watcher's registry gave it. Returns
    /// the updates for the render loop.
    pub fn reconcile(&mut self, listed: Vec<TrayItem>) -> (updates: Vec<TrayUpdate>)
        ensures
            final(self)@ == reconciled(old(self)@, listed.deep_view()).0,
            updates.deep_view() == reconciled(old(self)@, listed.deep_view()).1,
    {
        let ghost cache = self@;
        let ghost wanted = listed.deep_view();
        assert(wanted =~= item_views(listed@));
        proof {
            use_type_invariant(&*self);
            lemma_swept_unique(cache, wanted);
        }
        let mut old_items: Vec<TrayItem> = Vec::new();
        core::mem::swap(&mut self.items, &mut old_items);
        let mut kept: Vec<TrayItem> = Vec::new();
        let mut updates: Vec<TrayUpdate> = Vec::new();
        let mut i: usize = 0;
        assert(cache.take(0) =~= Seq::<TrayItemView>::empty());
        while i < old_items.len()
            invariant
                i <= old_items.len(),
                cache == item_views(old_items@),
                wanted == item_views(listed@),
                item_views(kept@) == swept(cache.take(i as int), wanted).0,
                updates.deep_view() == swept(cache.take(i as int), wanted).1,
            decreases old_items.len() - i,
        {
            let ghost upto = cache.take(i + 1);
            assert(upto.drop_last() =~= cache.take(i as int));
            assert(upto.last() == old_items@[i as int]@);
            let item = &old_items[i];
            if find_item(&listed, item.bus_name.as_str()).is_some() {
                kept.push(item.clone());
                assert(item_views(kept@) =~= swept(upto, wanted).0);
            } else {
                updates.push(TrayUpdate::Remove(item.bus_name.clone()));
                assert(updates.deep_view() =~= swept(upto, wanted).1);
            }
            i += 1;
        }
        assert(cache.take(i as int) =~= cache);
        core::mem::swap(&mut self.items, &mut kept);
        let ghost base = self@;
        let ghost removals = updates.deep_view();
        let mut k: usize = 0;
        assert(wanted.take(0) =~= Seq::<TrayItemView>::empty());
        assert(removals + Seq::<TrayUpdateView>::empty() =~= removals);
        while k < listed.len()
            invariant
                k <= listed.len(),
                wanted == item_views(listed@),
                self@ == added_all(base, wanted.take(k as int)).0,
                updates.deep_view() == removals + added_all(base, wanted.take(k as int)).1,
            decreases listed.len() - k,
        {
            let ghost upto = wanted.take(k + 1);
            assert(upto.drop_last() =~= wanted.take(k as int));
            assert(upto.last() == listed@[k as int]@);
            let ghost so_far = updates.deep_view();
            match self.add(listed[k].clone()) {
                Some(update) => {
                    updates.push(update);
                    assert(updates.deep_view() =~= so_far + seq![update@]);
                },
                None => {
                    assert(so_far + Seq::<TrayUpdateView>::empty() =~= so_far);
                },
            }
            assert(updates.deep_view() =~= removals + added_all(base, upto).1);
            k += 1;
        }
        assert(wanted.take(k as int) =~= wanted);
        updates
    }
}

} // verus!
