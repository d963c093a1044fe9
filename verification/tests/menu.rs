use riftbar::menu::{
    advertises_menu, clean_menu_label, context_menu, decode_layout, get_layout_call,
    introspect_call, menu_entry, MenuAction, MenuEntry, MenuItem, MENU_INTERFACE,
};
use riftbar::wire::{unwrap_variant, MethodCall, Value};

fn s(text: &str) -> Value {
    Value::Str(text.to_string())
}

fn var(v: Value) -> Value {
    Value::Variant(Box::new(v))
}

fn props(label: &str, kind: &str, enabled: bool, visible: bool) -> Value {
    Value::List(vec![
        s("label"),
        var(s(label)),
        s("type"),
        var(s(kind)),
        s("enabled"),
        var(Value::Bool(enabled)),
        s("visible"),
        var(Value::Bool(visible)),
    ])
}

fn layout_node(id: i64, properties: Value, children: Vec<Value>) -> Value {
    Value::List(vec![Value::Int(id), properties, Value::List(children)])
}

fn menu_item(id: i32, label: &str, enabled: bool) -> MenuItem {
    MenuItem { id, label: label.to_string(), enabled, visible: true }
}

#[test]
fn label_cleanup_drops_mnemonic_underscores() {
    assert_eq!(clean_menu_label("_Edit"), "Edit");
    assert_eq!(clean_menu_label("Sa_ve As"), "Save As");
}

#[test]
fn label_cleanup_edge_cases() {
    assert_eq!(clean_menu_label(""), "");
    assert_eq!(clean_menu_label("Plain"), "Plain");
    assert_eq!(clean_menu_label("_"), "");
    assert_eq!(clean_menu_label("Quit_"), "Quit");
    assert_eq!(clean_menu_label("a__b"), "a_b");
    assert_eq!(clean_menu_label("___"), "_");
    assert_eq!(clean_menu_label("____"), "__");
    assert_eq!(clean_menu_label("_a_b_c"), "abc");
    assert_eq!(clean_menu_label("\\342\\200\\246"), "\\342\\200\\246");
    assert_eq!(clean_menu_label("_\u{d6}ffnen\u{2026}"), "\u{d6}ffnen\u{2026}");
}

#[test]
fn layout_with_one_entry_flattens_to_it() {
    let reply = layout_node(
        0,
        Value::List(vec![]),
        vec![layout_node(1, props("Quit", "standard", true, true), vec![])],
    );
    assert_eq!(
        decode_layout(&reply),
        vec![MenuItem { id: 1, label: "Quit".to_string(), enabled: true, visible: true }]
    );
}

#[test]
fn separator_is_left_out_but_its_children_are_not() {
    let reply = layout_node(
        0,
        Value::List(vec![]),
        vec![
            layout_node(1, props("Open", "standard", true, true), vec![]),
            layout_node(
                2,
                props("ignored", "separator", true, true),
                vec![layout_node(3, props("Below", "standard", true, true), vec![])],
            ),
            layout_node(4, props("Quit", "standard", true, true), vec![]),
        ],
    );
    assert_eq!(
        decode_layout(&reply),
        vec![menu_item(1, "Open", true), menu_item(3, "Below", true), menu_item(4, "Quit", true)]
    );
}

#[test]
fn wrapped_child_decodes_like_bare_child() {
    let bare = layout_node(
        0,
        Value::List(vec![]),
        vec![
            layout_node(1, props("_File", "standard", true, true), vec![]),
            layout_node(2, props("_Quit", "standard", false, true), vec![]),
        ],
    );
    let wrapped = layout_node(
        0,
        Value::List(vec![]),
        vec![
            var(layout_node(1, props("_File", "standard", true, true), vec![])),
            var(var(layout_node(2, props("_Quit", "standard", false, true), vec![]))),
        ],
    );
    let expected = vec![menu_item(1, "File", true), menu_item(2, "Quit", false)];
    assert_eq!(decode_layout(&bare), expected);
    assert_eq!(decode_layout(&wrapped), expected);
    assert_eq!(decode_layout(&var(wrapped)), expected);
}

#[test]
fn entries_come_in_document_order() {
    let reply = layout_node(
        0,
        Value::List(vec![]),
        vec![
            layout_node(
                10,
                props("Sub", "standard", true, true),
                vec![
                    layout_node(11, props("A", "standard", true, true), vec![]),
                    layout_node(12, props("B", "standard", true, true), vec![]),
                ],
            ),
            layout_node(20, props("C", "standard", true, true), vec![]),
        ],
    );
    let ids: Vec<i32> = decode_layout(&reply).iter().map(|m| m.id).collect();
    assert_eq!(ids, vec![10, 11, 12, 20]);
}

#[test]
fn node_without_label_is_left_out() {
    let reply = layout_node(
        0,
        Value::List(vec![s("type"), var(s("standard"))]),
        vec![layout_node(5, Value::List(vec![s("label"), var(s("_"))]), vec![])],
    );
    assert_eq!(decode_layout(&reply), Vec::new());
}

#[test]
fn hidden_node_keeps_its_flag_and_is_not_shown() {
    let reply = layout_node(
        1,
        props("Hidden", "standard", true, false),
        vec![layout_node(2, props("Shown", "standard", false, true), vec![])],
    );
    let items = decode_layout(&reply);
    assert_eq!(
        items,
        vec![
            MenuItem { id: 1, label: "Hidden".to_string(), enabled: true, visible: false },
            menu_item(2, "Shown", false),
        ]
    );
    assert_eq!(
        context_menu(&items),
        vec![MenuEntry { label: "Shown".to_string(), enabled: false, action: MenuAction::Event(2) }]
    );
}

#[test]
fn menu_of_hidden_entries_falls_back() {
    let items = vec![MenuItem { id: 1, label: "Hidden".to_string(), enabled: true, visible: false }];
    assert_eq!(context_menu(&items), context_menu(&Vec::new()));
    assert_eq!(context_menu(&items).len(), 2);
}

#[test]
fn missing_flags_default_to_set() {
    let reply = layout_node(7, Value::List(vec![s("label"), var(s("Only label"))]), vec![]);
    assert_eq!(decode_layout(&reply), vec![menu_item(7, "Only label", true)]);
}

#[test]
fn disabled_entry_keeps_its_flag() {
    let reply = layout_node(7, props("Greyed", "standard", false, true), vec![]);
    assert_eq!(decode_layout(&reply), vec![menu_item(7, "Greyed", false)]);
}

#[test]
fn property_values_of_the_wrong_type_count_as_missing() {
    let reply = layout_node(
        7,
        Value::List(vec![
            s("label"),
            var(s("L")),
            s("enabled"),
            var(s("no")),
            s("visible"),
            var(Value::Int(0)),
            s("type"),
            var(Value::Int(3)),
        ]),
        vec![],
    );
    assert_eq!(decode_layout(&reply), vec![menu_item(7, "L", true)]);
    let reply = layout_node(
        7,
        Value::List(vec![s("label"), var(s("L")), s("visible"), var(Value::Bool(false))]),
        vec![],
    );
    assert_eq!(
        decode_layout(&reply),
        vec![MenuItem { id: 7, label: "L".to_string(), enabled: true, visible: false }]
    );
    let reply = layout_node(7, Value::List(vec![s("label"), var(Value::Int(1))]), vec![]);
    assert_eq!(decode_layout(&reply), Vec::new());
}

#[test]
fn first_entry_of_a_key_decides() {
    let reply = layout_node(
        7,
        Value::List(vec![s("label"), var(s("First")), s("label"), var(s("Second"))]),
        vec![],
    );
    assert_eq!(decode_layout(&reply), vec![menu_item(7, "First", true)]);
}

#[test]
fn property_values_may_be_bare_or_wrapped_twice() {
    let reply = layout_node(
        7,
        Value::List(vec![s("label"), s("Bare"), s("enabled"), var(var(Value::Bool(false)))]),
        vec![],
    );
    assert_eq!(decode_layout(&reply), vec![menu_item(7, "Bare", false)]);
}

#[test]
fn dangling_key_is_no_entry() {
    let reply = layout_node(
        7,
        Value::List(vec![s("enabled"), var(Value::Bool(false)), s("label")]),
        vec![],
    );
    assert_eq!(decode_layout(&reply), Vec::new());
}

#[test]
fn undecodable_nodes_are_skipped() {
    let good = layout_node(2, props("Good", "standard", true, true), vec![]);
    let reply = layout_node(
        0,
        Value::List(vec![]),
        vec![
            Value::Int(5),
            s("junk"),
            Value::List(vec![Value::Int(1), Value::List(vec![])]),
            Value::List(vec![s("1"), Value::List(vec![]), Value::List(vec![])]),
            layout_node(5_000_000_000, props("Too big", "standard", true, true), vec![]),
            layout_node(-5_000_000_000, props("Too small", "standard", true, true), vec![]),
            good,
        ],
    );
    assert_eq!(decode_layout(&reply), vec![menu_item(2, "Good", true)]);
    assert_eq!(decode_layout(&Value::Bool(true)), Vec::new());
    assert_eq!(decode_layout(&Value::List(vec![])), Vec::new());
}

#[test]
fn ids_at_the_edge_of_the_range_are_kept() {
    let reply = layout_node(
        0,
        Value::List(vec![]),
        vec![
            layout_node(2147483647, props("Max", "standard", true, true), vec![]),
            layout_node(-2147483648, props("Min", "standard", true, true), vec![]),
            layout_node(2147483648, props("Over", "standard", true, true), vec![]),
        ],
    );
    assert_eq!(
        decode_layout(&reply),
        vec![menu_item(2147483647, "Max", true), menu_item(-2147483648, "Min", true)]
    );
}

#[test]
fn menu_entry_of_properties() {
    let p = vec![s("label"), var(s("_Go")), s("enabled"), var(Value::Bool(false))];
    assert_eq!(menu_entry(3, &p), Some(menu_item(3, "Go", false)));
    let sep = vec![s("type"), var(s("separator")), s("label"), var(s("x"))];
    assert_eq!(menu_entry(3, &sep), None);
    assert_eq!(menu_entry(3, &Vec::new()), None);
}

#[test]
fn unwrap_variant_strips_every_layer() {
    assert_eq!(unwrap_variant(&var(var(var(Value::Int(4))))), &Value::Int(4));
    assert_eq!(unwrap_variant(&Value::Int(4)), &Value::Int(4));
    assert_eq!(unwrap_variant(&var(Value::List(vec![var(s("x"))]))), &Value::List(vec![var(s("x"))]));
}

#[test]
fn menu_interface_is_looked_up_in_introspection() {
    assert_eq!(MENU_INTERFACE, "com.canonical.dbusmenu");
    assert!(advertises_menu("<node><interface name=\"com.canonical.dbusmenu\"/></node>"));
    assert!(!advertises_menu("<node><interface name=\"org.freedesktop.DBus.Properties\"/></node>"));
    assert!(!advertises_menu(""));
    assert!(!advertises_menu("com.canonical.dbusmen"));
}

#[test]
fn introspect_call_goes_to_the_menu_object() {
    assert_eq!(
        introspect_call(":1.5", "/MenuBar"),
        MethodCall {
            destination: ":1.5".to_string(),
            path: "/MenuBar".to_string(),
            interface: "org.freedesktop.DBus.Introspectable".to_string(),
            member: "Introspect".to_string(),
            signature: "".to_string(),
            arguments: vec![],
            timeout_ms: 5000,
            wait_for_reply: true,
        }
    );
}

#[test]
fn layout_call_asks_for_everything() {
    assert_eq!(
        get_layout_call(":1.5", "/MenuBar"),
        MethodCall {
            destination: ":1.5".to_string(),
            path: "/MenuBar".to_string(),
            interface: "com.canonical.dbusmenu".to_string(),
            member: "GetLayout".to_string(),
            signature: "iias".to_string(),
            arguments: vec![Value::Int(0), Value::Int(-1), Value::List(vec![])],
            timeout_ms: 5000,
            wait_for_reply: true,
        }
    );
}

#[test]
fn trigger_sends_a_clicked_event() {
    assert_eq!(
        riftbar::menu::trigger(":1.5", "/MenuBar", 42),
        MethodCall {
            destination: ":1.5".to_string(),
            path: "/MenuBar".to_string(),
            interface: "com.canonical.dbusmenu".to_string(),
            member: "Event".to_string(),
            signature: "isvu".to_string(),
            arguments: vec![Value::Int(42), s("clicked"), var(Value::Int(0)), Value::Int(0)],
            timeout_ms: 5000,
            wait_for_reply: false,
        }
    );
    assert_eq!(riftbar::menu::trigger("a", "/b", -7).arguments[0], Value::Int(-7));
    assert_eq!(riftbar::menu::trigger("a", "/b", i32::MIN).arguments[0], Value::Int(-2147483648));
}

#[test]
fn empty_menu_falls_back_to_activate_entries() {
    assert_eq!(
        context_menu(&Vec::new()),
        vec![
            MenuEntry { label: "Open".to_string(), enabled: true, action: MenuAction::Activate },
            MenuEntry {
                label: "Secondary Activate".to_string(),
                enabled: true,
                action: MenuAction::SecondaryActivate,
            },
        ]
    );
}

#[test]
fn decoded_menu_is_shown_line_by_line() {
    let items = vec![menu_item(1, "Open", true), menu_item(9, "Quit", false)];
    assert_eq!(
        context_menu(&items),
        vec![
            MenuEntry { label: "Open".to_string(), enabled: true, action: MenuAction::Event(1) },
            MenuEntry { label: "Quit".to_string(), enabled: false, action: MenuAction::Event(9) },
        ]
    );
}

#[test]
fn menu_item_clone_is_equal() {
    let m = menu_item(1, "x", false);
    assert_eq!(m.clone(), m);
}
