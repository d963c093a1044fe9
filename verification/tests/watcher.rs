use riftbar::registry::{Registry, WatchEntry};
use riftbar::watcher::{
    handle_name_owner_changed, handle_name_vanished, name_request, resolve_service, NameRequest,
    Signal, StatusNotifierWatcher, HOST_DEFAULT_PATH, ITEM_DEFAULT_PATH, PROTOCOL_VERSION,
    WATCHER_BUS, WATCHER_IFACE, WATCHER_PATH,
};

fn entry(bus_name: &str, object_path: &str) -> WatchEntry {
    WatchEntry { bus_name: bus_name.to_string(), object_path: object_path.to_string() }
}

#[test]
fn well_known_names() {
    assert_eq!(WATCHER_BUS, "org.kde.StatusNotifierWatcher");
    assert_eq!(WATCHER_PATH, "/StatusNotifierWatcher");
    assert_eq!(WATCHER_IFACE, "org.kde.StatusNotifierWatcher");
    assert_eq!(ITEM_DEFAULT_PATH, "/StatusNotifierItem");
    assert_eq!(HOST_DEFAULT_PATH, "/StatusNotifierHost");
    assert_eq!(PROTOCOL_VERSION, 0);
}

#[test]
fn service_that_is_a_path_belongs_to_the_sender() {
    let e = resolve_service("/org/ayatana/NotificationItem/app", ":1.42", ITEM_DEFAULT_PATH);
    assert_eq!(e, entry(":1.42", "/org/ayatana/NotificationItem/app"));
}

#[test]
fn service_that_is_a_name_gets_the_default_path() {
    let e = resolve_service("org.example.App", ":1.42", ITEM_DEFAULT_PATH);
    assert_eq!(e, entry("org.example.App", "/StatusNotifierItem"));
}

#[test]
fn malformed_service_is_taken_as_a_bus_name() {
    let e = resolve_service("not a name/with slash", ":1.7", ITEM_DEFAULT_PATH);
    assert_eq!(e, entry("not a name/with slash", "/StatusNotifierItem"));
    let e = resolve_service("", ":1.7", ITEM_DEFAULT_PATH);
    assert_eq!(e, entry("", "/StatusNotifierItem"));
    let e = resolve_service("/", ":1.7", ITEM_DEFAULT_PATH);
    assert_eq!(e, entry(":1.7", "/"));
}

#[test]
fn service_string_joins_without_separator() {
    assert_eq!(entry(":1.5", "/Item").service_string(), ":1.5/Item");
    assert_eq!(
        entry("org.example.App", "/StatusNotifierItem").service_string(),
        "org.example.App/StatusNotifierItem"
    );
}

#[test]
fn registry_insert_is_idempotent() {
    let mut r = Registry::new();
    assert!(r.is_empty());
    assert!(r.insert(entry("a", "/x")));
    assert!(!r.insert(entry("a", "/y")));
    assert_eq!(r.len(), 1);
    assert_eq!(r.get("a"), Some(&entry("a", "/x")));
    assert!(r.contains_key("a"));
    assert!(!r.contains_key("b"));
    assert_eq!(r.get("b"), None);
}

#[test]
fn registry_remove_takes_exactly_one() {
    let mut r = Registry::new();
    r.insert(entry("a", "/1"));
    r.insert(entry("b", "/2"));
    r.insert(entry("c", "/3"));
    assert_eq!(r.remove("b"), Some(entry("b", "/2")));
    assert_eq!(r.remove("b"), None);
    r.names_unique();
    assert_eq!(r.len(), 2);
    assert_eq!(r.service_strings(), vec!["a/1".to_string(), "c/3".to_string()]);
}

#[test]
fn item_registration_emits_service_string() {
    let mut w = StatusNotifierWatcher::new();
    let s = w.register_item("org.example.App", ":1.10");
    assert_eq!(s, Some(Signal::ItemRegistered("org.example.App/StatusNotifierItem".to_string())));
    assert_eq!(w.registered_items(), vec!["org.example.App/StatusNotifierItem".to_string()]);
}

#[test]
fn item_registration_by_path_uses_sender() {
    let mut w = StatusNotifierWatcher::new();
    let s = w.register_item("/org/example/Item", ":1.10");
    assert_eq!(s, Some(Signal::ItemRegistered(":1.10/org/example/Item".to_string())));
    assert_eq!(w.items.get(":1.10"), Some(&entry(":1.10", "/org/example/Item")));
}

#[test]
fn registering_twice_keeps_one_entry_and_one_signal() {
    let mut w = StatusNotifierWatcher::new();
    let first = w.register_item("org.example.App", ":1.10");
    let second = w.register_item("org.example.App", ":1.10");
    assert!(first.is_some());
    assert_eq!(second, None);
    assert_eq!(w.items.len(), 1);
    assert_eq!(w.registered_items().len(), 1);
}

#[test]
fn registering_same_bus_name_by_path_and_by_name_is_one_entry() {
    let mut w = StatusNotifierWatcher::new();
    assert!(w.register_item("/some/path", ":1.10").is_some());
    assert_eq!(w.register_item(":1.10", ":1.99"), None);
    assert_eq!(w.items.len(), 1);
    assert_eq!(w.registered_items(), vec![":1.10/some/path".to_string()]);
}

#[test]
fn first_host_is_announced_later_hosts_are_not() {
    let mut w = StatusNotifierWatcher::new();
    assert!(!w.is_host_registered());
    assert_eq!(w.register_host("org.kde.StatusNotifierHost-1-0", ":1.2"), Some(Signal::HostRegistered));
    assert!(w.is_host_registered());
    assert_eq!(w.register_host("org.kde.StatusNotifierHost-2-0", ":1.3"), None);
    assert_eq!(w.register_host("org.kde.StatusNotifierHost-1-0", ":1.2"), None);
    assert_eq!(w.hosts.len(), 2);
}

#[test]
fn host_registered_by_name_gets_the_host_path() {
    let mut w = StatusNotifierWatcher::new();
    w.register_host("org.kde.StatusNotifierHost-1-0", ":1.2");
    assert_eq!(
        w.hosts.get("org.kde.StatusNotifierHost-1-0"),
        Some(&entry("org.kde.StatusNotifierHost-1-0", "/StatusNotifierHost"))
    );
    w.register_host("/StatusNotifierHost/0", ":1.9");
    assert_eq!(w.hosts.get(":1.9"), Some(&entry(":1.9", "/StatusNotifierHost/0")));
}

#[test]
fn host_is_announced_again_after_the_registry_emptied() {
    let mut w = StatusNotifierWatcher::new();
    assert_eq!(w.register_host("h", ":1.2"), Some(Signal::HostRegistered));
    assert_eq!(handle_name_vanished(&mut w, "h"), None);
    assert!(!w.is_host_registered());
    assert_eq!(w.register_host("h2", ":1.3"), Some(Signal::HostRegistered));
}

#[test]
fn vanished_item_is_unregistered_with_its_service_string() {
    let mut w = StatusNotifierWatcher::new();
    w.register_item("org.a", ":1.1");
    w.register_item("/custom/path", ":1.2");
    w.register_item("org.c", ":1.3");
    let s = handle_name_vanished(&mut w, ":1.2");
    assert_eq!(s, Some(Signal::ItemUnregistered(":1.2/custom/path".to_string())));
    assert_eq!(
        w.registered_items(),
        vec!["org.a/StatusNotifierItem".to_string(), "org.c/StatusNotifierItem".to_string()]
    );
    assert_eq!(handle_name_vanished(&mut w, ":1.2"), None);
}

#[test]
fn vanished_host_leaves_silently() {
    let mut w = StatusNotifierWatcher::new();
    w.register_host("host.a", ":1.1");
    w.register_item("item.a", ":1.2");
    assert_eq!(handle_name_vanished(&mut w, "host.a"), None);
    assert_eq!(w.hosts.len(), 0);
    assert_eq!(w.items.len(), 1);
}

#[test]
fn name_that_is_item_and_host_leaves_both_registries() {
    let mut w = StatusNotifierWatcher::new();
    w.register_item("both", ":1.1");
    w.register_host("both", ":1.1");
    let s = handle_name_vanished(&mut w, "both");
    assert_eq!(s, Some(Signal::ItemUnregistered("both/StatusNotifierItem".to_string())));
    assert!(w.items.is_empty());
    assert!(w.hosts.is_empty());
}

#[test]
fn unknown_name_vanishes_without_effect() {
    let mut w = StatusNotifierWatcher::new();
    w.register_item("item.a", ":1.2");
    assert_eq!(handle_name_vanished(&mut w, "stranger"), None);
    assert_eq!(w.items.len(), 1);
}

#[test]
fn owner_change_counts_only_when_the_new_owner_is_empty() {
    let mut w = StatusNotifierWatcher::new();
    w.register_item("item.a", ":1.2");
    assert_eq!(handle_name_owner_changed(&mut w, "item.a", ":1.77"), None);
    assert_eq!(w.items.len(), 1);
    assert_eq!(
        handle_name_owner_changed(&mut w, "item.a", ""),
        Some(Signal::ItemUnregistered("item.a/StatusNotifierItem".to_string()))
    );
    assert_eq!(w.items.len(), 0);
}

#[test]
fn signal_members_and_arguments() {
    let a = Signal::ItemRegistered("x/y".to_string());
    let b = Signal::ItemUnregistered("x/y".to_string());
    let c = Signal::HostRegistered;
    assert_eq!(a.member(), "StatusNotifierItemRegistered");
    assert_eq!(b.member(), "StatusNotifierItemUnregistered");
    assert_eq!(c.member(), "StatusNotifierHostRegistered");
    assert_eq!(a.argument(), Some("x/y"));
    assert_eq!(b.argument(), Some("x/y"));
    assert_eq!(c.argument(), None);
}

#[test]
fn protocol_version_is_zero() {
    assert_eq!(StatusNotifierWatcher::new().protocol_version(), 0);
}

#[test]
fn entry_clone_is_equal() {
    let e = entry("a", "/b");
    assert_eq!(e.clone(), e);
}

#[test]
fn watcher_name_is_taken_over_and_given_up() {
    assert_eq!(
        name_request(),
        NameRequest { allow_replacement: true, replace_existing: true, do_not_queue: true }
    );
}
