use riftbar::cache::TrayCache;
use riftbar::host::{
    build_tray_item, bus_name_of, change_signals, guess_icon_from_service, host_bus_name,
    icon_for_lowercased, listed_entries, refreshed_properties, split_service, status_class,
    update_for_signal, StatusNotifierHost, TrayItem, TrayUpdate, DEFAULT_MENU_PATH,
    HOST_OBJECT_PATH,
};
use riftbar::registry::WatchEntry;
use riftbar::watcher::{handle_name_vanished, Signal, StatusNotifierWatcher};
use riftbar::wire::{MethodCall, Value};

fn item(bus_name: &str, title: &str) -> TrayItem {
    TrayItem {
        bus_name: bus_name.to_string(),
        object_path: "/StatusNotifierItem".to_string(),
        title: title.to_string(),
        icon_name: "icon".to_string(),
        menu_path: "/MenuBar".to_string(),
    }
}

#[test]
fn host_names() {
    assert_eq!(HOST_OBJECT_PATH, "/StatusNotifierHost/0");
    assert_eq!(DEFAULT_MENU_PATH, "/MenuBar");
    assert_eq!(host_bus_name(4711), "org.kde.StatusNotifierHost-4711-0");
    assert_eq!(host_bus_name(0), "org.kde.StatusNotifierHost-0-0");
    assert_eq!(host_bus_name(9), "org.kde.StatusNotifierHost-9-0");
    assert_eq!(host_bus_name(10), "org.kde.StatusNotifierHost-10-0");
    assert_eq!(host_bus_name(4294967295), "org.kde.StatusNotifierHost-4294967295-0");
}

#[test]
fn split_at_first_slash() {
    let e = split_service(":1.123/path/to/item");
    assert_eq!(
        e,
        WatchEntry { bus_name: ":1.123".to_string(), object_path: "/path/to/item".to_string() }
    );
}

#[test]
fn split_without_slash_uses_default_path() {
    let e = split_service(":1.123");
    assert_eq!(
        e,
        WatchEntry { bus_name: ":1.123".to_string(), object_path: "/StatusNotifierItem".to_string() }
    );
}

#[test]
fn split_edge_cases() {
    let e = split_service("/only/path");
    assert_eq!(e, WatchEntry { bus_name: "".to_string(), object_path: "/only/path".to_string() });
    let e = split_service("");
    assert_eq!(
        e,
        WatchEntry { bus_name: "".to_string(), object_path: "/StatusNotifierItem".to_string() }
    );
    let e = split_service("name/");
    assert_eq!(e, WatchEntry { bus_name: "name".to_string(), object_path: "/".to_string() });
    let e = split_service("n\u{e4}me/p\u{e4}th");
    assert_eq!(
        e,
        WatchEntry { bus_name: "n\u{e4}me".to_string(), object_path: "/p\u{e4}th".to_string() }
    );
}

#[test]
fn bus_name_of_service_string() {
    assert_eq!(bus_name_of("org.example.App/StatusNotifierItem"), "org.example.App");
    assert_eq!(bus_name_of("org.example.App"), "org.example.App");
}

#[test]
fn service_string_round_trip() {
    let e = WatchEntry { bus_name: "org.x.Y".to_string(), object_path: "/a/b".to_string() };
    assert_eq!(split_service(&e.service_string()), e);
}

#[test]
fn icon_is_guessed_from_lower_case_name() {
    assert_eq!(guess_icon_from_service("com.Discord.Client"), "discord");
    assert_eq!(guess_icon_from_service("org.SPOTIFY"), "spotify");
    assert_eq!(guess_icon_from_service("org.telegram.desktop"), "telegram");
    assert_eq!(guess_icon_from_service("com.valvesoftware.Steam"), "steam");
    assert_eq!(guess_icon_from_service("org.freedesktop.network-manager"), "network-wireless");
    assert_eq!(guess_icon_from_service("NM-Applet"), "network-wireless");
    assert_eq!(guess_icon_from_service("org.bluetooth.tray"), "bluetooth");
    assert_eq!(guess_icon_from_service("org.blueman.Tray"), "bluetooth");
    assert_eq!(guess_icon_from_service("org.audio.mixer"), "audio-volume-high");
    assert_eq!(guess_icon_from_service("org.Volume.ctl"), "audio-volume-high");
    assert_eq!(guess_icon_from_service(":1.55"), "application-x-executable");
    assert_eq!(guess_icon_from_service(""), "application-x-executable");
}

#[test]
fn icon_guess_takes_the_first_match() {
    assert_eq!(icon_for_lowercased("steam-discord"), "discord");
    assert_eq!(icon_for_lowercased("volume-network"), "network-wireless");
    assert_eq!(icon_for_lowercased("Discord"), "application-x-executable");
    assert_eq!(icon_for_lowercased("stea"), "application-x-executable");
}

#[test]
fn item_with_all_properties() {
    let it = build_tray_item(
        ":1.5",
        "/Item",
        Some("Title".to_string()),
        Some("my-icon".to_string()),
        Some("/Menu".to_string()),
    );
    assert_eq!(
        it,
        TrayItem {
            bus_name: ":1.5".to_string(),
            object_path: "/Item".to_string(),
            title: "Title".to_string(),
            icon_name: "my-icon".to_string(),
            menu_path: "/Menu".to_string(),
        }
    );
}

#[test]
fn item_without_properties_falls_back() {
    let it = build_tray_item("org.Spotify.Client", "/StatusNotifierItem", None, None, None);
    assert_eq!(it.title, "org.Spotify.Client");
    assert_eq!(it.icon_name, "spotify");
    assert_eq!(it.menu_path, "/MenuBar");
    assert_eq!(it.bus_name, "org.Spotify.Client");
    assert_eq!(it.object_path, "/StatusNotifierItem");
}

#[test]
fn empty_icon_name_is_guessed_empty_title_is_kept() {
    let it = build_tray_item(":1.9", "/I", Some("".to_string()), Some("".to_string()), None);
    assert_eq!(it.title, "");
    assert_eq!(it.icon_name, "application-x-executable");
}

#[test]
fn change_signals_become_updates() {
    let kde = "org.kde.StatusNotifierItem";
    let aya = "org.ayatana.StatusNotifierItem";
    assert_eq!(update_for_signal(kde, "NewIcon", ":1.5"), Some(TrayUpdate::UpdateIcon(":1.5".to_string())));
    assert_eq!(
        update_for_signal(aya, "NewOverlayIcon", ":1.5"),
        Some(TrayUpdate::UpdateIcon(":1.5".to_string()))
    );
    assert_eq!(
        update_for_signal(kde, "NewAttentionIcon", ":1.6"),
        Some(TrayUpdate::UpdateIcon(":1.6".to_string()))
    );
    assert_eq!(update_for_signal(kde, "NewTitle", ":1.5"), Some(TrayUpdate::UpdateStatus(":1.5".to_string())));
    assert_eq!(update_for_signal(aya, "NewStatus", ":1.5"), Some(TrayUpdate::UpdateStatus(":1.5".to_string())));
}

#[test]
fn other_signals_are_ignored() {
    assert_eq!(update_for_signal("org.kde.StatusNotifierItem", "NewToolTip", ":1.5"), None);
    assert_eq!(update_for_signal("org.kde.StatusNotifierItem", "newicon", ":1.5"), None);
    assert_eq!(update_for_signal("org.freedesktop.DBus", "NewIcon", ":1.5"), None);
    assert_eq!(update_for_signal("", "", ""), None);
}

#[test]
fn cache_shows_each_item_once() {
    let mut c = TrayCache::new();
    assert!(c.is_empty());
    assert_eq!(c.add(item("a", "first")), Some(TrayUpdate::Add(item("a", "first"))));
    assert_eq!(c.add(item("a", "second")), None);
    assert_eq!(c.len(), 1);
    assert_eq!(c.get("a"), Some(&item("a", "first")));
    assert!(c.contains("a"));
    assert!(!c.contains("b"));
    assert_eq!(c.get("b"), None);
}

#[test]
fn cache_remove() {
    let mut c = TrayCache::new();
    c.add(item("a", "1"));
    c.add(item("b", "2"));
    assert!(c.remove("a"));
    assert!(!c.remove("a"));
    c.names_unique();
    assert_eq!(c.len(), 1);
    assert!(c.contains("b"));
}

#[test]
fn unregistration_signal_removes_by_bus_name() {
    let mut c = TrayCache::new();
    c.add(item("org.example.App", "t"));
    let u = c.item_unregistered("org.example.App/StatusNotifierItem");
    assert_eq!(u, TrayUpdate::Remove("org.example.App".to_string()));
    assert!(c.is_empty());
    let u = c.item_unregistered("org.example.App/StatusNotifierItem");
    assert_eq!(u, TrayUpdate::Remove("org.example.App".to_string()));
}

#[test]
fn cache_name_vanished() {
    let mut c = TrayCache::new();
    c.add(item("a", "1"));
    assert_eq!(c.name_vanished("b"), None);
    assert_eq!(c.name_vanished("a"), Some(TrayUpdate::Remove("a".to_string())));
    assert_eq!(c.name_vanished("a"), None);
}

#[test]
fn reconcile_removes_then_adds() {
    let mut c = TrayCache::new();
    c.add(item("a", "old a"));
    c.add(item("b", "old b"));
    c.add(item("c", "old c"));
    let updates = c.reconcile(vec![item("d", "new d"), item("b", "new b"), item("e", "new e")]);
    assert_eq!(
        updates,
        vec![
            TrayUpdate::Remove("a".to_string()),
            TrayUpdate::Remove("c".to_string()),
            TrayUpdate::Add(item("d", "new d")),
            TrayUpdate::Add(item("e", "new e")),
        ]
    );
    assert_eq!(c.len(), 3);
    assert_eq!(c.get("b"), Some(&item("b", "old b")));
    assert_eq!(c.get("d"), Some(&item("d", "new d")));
    assert!(!c.contains("a"));
}

#[test]
fn reconcile_first_enumeration_adds_each_once() {
    let mut c = TrayCache::new();
    let updates = c.reconcile(vec![item("a", "1"), item("b", "2"), item("a", "3")]);
    assert_eq!(updates, vec![TrayUpdate::Add(item("a", "1")), TrayUpdate::Add(item("b", "2"))]);
    assert_eq!(c.len(), 2);
}

#[test]
fn reconcile_with_nothing_listed_removes_all() {
    let mut c = TrayCache::new();
    c.add(item("a", "1"));
    c.add(item("b", "2"));
    let updates = c.reconcile(Vec::new());
    assert_eq!(updates, vec![TrayUpdate::Remove("a".to_string()), TrayUpdate::Remove("b".to_string())]);
    assert!(c.is_empty());
    assert_eq!(c.reconcile(Vec::new()), Vec::new());
}

#[test]
fn item_registers_and_vanishes_end_to_end() {
    let mut watcher = StatusNotifierWatcher::new();
    let mut cache = TrayCache::new();

    let signal = watcher.register_item("org.example.App", ":1.31");
    let service = match signal {
        Some(Signal::ItemRegistered(s)) => s,
        other => panic!("expected a registration signal, got {:?}", other),
    };
    let entry = split_service(&service);
    let built = build_tray_item(&entry.bus_name, &entry.object_path, None, None, None);
    let update = cache.add(built);
    match update {
        Some(TrayUpdate::Add(it)) => {
            assert_eq!(it.bus_name, "org.example.App");
            assert_eq!(it.object_path, "/StatusNotifierItem");
        }
        other => panic!("expected Add, got {:?}", other),
    }

    let signal = handle_name_vanished(&mut watcher, "org.example.App");
    let service = match signal {
        Some(Signal::ItemUnregistered(s)) => s,
        other => panic!("expected an unregistration signal, got {:?}", other),
    };
    assert_eq!(cache.item_unregistered(&service), TrayUpdate::Remove("org.example.App".to_string()));
    assert!(cache.is_empty());
    assert!(watcher.items.is_empty());
}

#[test]
fn listed_service_strings_become_entries() {
    let list = vec![":1.5/Item".to_string(), "org.example.App".to_string()];
    assert_eq!(
        listed_entries(&list),
        vec![
            WatchEntry { bus_name: ":1.5".to_string(), object_path: "/Item".to_string() },
            WatchEntry {
                bus_name: "org.example.App".to_string(),
                object_path: "/StatusNotifierItem".to_string(),
            },
        ]
    );
    assert_eq!(listed_entries(&Vec::new()), Vec::new());
}

#[test]
fn host_registers_under_its_own_name() {
    let host = StatusNotifierHost::new(321);
    assert_eq!(host.bus_name, "org.kde.StatusNotifierHost-321-0");
    assert!(host.cache.is_empty());
    assert_eq!(
        host.register(),
        MethodCall {
            destination: "org.kde.StatusNotifierWatcher".to_string(),
            path: "/StatusNotifierWatcher".to_string(),
            interface: "org.kde.StatusNotifierWatcher".to_string(),
            member: "RegisterStatusNotifierHost".to_string(),
            signature: "s".to_string(),
            arguments: vec![Value::Str("org.kde.StatusNotifierHost-321-0".to_string())],
            timeout_ms: 5000,
            wait_for_reply: true,
        }
    );
}

#[test]
fn host_enumerates_by_reading_the_watcher_property() {
    let host = StatusNotifierHost::new(1);
    assert_eq!(
        host.get_registered_items(),
        MethodCall {
            destination: "org.kde.StatusNotifierWatcher".to_string(),
            path: "/StatusNotifierWatcher".to_string(),
            interface: "org.freedesktop.DBus.Properties".to_string(),
            member: "Get".to_string(),
            signature: "ss".to_string(),
            arguments: vec![
                Value::Str("org.kde.StatusNotifierWatcher".to_string()),
                Value::Str("RegisteredStatusNotifierItems".to_string()),
            ],
            timeout_ms: 1000,
            wait_for_reply: true,
        }
    );
}

#[test]
fn host_registration_reaches_the_watcher() {
    let mut watcher = StatusNotifierWatcher::new();
    let host = StatusNotifierHost::new(77);
    let call = host.register();
    let service = match &call.arguments[0] {
        Value::Str(s) => s.clone(),
        other => panic!("expected a string argument, got {:?}", other),
    };
    assert_eq!(watcher.register_host(&service, ":1.8"), Some(Signal::HostRegistered));
    assert!(watcher.is_host_registered());
    assert!(watcher.hosts.contains_key("org.kde.StatusNotifierHost-77-0"));
}

#[test]
fn cached_item_is_updated_in_place() {
    let mut c = TrayCache::new();
    c.add(item("a", "title a"));
    c.add(item("b", "title b"));
    assert!(c.set_icon("a", "new-icon".to_string()));
    assert!(c.set_title("b", "new title".to_string()));
    assert!(!c.set_icon("zzz", "x".to_string()));
    assert!(!c.set_title("zzz", "x".to_string()));
    assert_eq!(c.len(), 2);
    let mut a = item("a", "title a");
    a.icon_name = "new-icon".to_string();
    assert_eq!(c.get("a"), Some(&a));
    assert_eq!(c.get("b"), Some(&item("b", "new title")));
    let updates = c.reconcile(vec![item("b", "x"), item("a", "y")]);
    assert_eq!(updates, Vec::new());
    assert_eq!(c.get("a"), Some(&a));
}

#[test]
fn updates_name_the_properties_to_read_again() {
    assert_eq!(refreshed_properties(&TrayUpdate::UpdateIcon("a".to_string())), vec!["IconName"]);
    assert_eq!(refreshed_properties(&TrayUpdate::UpdateStatus("a".to_string())), vec!["Status", "Title"]);
    assert_eq!(refreshed_properties(&TrayUpdate::Remove("a".to_string())), Vec::<&str>::new());
    assert_eq!(refreshed_properties(&TrayUpdate::Add(item("a", "t"))), Vec::<&str>::new());
}

#[test]
fn change_signal_members() {
    let members = change_signals();
    assert_eq!(members, vec!["NewIcon", "NewOverlayIcon", "NewAttentionIcon", "NewTitle", "NewStatus"]);
    for member in members {
        assert!(update_for_signal("org.kde.StatusNotifierItem", member, ":1.1").is_some());
        assert!(update_for_signal("org.ayatana.StatusNotifierItem", member, ":1.1").is_some());
    }
}

#[test]
fn status_style_classes() {
    assert_eq!(status_class("Passive"), "passive");
    assert_eq!(status_class("NeedsAttention"), "needs-attention");
    assert_eq!(status_class("Active"), "active");
    assert_eq!(status_class(""), "active");
    assert_eq!(status_class("passive"), "active");
}
