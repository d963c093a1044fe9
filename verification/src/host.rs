//! The StatusNotifierHost: the consumer that registers with the watcher,
//! learns which items exist and turns what it hears on the bus into updates
//! for the render loop.
//!
//! The bus traffic itself is the caller's. This module decides what a
//! service string means, what a tray item looks like when a property could
//! not be read, and which update a signal stands for.

use vstd::prelude::*;
use vstd::string::*;
use crate::text::{
    chars_of, contains, decimal, find_char, first_index, has_substring, lemma_first_index,
    lemma_first_index_is, lowercase_of, push_decimal, starts_with_char, string_of_range,
    to_lowercase,
};
use crate::registry::{
    has_name, lemma_inserted_unique, lemma_position, position, service_string, unique_names,
    WatchEntry, WatchEntryView,
};
use crate::watcher::{
    name_vanished, register_item, resolve, SignalView, WatcherView, ITEM_DEFAULT_PATH,
    WATCHER_BUS, WATCHER_IFACE, WATCHER_PATH,
};
use crate::cache::TrayCache;
use crate::property::{is_item_interface, item_interface};
use crate::wire::{
    MethodCall, MethodCallView, Value, ValueView, CALL_TIMEOUT_MS, PROPERTIES_INTERFACE,
    PROPERTY_TIMEOUT_MS,
};

verus! {

/// Object path that the host publishes.
pub const HOST_OBJECT_PATH: &'static str = "/StatusNotifierHost/0";

/// Menu object path assumed for an item that does not name one.
pub const DEFAULT_MENU_PATH: &'static str = "/MenuBar";

/// The bus name of the host of process `pid`.
pub open spec fn host_bus_name_spec(pid: nat) -> Seq<char> {
    "org.kde.StatusNotifierHost-"@ + decimal(pid) + "-0"@
}

/// The unique bus name under which the host of process `pid` registers:
/// `org.kde.StatusNotifierHost-<pid>-0`.
pub fn host_bus_name(pid: u32) -> (name: String)
    ensures
        name@ == host_bus_name_spec(pid as nat),
{
    let mut name = String::from_str("org.kde.StatusNotifierHost-");
    push_decimal(&mut name, pid);
    name.append("-0");
    name
}

/// What a service string names. The bus name is what stands before the
/// first `/`, the object path what begins there; a string without `/` is a
/// bus name whose object path is the default one.
pub open spec fn split_service_spec(full: Seq<char>) -> WatchEntryView {
    let i = first_index(full, '/');
    if i < full.len() {
        WatchEntryView { bus_name: full.subrange(0, i), object_path: full.subrange(i, full.len() as int) }
    } else {
        WatchEntryView { bus_name: full, object_path: ITEM_DEFAULT_PATH@ }
    }
}

/// Takes a service string apart by searching for its first `/`.
pub fn split_service(full: &str) -> (entry: WatchEntry)
    ensures
        entry@ == split_service_spec(full@),
{
    let v = chars_of(full);
    match find_char(&v, '/') {
        Some(i) => WatchEntry {
            bus_name: string_of_range(&v, 0, i),
            object_path: string_of_range(&v, i, v.len()),
        },
        None => WatchEntry { bus_name: full.to_owned(), object_path: ITEM_DEFAULT_PATH.to_owned() },
    }
}

/// The bus name in a service string.
pub fn bus_name_of(service: &str) -> (name: String)
    ensures
        name@ == split_service_spec(service@).bus_name,
{
    split_service(service).bus_name
}

/// The service string of an entry names that entry again, provided its bus
/// name holds no `/` and its object path begins with one. This is what lets
/// a host read the watcher's signals.
pub proof fn law_service_string_round_trip(e: WatchEntryView)
    requires
        first_index(e.bus_name, '/') == e.bus_name.len(),
        starts_with_char(e.object_path, '/'),
    ensures
        split_service_spec(service_string(e)) == e,
{
    let full = service_string(e);
    let n = e.bus_name.len() as int;
    lemma_first_index(e.bus_name, '/');
    assert forall|j: int| 0 <= j < n implies full[j] != '/' by {
        assert(full[j] == e.bus_name[j]);
    }
    assert(full[n] == e.object_path[0]);
    lemma_first_index_is(full, '/', n);
    assert(full.subrange(0, n) =~= e.bus_name);
    assert(full.subrange(n, full.len() as int) =~= e.object_path);
}

/// A host can follow an item through its life by the watcher's signals
/// alone. When an item that is not yet registered registers under a bus
/// name without `/`, the service string of `StatusNotifierItemRegistered`
/// splits into that bus name and the item's object path; when the bus name
/// then loses its owner, `StatusNotifierItemUnregistered` carries the same
/// service string, so the host finds the same bus name in it.
pub proof fn law_host_reads_watcher_signals(
    w: WatcherView,
    service: Seq<char>,
    sender: Seq<char>,
)
    requires
        unique_names(w.items),
        !has_name(w.items, resolve(service, sender, ITEM_DEFAULT_PATH@).bus_name),
        first_index(resolve(service, sender, ITEM_DEFAULT_PATH@).bus_name, '/') == resolve(
            service,
            sender,
            ITEM_DEFAULT_PATH@,
        ).bus_name.len(),
    ensures
        ({
            let e = resolve(service, sender, ITEM_DEFAULT_PATH@);
            let registered = register_item(w, service, sender);
            let vanished = name_vanished(registered.0, e.bus_name);
            &&& registered.1 == Some(SignalView::ItemRegistered(service_string(e)))
            &&& vanished.1 == Some(SignalView::ItemUnregistered(service_string(e)))
            &&& split_service_spec(service_string(e)) == e
            &&& !starts_with_char(service, '/') ==> e.bus_name == service && e.object_path
                == ITEM_DEFAULT_PATH@
            &&& vanished.0.items == w.items
        }),
{
    let e = resolve(service, sender, ITEM_DEFAULT_PATH@);
    reveal_strlit("/StatusNotifierItem");
    assert(starts_with_char(e.object_path, '/'));
    law_service_string_round_trip(e);
    let registered = register_item(w, service, sender);
    lemma_inserted_unique(w.items, e);
    lemma_position(w.items, e.bus_name);
    lemma_position(registered.0.items, e.bus_name);
    let p = position(registered.0.items, e.bus_name);
    assert(registered.0.items == w.items.push(e));
    if p < w.items.len() {
        assert(registered.0.items[p] == w.items[p]);
    }
    assert(p == w.items.len());
    assert(registered.0.items.remove(p) =~= w.items);
}

/// A display-ready tray item.
#[derive(Debug, PartialEq, Eq)]
pub struct TrayItem {
    pub bus_name: String,
    pub object_path: String,
    pub title: String,
    pub icon_name: String,
    pub menu_path: String,
}

/// A `TrayItem` over character sequences.
pub struct TrayItemView {
    pub bus_name: Seq<char>,
    pub object_path: Seq<char>,
    pub title: Seq<char>,
    pub icon_name: Seq<char>,
    pub menu_path: Seq<char>,
}

impl View for TrayItem {
    type V = TrayItemView;

    open spec fn view(&self) -> TrayItemView {
        TrayItemView {
            bus_name: self.bus_name@,
            object_path: self.object_path@,
            title: self.title@,
            icon_name: self.icon_name@,
            menu_path: self.menu_path@,
        }
    }
}

impl DeepView for TrayItem {
    type V = TrayItemView;

    open spec fn deep_view(&self) -> TrayItemView {
        self@
    }
}

impl Clone for TrayItem {
    fn clone(&self) -> (r: Self)
        ensures
            r == *self,
    {
        TrayItem {
            bus_name: self.bus_name.clone(),
            object_path: self.object_path.clone(),
            title: self.title.clone(),
            icon_name: self.icon_name.clone(),
            menu_path: self.menu_path.clone(),
        }
    }
}

/// The icon guessed for a bus name that was brought to lower case: the
/// first of the known applications whose name stands in it, else a generic
/// executable.
pub open spec fn guessed_icon(lower: Seq<char>) -> Seq<char> {
    if has_substring(lower, "discord"@) {
        "discord"@
    } else if has_substring(lower, "spotify"@) {
        "spotify"@
    } else if has_substring(lower, "telegram"@) {
        "telegram"@
    } else if has_substring(lower, "steam"@) {
        "steam"@
    } else if has_substring(lower, "network"@) || has_substring(lower, "nm-applet"@) {
        "network-wireless"@
    } else if has_substring(lower, "bluetooth"@) || has_substring(lower, "blueman"@) {
        "bluetooth"@
    } else if has_substring(lower, "audio"@) || has_substring(lower, "volume"@) {
        "audio-volume-high"@
    } else {
        "application-x-executable"@
    }
}

/// Guesses an icon name from a bus name that is already in lower case.
pub fn icon_for_lowercased(lower: &str) -> (icon: String)
    ensures
        icon@ == guessed_icon(lower@),
{
    if contains(lower, "discord") {
        "discord".to_owned()
    } else if contains(lower, "spotify") {
        "spotify".to_owned()
    } else if contains(lower, "telegram") {
        "telegram".to_owned()
    } else if contains(lower, "steam") {
        "steam".to_owned()
    } else if contains(lower, "network") || contains(lower, "nm-applet") {
        "network-wireless".to_owned()
    } else if contains(lower, "bluetooth") || contains(lower, "blueman") {
        "bluetooth".to_owned()
    } else if contains(lower, "audio") || contains(lower, "volume") {
        "audio-volume-high".to_owned()
    } else {
        "application-x-executable".to_owned()
    }
}

/// Guesses an icon name for an item that does not tell its own, from the
/// lower-case form of its bus name.
pub fn guess_icon_from_service(service: &str) -> (icon: String)
    ensures
        icon@ == guessed_icon(lowercase_of(service@)),
{
    let lower = to_lowercase(service);
    icon_for_lowercased(lower.as_str())
}

/// The item shown for a participant of which the properties `Title`,
/// `IconName` and `Menu` were asked; `None` stands for a property that could
/// not be read. A missing title is the bus name, a missing or empty icon
/// name is guessed from the bus name, a missing menu is `/MenuBar`.
pub open spec fn tray_item_spec(
    bus_name: Seq<char>,
    object_path: Seq<char>,
    title: Option<Seq<char>>,
    icon_name: Option<Seq<char>>,
    menu_path: Option<Seq<char>>,
) -> TrayItemView {
    TrayItemView {
        bus_name,
        object_path,
        title: match title {
            Some(t) => t,
            None => bus_name,
        },
        icon_name: match icon_name {
            Some(i) => if i.len() > 0 {
                i
            } else {
                guessed_icon(lowercase_of(bus_name))
            },
            None => guessed_icon(lowercase_of(bus_name)),
        },
        menu_path: match menu_path {
            Some(m) => m,
            None => DEFAULT_MENU_PATH@,
        },
    }
}

/// Builds the tray item of a participant from what its properties gave.
pub fn build_tray_item(
    bus_name: &str,
    object_path: &str,
    title: Option<String>,
    icon_name: Option<String>,
    menu_path: Option<String>,
) -> (item: TrayItem)
    ensures
        item@ == tray_item_spec(
            bus_name@,
            object_path@,
            title.deep_view(),
            icon_name.deep_view(),
            menu_path.deep_view(),
        ),
{
    let title = match title {
        Some(t) => t,
        None => bus_name.to_owned(),
    };
    let icon_name = match icon_name {
        Some(i) => if i.as_str().is_empty() {
            guess_icon_from_service(bus_name)
        } else {
            i
        },
        None => guess_icon_from_service(bus_name),
    };
    let menu_path = match menu_path {
        Some(m) => m,
        None => DEFAULT_MENU_PATH.to_owned(),
    };
    TrayItem {
        bus_name: bus_name.to_owned(),
        object_path: object_path.to_owned(),
        title,
        icon_name,
        menu_path,
    }
}

/// A message for the render loop.
#[derive(Debug, PartialEq, Eq)]
pub enum TrayUpdate {
    /// A new item to show.
    Add(TrayItem),
    /// The item of this bus name is gone.
    Remove(String),
    /// The icon of the item of this bus name has changed.
    UpdateIcon(String),
    /// The status or title of the item of this bus name has changed.
    UpdateStatus(String),
}

/// A `TrayUpdate` over character sequences.
pub enum TrayUpdateView {
    Add(TrayItemView),
    Remove(Seq<char>),
    UpdateIcon(Seq<char>),
    UpdateStatus(Seq<char>),
}

impl View for TrayUpdate {
    type V = TrayUpdateView;

    open spec fn view(&self) -> TrayUpdateView {
        match self {
            TrayUpdate::Add(item) => TrayUpdateView::Add(item@),
            TrayUpdate::Remove(name) => TrayUpdateView::Remove(name@),
            TrayUpdate::UpdateIcon(name) => TrayUpdateView::UpdateIcon(name@),
            TrayUpdate::UpdateStatus(name) => TrayUpdateView::UpdateStatus(name@),
        }
    }
}

impl DeepView for TrayUpdate {
    type V = TrayUpdateView;

    open spec fn deep_view(&self) -> TrayUpdateView {
        self@
    }
}

/// The update that a change signal of an item stands for. The three icon
/// signals flag the icon, `NewTitle` and `NewStatus` flag the status; the
/// update is keyed by the sender of the signal. A signal of another
/// interface or with another member is not for the tray.
pub open spec fn update_for_signal_spec(
    interface: Seq<char>,
    member: Seq<char>,
    sender: Seq<char>,
) -> Option<TrayUpdateView> {
    if !is_item_interface(interface) {
        None
    } else if member == "NewIcon"@ || member == "NewOverlayIcon"@ || member
        == "NewAttentionIcon"@ {
        Some(TrayUpdateView::UpdateIcon(sender))
    } else if member == "NewTitle"@ || member == "NewStatus"@ {
        Some(TrayUpdateView::UpdateStatus(sender))
    } else {
        None
    }
}

/// Classifies a signal that an item sent. Nothing is fetched here: the
/// update only says what changed and for whom.
pub fn update_for_signal(interface: &str, member: &str, sender: &str) -> (update: Option<
    TrayUpdate,
>)
    ensures
        update.deep_view() == update_for_signal_spec(interface@, member@, sender@),
{
    if !item_interface(interface) {
        None
    } else if member.eq("NewIcon") || member.eq("NewOverlayIcon") || member.eq(
        "NewAttentionIcon",
    ) {
        Some(TrayUpdate::UpdateIcon(sender.to_owned()))
    } else if member.eq("NewTitle") || member.eq("NewStatus") {
        Some(TrayUpdate::UpdateStatus(sender.to_owned()))
    } else {
        None
    }
}

/// The members of the change signals that a host subscribes to, on each of
/// the two item interfaces.
pub open spec fn change_signals_spec() -> Seq<Seq<char>> {
    seq!["NewIcon"@, "NewOverlayIcon"@, "NewAttentionIcon"@, "NewTitle"@, "NewStatus"@]
}

/// Names the change signals to subscribe to.
pub fn change_signals() -> (members: Vec<&'static str>)
    ensures
        members.deep_view() == change_signals_spec(),
{
    let mut members: Vec<&'static str> = Vec::new();
    members.push("NewIcon");
    members.push("NewOverlayIcon");
    members.push("NewAttentionIcon");
    members.push("NewTitle");
    members.push("NewStatus");
    assert(members.deep_view() =~= change_signals_spec());
    members
}

/// A signal of an item interface becomes an update exactly when its member
/// is one of the change signals.
pub proof fn law_every_change_signal_is_an_update(
    interface: Seq<char>,
    member: Seq<char>,
    sender: Seq<char>,
)
    requires
        is_item_interface(interface),
    ensures
        update_for_signal_spec(interface, member, sender) is Some <==> change_signals_spec().contains(
            member,
        ),
{
    let all = change_signals_spec();
    if update_for_signal_spec(interface, member, sender) is Some {
        if member == "NewIcon"@ {
            assert(all[0] == member);
        } else if member == "NewOverlayIcon"@ {
            assert(all[1] == member);
        } else if member == "NewAttentionIcon"@ {
            assert(all[2] == member);
        } else if member == "NewTitle"@ {
            assert(all[3] == member);
        } else {
            assert(all[4] == member);
        }
    }
}

/// The style class that shows the status of an item: `passive` and
/// `needs-attention` for the statuses of these names, `active` for any
/// other.
pub fn status_class(status: &str) -> (class: &'static str)
    ensures
        class@ == if status@ == "Passive"@ {
            "passive"@
        } else if status@ == "NeedsAttention"@ {
            "needs-attention"@
        } else {
            "active"@
        },
{
    if status.eq("Passive") {
        "passive"
    } else if status.eq("NeedsAttention") {
        "needs-attention"
    } else {
        "active"
    }
}

/// The properties that the render loop reads again when an update comes
/// in: the icon name for a changed icon, status and title for a changed
/// status, nothing for an item that is added or removed.
pub open spec fn refreshed_properties_spec(update: TrayUpdateView) -> Seq<Seq<char>> {
    match update {
        TrayUpdateView::UpdateIcon(_) => seq!["IconName"@],
        TrayUpdateView::UpdateStatus(_) => seq!["Status"@, "Title"@],
        _ => Seq::<Seq<char>>::empty(),
    }
}

/// Names the properties to read again for an update. Only these are
/// fetched; the item is not built anew.
pub fn refreshed_properties(update: &TrayUpdate) -> (names: Vec<&'static str>)
    ensures
        names.deep_view() == refreshed_properties_spec(update@),
{
    let mut names: Vec<&'static str> = Vec::new();
    match update {
        TrayUpdate::UpdateIcon(_) => {
            names.push("IconName");
            assert(names.deep_view() =~= seq!["IconName"@]);
        },
        TrayUpdate::UpdateStatus(_) => {
            names.push("Status");
            names.push("Title");
            assert(names.deep_view() =~= seq!["Status"@, "Title"@]);
        },
        _ => {
            assert(names.deep_view() =~= Seq::<Seq<char>>::empty());
        },
    }
    names
}

/// The entries that a list of service strings names, one for each string.
pub fn listed_entries(services: &Vec<String>) -> (entries: Vec<WatchEntry>)
    ensures
        entries.deep_view() == services.deep_view().map_values(
            |s: Seq<char>| split_service_spec(s),
        ),
{
    let mut entries: Vec<WatchEntry> = Vec::new();
    let mut i: usize = 0;
    while i < services.len()
        invariant
            i <= services.len(),
            entries@.len() == i,
            forall|k: int| 0 <= k < i ==> entries@[k]@ == split_service_spec(services@[k]@),
        decreases services.len() - i,
    {
        entries.push(split_service(services[i].as_str()));
        i += 1;
    }
    assert(entries.deep_view() =~= services.deep_view().map_values(
        |s: Seq<char>| split_service_spec(s),
    ));
    entries
}

/// The call by which the host of bus name `host_name` registers with the
/// watcher.
pub open spec fn register_call_spec(host_name: Seq<char>) -> MethodCallView {
    MethodCallView {
        destination: WATCHER_BUS@,
        path: WATCHER_PATH@,
        interface: WATCHER_IFACE@,
        member: "RegisterStatusNotifierHost"@,
        signature: "s"@,
        arguments: seq![ValueView::Str(host_name)],
        timeout_ms: CALL_TIMEOUT_MS,
        wait_for_reply: true,
    }
}

/// The call that reads the watcher's list of registered items.
pub open spec fn registered_items_call_spec() -> MethodCallView {
    MethodCallView {
        destination: WATCHER_BUS@,
        path: WATCHER_PATH@,
        interface: PROPERTIES_INTERFACE@,
        member: "Get"@,
        signature: "ss"@,
        arguments: seq![
            ValueView::Str(WATCHER_IFACE@),
            ValueView::Str("RegisteredStatusNotifierItems"@),
        ],
        timeout_ms: PROPERTY_TIMEOUT_MS,
        wait_for_reply: true,
    }
}

/// A host: its own bus name, and the cache of the items it shows.
pub struct StatusNotifierHost {
    pub bus_name: String,
    pub cache: TrayCache,
}

/// The state of a host.
pub struct HostView {
    pub bus_name: Seq<char>,
    pub items: Seq<TrayItemView>,
}

impl View for StatusNotifierHost {
    type V = HostView;

    open spec fn view(&self) -> HostView {
        HostView { bus_name: self.bus_name@, items: self.cache@ }
    }
}

impl StatusNotifierHost {
    /// The host of process `pid`, which shows nothing yet.
    pub fn new(pid: u32) -> (host: Self)
        ensures
            host@.bus_name == host_bus_name_spec(pid as nat),
            host@.items == Seq::<TrayItemView>::empty(),
    {
        StatusNotifierHost { bus_name: host_bus_name(pid), cache: TrayCache::new() }
    }

    /// The call by which the host registers with the watcher:
    /// `RegisterStatusNotifierHost` with the host's own bus name.
    pub fn register(&self) -> (call: MethodCall)
        ensures
            call@ == register_call_spec(self@.bus_name),
    {
        let mut arguments: Vec<Value> = Vec::new();
        arguments.push(Value::Str(self.bus_name.clone()));
        let call = MethodCall {
            destination: WATCHER_BUS.to_owned(),
            path: WATCHER_PATH.to_owned(),
            interface: WATCHER_IFACE.to_owned(),
            member: "RegisterStatusNotifierHost".to_owned(),
            signature: "s".to_owned(),
            arguments,
            timeout_ms: CALL_TIMEOUT_MS,
            wait_for_reply: true,
        };
        assert(call@.arguments =~= seq![ValueView::Str(self.bus_name@)]);
        call
    }

    /// The call by which the host enumerates the items that are already
    /// registered: a read of the watcher's `RegisteredStatusNotifierItems`.
    pub fn get_registered_items(&self) -> (call: MethodCall)
        ensures
            call@ == registered_items_call_spec(),
    {
        let mut arguments: Vec<Value> = Vec::new();
        arguments.push(Value::Str(WATCHER_IFACE.to_owned()));
        arguments.push(Value::Str("RegisteredStatusNotifierItems".to_owned()));
        let call = MethodCall {
            destination: WATCHER_BUS.to_owned(),
            path: WATCHER_PATH.to_owned(),
            interface: PROPERTIES_INTERFACE.to_owned(),
            member: "Get".to_owned(),
            signature: "ss".to_owned(),
            arguments,
            timeout_ms: PROPERTY_TIMEOUT_MS,
            wait_for_reply: true,
        };
        assert(call@.arguments =~= registered_items_call_spec().arguments);
        call
    }
}

} // verus!
