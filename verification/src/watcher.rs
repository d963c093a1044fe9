//! The StatusNotifierWatcher: the broker that tray items and hosts register
//! with. It keeps one registry of items and one of hosts, each keyed by bus
//! name, and says for every request which lifecycle signal has to go out.
//!
//! Nothing here touches the bus. A request comes in as plain strings, the
//! registries change, and the signal to emit comes back as a value.

use vstd::prelude::*;
use vstd::string::*;
use crate::registry::{
    count_name, has_name, inserted, lemma_count_name, lemma_inserted_unique, lemma_position,
    lemma_removed_keeps_others, lemma_removed_unique, position, removed, service_string,
    unique_names, Registry, WatchEntry, WatchEntryView,
};
use crate::text::{begins_with, starts_with_char};

verus! {

/// Well-known bus name that the watcher owns.
pub const WATCHER_BUS: &'static str = "org.kde.StatusNotifierWatcher";

/// Object path at which the watcher is served.
pub const WATCHER_PATH: &'static str = "/StatusNotifierWatcher";

/// Interface that carries the watcher's methods, properties and signals.
pub const WATCHER_IFACE: &'static str = "org.kde.StatusNotifierWatcher";

/// Object path assumed for an item that registers by bus name alone.
pub const ITEM_DEFAULT_PATH: &'static str = "/StatusNotifierItem";

/// Object path assumed for a host that registers by bus name alone.
pub const HOST_DEFAULT_PATH: &'static str = "/StatusNotifierHost";

/// Value of the `ProtocolVersion` property.
pub const PROTOCOL_VERSION: i32 = 0;

/// How the watcher asks the bus for its well-known name.
#[derive(Debug, Clone, Copy, PartialEq, Eq)]
pub struct NameRequest {
    /// A later requester may take the name over.
    pub allow_replacement: bool,
    /// The name is taken over from an owner that allows it.
    pub replace_existing: bool,
    /// The request fails at once rather than wait for the name.
    pub do_not_queue: bool,
}

/// The request with which a watcher claims `WATCHER_BUS` on startup. It
/// takes the name from an earlier watcher and lets a later one take it, so
/// that of several bars the one started last serves the tray.
pub fn name_request() -> (r: NameRequest)
    ensures
        r.allow_replacement,
        r.replace_existing,
        r.do_not_queue,
{
    NameRequest { allow_replacement: true, replace_existing: true, do_not_queue: true }
}

/// Who a registration is for. A `service` that begins with `/` is an object
/// path of the caller, whose bus name is the sender of the request; any
/// other `service` is a bus name, published at `default_path`.
pub open spec fn resolve(service: Seq<char>, sender: Seq<char>, default_path: Seq<char>)
    -> WatchEntryView {
    if starts_with_char(service, '/') {
        WatchEntryView { bus_name: sender, object_path: service }
    } else {
        WatchEntryView { bus_name: service, object_path: default_path }
    }
}

/// Resolves the argument of a registration call. No `service` is rejected:
/// whatever does not begin with `/` is taken for a bus name as it stands.
pub fn resolve_service(service: &str, sender: &str, default_path: &str) -> (entry: WatchEntry)
    ensures
        entry@ == resolve(service@, sender@, default_path@),
        starts_with_char(service@, '/') ==> entry.bus_name@ == sender@ && entry.object_path@
            == service@,
        !starts_with_char(service@, '/') ==> entry.bus_name@ == service@ && entry.object_path@
            == default_path@,
{
    if begins_with(service, '/') {
        WatchEntry { bus_name: sender.to_owned(), object_path: service.to_owned() }
    } else {
        WatchEntry { bus_name: service.to_owned(), object_path: default_path.to_owned() }
    }
}

/// A lifecycle signal of the watcher, with its argument.
#[derive(Debug, PartialEq, Eq)]
pub enum Signal {
    /// `StatusNotifierItemRegistered`, with the item's service string.
    ItemRegistered(String),
    /// `StatusNotifierItemUnregistered`, with the item's service string.
    ItemUnregistered(String),
    /// `StatusNotifierHostRegistered`, which has no argument.
    HostRegistered,
}

/// A `Signal` over character sequences.
pub enum SignalView {
    ItemRegistered(Seq<char>),
    ItemUnregistered(Seq<char>),
    HostRegistered,
}

impl View for Signal {
    type V = SignalView;

    open spec fn view(&self) -> SignalView {
        match self {
            Signal::ItemRegistered(s) => SignalView::ItemRegistered(s@),
            Signal::ItemUnregistered(s) => SignalView::ItemUnregistered(s@),
            Signal::HostRegistered => SignalView::HostRegistered,
        }
    }
}

impl DeepView for Signal {
    type V = SignalView;

    open spec fn deep_view(&self) -> SignalView {
        self@
    }
}

/// The member name under which a signal goes out.
pub open spec fn signal_member(s: SignalView) -> Seq<char> {
    match s {
        SignalView::ItemRegistered(_) => "StatusNotifierItemRegistered"@,
        SignalView::ItemUnregistered(_) => "StatusNotifierItemUnregistered"@,
        SignalView::HostRegistered => "StatusNotifierHostRegistered"@,
    }
}

/// The single string argument of a signal, where it has one.
pub open spec fn signal_argument(s: SignalView) -> Option<Seq<char>> {
    match s {
        SignalView::ItemRegistered(a) => Some(a),
        SignalView::ItemUnregistered(a) => Some(a),
        SignalView::HostRegistered => None,
    }
}

impl Signal {
    /// The member name under which the signal goes out.
    pub fn member(&self) -> (r: &'static str)
        ensures
            r@ == signal_member(self@),
    {
        match self {
            Signal::ItemRegistered(_) => "StatusNotifierItemRegistered",
            Signal::ItemUnregistered(_) => "StatusNotifierItemUnregistered",
            Signal::HostRegistered => "StatusNotifierHostRegistered",
        }
    }

    /// The string argument that the signal carries, if any.
    pub fn argument(&self) -> (r: Option<&str>)
        ensures
            match r {
                Some(a) => signal_argument(self@) == Some(a@),
                None => signal_argument(self@) is None,
            },
    {
        match self {
            Signal::ItemRegistered(a) => Some(a.as_str()),
            Signal::ItemUnregistered(a) => Some(a.as_str()),
            Signal::HostRegistered => None,
        }
    }
}

/// The two registries of a watcher.
pub struct StatusNotifierWatcher {
    pub items: Registry,
    pub hosts: Registry,
}

/// The state of a watcher: the item entries and the host entries, each in
/// the order of registration.
pub struct WatcherView {
    pub items: Seq<WatchEntryView>,
    pub hosts: Seq<WatchEntryView>,
}

impl View for StatusNotifierWatcher {
    type V = WatcherView;

    open spec fn view(&self) -> WatcherView {
        WatcherView { items: self.items@, hosts: self.hosts@ }
    }
}

/// A watcher state in which neither registry holds a bus name twice. Every
/// `StatusNotifierWatcher` is in such a state.
pub open spec fn well_formed(w: WatcherView) -> bool {
    unique_names(w.items) && unique_names(w.hosts)
}

/// `RegisterStatusNotifierItem(service)` from `sender`: the state that
/// follows and the signal to emit. A bus name that is already registered
/// changes nothing and emits nothing.
pub open spec fn register_item(w: WatcherView, service: Seq<char>, sender: Seq<char>) -> (
    WatcherView,
    Option<SignalView>,
) {
    let e = resolve(service, sender, ITEM_DEFAULT_PATH@);
    if has_name(w.items, e.bus_name) {
        (w, None)
    } else {
        (
            WatcherView { items: w.items.push(e), hosts: w.hosts },
            Some(SignalView::ItemRegistered(service_string(e))),
        )
    }
}

/// `RegisterStatusNotifierHost(service)` from `sender`: the state that
/// follows and the signal to emit. Only the host that fills the empty
/// registry is announced.
pub open spec fn register_host(w: WatcherView, service: Seq<char>, sender: Seq<char>) -> (
    WatcherView,
    Option<SignalView>,
) {
    let e = resolve(service, sender, HOST_DEFAULT_PATH@);
    if has_name(w.hosts, e.bus_name) {
        (w, None)
    } else {
        (
            WatcherView { items: w.items, hosts: w.hosts.push(e) },
            if w.hosts.len() == 0 {
                Some(SignalView::HostRegistered)
            } else {
                None
            },
        )
    }
}

/// The bus name `name` lost its owner: the state that follows and the signal
/// to emit. The name leaves both registries; only an item is announced as
/// unregistered, a host never.
pub open spec fn name_vanished(w: WatcherView, name: Seq<char>) -> (
    WatcherView,
    Option<SignalView>,
) {
    (
        WatcherView { items: removed(w.items, name), hosts: removed(w.hosts, name) },
        if has_name(w.items, name) {
            Some(SignalView::ItemUnregistered(service_string(w.items[position(w.items, name)])))
        } else {
            None
        },
    )
}

/// A `NameOwnerChanged` broadcast for `name`: a name that has a new owner
/// changes nothing, one whose new owner is empty has vanished.
pub open spec fn name_owner_changed(w: WatcherView, name: Seq<char>, new_owner: Seq<char>) -> (
    WatcherView,
    Option<SignalView>,
) {
    if new_owner.len() == 0 {
        name_vanished(w, name)
    } else {
        (w, None)
    }
}

impl StatusNotifierWatcher {
    /// A watcher with nothing registered.
    pub fn new() -> (w: Self)
        ensures
            w@.items == Seq::<WatchEntryView>::empty(),
            w@.hosts == Seq::<WatchEntryView>::empty(),
    {
        StatusNotifierWatcher { items: Registry::new(), hosts: Registry::new() }
    }

    /// Handles `RegisterStatusNotifierItem(service)` called by `sender`.
    /// Returns the signal to emit, if any.
    pub fn register_item(&mut self, service: &str, sender: &str) -> (signal: Option<Signal>)
        ensures
            final(self)@ == register_item(old(self)@, service@, sender@).0,
            signal.deep_view() == register_item(old(self)@, service@, sender@).1,
    {
        let entry = resolve_service(service, sender, ITEM_DEFAULT_PATH);
        let payload = entry.service_string();
        if self.items.insert(entry) {
            Some(Signal::ItemRegistered(payload))
        } else {
            None
        }
    }

    /// Handles `RegisterStatusNotifierHost(service)` called by `sender`.
    /// Returns the signal to emit, if any.
    pub fn register_host(&mut self, service: &str, sender: &str) -> (signal: Option<Signal>)
        ensures
            final(self)@ == register_host(old(self)@, service@, sender@).0,
            signal.deep_view() == register_host(old(self)@, service@, sender@).1,
    {
        let entry = resolve_service(service, sender, HOST_DEFAULT_PATH);
        let was_empty = self.hosts.is_empty();
        if self.hosts.insert(entry) && was_empty {
            Some(Signal::HostRegistered)
        } else {
            None
        }
    }

    /// The property `RegisteredStatusNotifierItems`: the service string of
    /// every registered item.
    pub fn registered_items(&self) -> (list: Vec<String>)
        ensures
            list.deep_view() == self@.items.map_values(|e: WatchEntryView| service_string(e)),
    {
        let list = self.items.service_strings();
        assert(list.deep_view() =~= self@.items.map_values(
            |e: WatchEntryView| service_string(e),
        ));
        list
    }

    /// The property `IsStatusNotifierHostRegistered`.
    pub fn is_host_registered(&self) -> (r: bool)
        ensures
            r == (self@.hosts.len() > 0),
    {
        !self.hosts.is_empty()
    }

    /// The property `ProtocolVersion`.
    pub fn protocol_version(&self) -> (v: i32)
        ensures
            v == 0,
    {
        PROTOCOL_VERSION
    }
}

/// Reclaims what was registered under a bus name that lost its owner.
/// Returns the signal to emit, if any.
pub fn handle_name_vanished(data: &mut StatusNotifierWatcher, name: &str) -> (signal: Option<Signal>)
    ensures
        final(data)@ == name_vanished(old(data)@, name@).0,
        signal.deep_view() == name_vanished(old(data)@, name@).1,
{
    let signal = match data.items.remove(name) {
        Some(info) => Some(Signal::ItemUnregistered(info.service_string())),
        None => None,
    };
    let _ = data.hosts.remove(name);
    signal
}

/// Handles one `NameOwnerChanged` broadcast of the bus daemon.
/// Returns the signal to emit, if any.
pub fn handle_name_owner_changed(data: &mut StatusNotifierWatcher, name: &str, new_owner: &str) -> (signal:
    Option<Signal>)
    ensures
        final(data)@ == name_owner_changed(old(data)@, name@, new_owner@).0,
        signal.deep_view() == name_owner_changed(old(data)@, name@, new_owner@).1,
{
    if new_owner.is_empty() {
        handle_name_vanished(data, name)
    } else {
        None
    }
}

/// Whatever request comes in, no registry ever holds a bus name twice.
pub proof fn law_registries_stay_unique(
    w: WatcherView,
    service: Seq<char>,
    sender: Seq<char>,
    name: Seq<char>,
    new_owner: Seq<char>,
)
    requires
        well_formed(w),
    ensures
        well_formed(register_item(w, service, sender).0),
        well_formed(register_host(w, service, sender).0),
        well_formed(name_vanished(w, name).0),
        well_formed(name_owner_changed(w, name, new_owner).0),
{
    lemma_inserted_unique(w.items, resolve(service, sender, ITEM_DEFAULT_PATH@));
    lemma_inserted_unique(w.hosts, resolve(service, sender, HOST_DEFAULT_PATH@));
    lemma_removed_unique(w.items, name);
    lemma_removed_unique(w.hosts, name);
}

/// Registering a bus name that is already registered leaves the registry
/// as it is and emits no signal; after a registration the registry holds
/// that bus name exactly once. So two registrations of one bus name in a
/// row emit `StatusNotifierItemRegistered` at most once.
pub proof fn law_item_registration_is_idempotent(
    w: WatcherView,
    service: Seq<char>,
    sender: Seq<char>,
    service_again: Seq<char>,
    sender_again: Seq<char>,
)
    requires
        well_formed(w),
        resolve(service, sender, ITEM_DEFAULT_PATH@).bus_name == resolve(
            service_again,
            sender_again,
            ITEM_DEFAULT_PATH@,
        ).bus_name,
    ensures
        ({
            let name = resolve(service, sender, ITEM_DEFAULT_PATH@).bus_name;
            let first = register_item(w, service, sender);
            let second = register_item(first.0, service_again, sender_again);
            &&& well_formed(first.0)
            &&& count_name(first.0.items, name) == 1
            &&& second.0 == first.0
            &&& second.1 is None
            &&& count_name(second.0.items, name) == 1
        }),
{
    let e = resolve(service, sender, ITEM_DEFAULT_PATH@);
    lemma_inserted_unique(w.items, e);
    let first = register_item(w, service, sender);
    assert(first.0.items == inserted(w.items, e));
    lemma_count_name(first.0.items, e.bus_name);
}

/// A host that registers while the host registry is not empty is never
/// announced; a host that registers into the empty registry always is.
pub proof fn law_host_announced_on_first_only(
    w: WatcherView,
    service: Seq<char>,
    sender: Seq<char>,
)
    ensures
        w.hosts.len() > 0 ==> register_host(w, service, sender).1 is None,
        w.hosts.len() == 0 ==> register_host(w, service, sender).1 == Some(
            SignalView::HostRegistered,
        ),
        register_host(w, service, sender).0.hosts.len() > 0,
        register_host(w, service, sender).0.items == w.items,
{
    let e = resolve(service, sender, HOST_DEFAULT_PATH@);
    lemma_position(w.hosts, e.bus_name);
}

/// When a bus name that the item registry holds loses its owner, exactly
/// that entry leaves the registry, every other entry stays as it was, and
/// one `StatusNotifierItemUnregistered` goes out whose argument is the
/// entry's bus name followed by its object path.
pub proof fn law_vanished_item_is_unregistered(w: WatcherView, name: Seq<char>)
    requires
        well_formed(w),
        has_name(w.items, name),
    ensures
        ({
            let gone = w.items[position(w.items, name)];
            let after = name_vanished(w, name);
            &&& gone.bus_name == name
            &&& after.1 == Some(SignalView::ItemUnregistered(name + gone.object_path))
            &&& after.0.items.len() == w.items.len() - 1
            &&& !has_name(after.0.items, name)
            &&& well_formed(after.0)
            &&& forall|other: Seq<char>|
                other != name ==> #[trigger] has_name(after.0.items, other) == has_name(
                    w.items,
                    other,
                )
            &&& forall|other: Seq<char>|
                other != name && has_name(w.items, other) ==> after.0.items[#[trigger] position(
                    after.0.items,
                    other,
                )] == w.items[position(w.items, other)]
        }),
{
    lemma_position(w.items, name);
    lemma_removed_unique(w.items, name);
    lemma_removed_unique(w.hosts, name);
    let after = name_vanished(w, name);
    assert forall|other: Seq<char>| other != name implies #[trigger] has_name(
        after.0.items,
        other,
    ) == has_name(w.items, other) by {
        lemma_removed_keeps_others(w.items, name, other);
    }
    assert forall|other: Seq<char>| other != name && has_name(w.items, other) implies after.0.items[
    #[trigger] position(after.0.items, other)] == w.items[position(w.items, other)] by {
        lemma_removed_keeps_others(w.items, name, other);
    }
}

/// A name that no registry holds can vanish without any effect.
pub proof fn law_unknown_name_vanishes_silently(w: WatcherView, name: Seq<char>)
    requires
        !has_name(w.items, name),
        !has_name(w.hosts, name),
    ensures
        name_vanished(w, name).0 == w,
        name_vanished(w, name).1 is None,
{
}

/// A vanished host leaves the host registry without any signal.
pub proof fn law_vanished_host_is_silent(w: WatcherView, name: Seq<char>)
    requires
        well_formed(w),
        !has_name(w.items, name),
    ensures
        name_vanished(w, name).1 is None,
        name_vanished(w, name).0.items == w.items,
        !has_name(name_vanished(w, name).0.hosts, name),
{
    lemma_removed_unique(w.hosts, name);
}

} // verus!
