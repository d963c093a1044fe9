//! A registry of bus participants: the entries of one kind, tray items or
//! hosts, at most one for each bus name.
//!
//! The entries are kept in the order of their registration. That order
//! carries no meaning; it only makes every answer of the registry definite.

use vstd::prelude::*;
use vstd::string::*;
use crate::text::{first_index, joined, lemma_first_index, lemma_first_index_is};

verus! {

/// One registered participant: the bus name that owns it and the object path
/// it published.
#[derive(Debug, PartialEq, Eq)]
pub struct WatchEntry {
    pub bus_name: String,
    pub object_path: String,
}

/// A `WatchEntry` as two character sequences.
pub struct WatchEntryView {
    pub bus_name: Seq<char>,
    pub object_path: Seq<char>,
}

impl View for WatchEntry {
    type V = WatchEntryView;

    open spec fn view(&self) -> WatchEntryView {
        WatchEntryView { bus_name: self.bus_name@, object_path: self.object_path@ }
    }
}

impl DeepView for WatchEntry {
    type V = WatchEntryView;

    open spec fn deep_view(&self) -> WatchEntryView {
        self@
    }
}

impl Clone for WatchEntry {
    fn clone(&self) -> (r: Self)
        ensures
            r == *self,
    {
        WatchEntry { bus_name: self.bus_name.clone(), object_path: self.object_path.clone() }
    }
}

/// The string that stands for an entry on the wire: bus name and object path
/// joined without a separator.
pub open spec fn service_string(e: WatchEntryView) -> Seq<char> {
    e.bus_name + e.object_path
}

impl WatchEntry {
    /// Bus name and object path joined without a separator, as the
    /// registration signals and the item list carry them.
    pub fn service_string(&self) -> (r: String)
        ensures
            r@ == service_string(self@),
    {
        joined(self.bus_name.as_str(), self.object_path.as_str())
    }
}

/// The bus names of the entries, in their order.
pub open spec fn names(entries: Seq<WatchEntryView>) -> Seq<Seq<char>> {
    entries.map_values(|e: WatchEntryView| e.bus_name)
}

/// Index of the entry registered under `name`, or `entries.len()` where
/// there is none.
pub open spec fn position(entries: Seq<WatchEntryView>, name: Seq<char>) -> int {
    first_index(names(entries), name)
}

/// Whether an entry is registered under `name`.
pub open spec fn has_name(entries: Seq<WatchEntryView>, name: Seq<char>) -> bool {
    position(entries, name) < entries.len()
}

/// No bus name is registered twice.
pub open spec fn unique_names(entries: Seq<WatchEntryView>) -> bool {
    forall|i: int, j: int|
        0 <= i < j < entries.len() ==> #[trigger] entries[i].bus_name
            != #[trigger] entries[j].bus_name
}

/// The entries after a registration of `e`: unchanged where its bus name is
/// already there, else with `e` at the end.
pub open spec fn inserted(entries: Seq<WatchEntryView>, e: WatchEntryView) -> Seq<
    WatchEntryView,
> {
    if has_name(entries, e.bus_name) {
        entries
    } else {
        entries.push(e)
    }
}

/// The entries without the one registered under `name`.
pub open spec fn removed(entries: Seq<WatchEntryView>, name: Seq<char>) -> Seq<WatchEntryView> {
    if has_name(entries, name) {
        entries.remove(position(entries, name))
    } else {
        entries
    }
}

/// The number of entries registered under `name`.
pub open spec fn count_name(entries: Seq<WatchEntryView>, name: Seq<char>) -> nat
    decreases entries.len(),
{
    if entries.len() == 0 {
        0
    } else {
        let rest = count_name(entries.drop_last(), name);
        if entries.last().bus_name == name {
            rest + 1
        } else {
            rest
        }
    }
}

/// What `position` is: within bounds, past every entry with another name,
/// and at an entry with that name where it is inside.
pub proof fn lemma_position(entries: Seq<WatchEntryView>, name: Seq<char>)
    ensures
        0 <= position(entries, name) <= entries.len(),
        forall|j: int| 0 <= j < position(entries, name) ==> entries[j].bus_name != name,
        has_name(entries, name) ==> entries[position(entries, name)].bus_name == name,
        has_name(entries, name) <==> exists|j: int|
            0 <= j < entries.len() && entries[j].bus_name == name,
{
    let ns = names(entries);
    lemma_first_index(ns, name);
    assert forall|j: int| 0 <= j < position(entries, name) implies entries[j].bus_name
        != name by {
        assert(ns[j] == entries[j].bus_name);
    }
    if has_name(entries, name) {
        let p = position(entries, name);
        assert(ns[p] == entries[p].bus_name);
    } else {
        assert forall|j: int| 0 <= j < entries.len() implies entries[j].bus_name != name by {
            assert(ns[j] == entries[j].bus_name);
        }
    }
}

/// Registration keeps bus names unique.
pub proof fn lemma_inserted_unique(entries: Seq<WatchEntryView>, e: WatchEntryView)
    requires
        unique_names(entries),
    ensures
        unique_names(inserted(entries, e)),
        has_name(inserted(entries, e), e.bus_name),
{
    lemma_position(entries, e.bus_name);
    let after = inserted(entries, e);
    if !has_name(entries, e.bus_name) {
        assert(after[entries.len() as int].bus_name == e.bus_name);
    }
    lemma_position(after, e.bus_name);
}

/// Removal keeps bus names unique and leaves nothing under the name.
pub proof fn lemma_removed_unique(entries: Seq<WatchEntryView>, name: Seq<char>)
    requires
        unique_names(entries),
    ensures
        unique_names(removed(entries, name)),
        !has_name(removed(entries, name), name),
{
    lemma_position(entries, name);
    let after = removed(entries, name);
    if has_name(entries, name) {
        let p = position(entries, name);
        assert forall|j: int| 0 <= j < after.len() implies after[j].bus_name != name by {
            if j < p {
                assert(after[j] == entries[j]);
            } else {
                assert(after[j] == entries[j + 1]);
            }
        }
        assert forall|i: int, j: int| 0 <= i < j < after.len() implies after[i].bus_name
            != after[j].bus_name by {
            let oi = if i < p {
                i
            } else {
                i + 1
            };
            let oj = if j < p {
                j
            } else {
                j + 1
            };
            assert(after[i] == entries[oi]);
            assert(after[j] == entries[oj]);
        }
    }
    lemma_position(after, name);
}

/// A registry: the entries of one kind of participant, at most one for each
/// bus name. The entries are kept in the order of their registration.
pub struct Registry {
    entries: Vec<WatchEntry>,
}

impl View for Registry {
    type V = Seq<WatchEntryView>;

    closed spec fn view(&self) -> Seq<WatchEntryView> {
        self.entries@.map_values(|e: WatchEntry| e@)
    }
}

impl Registry {
    #[verifier::type_invariant]
    spec fn names_are_unique(&self) -> bool {
        unique_names(self@)
    }

    /// The empty registry.
    pub fn new() -> (r: Self)
        ensures
            r@ == Seq::<WatchEntryView>::empty(),
    {
        let r = Registry { entries: Vec::new() };
        assert(r@ =~= Seq::<WatchEntryView>::empty());
        r
    }

    /// Every registry holds each bus name at most once: this hands the fact
    /// to a caller that needs it.
    pub fn names_unique(&self)
        ensures
            unique_names(self@),
    {
        proof {
            use_type_invariant(self);
        }
    }

    /// The number of entries.
    pub fn len(&self) -> (n: usize)
        ensures
            n == self@.len(),
    {
        self.entries.len()
    }

    /// Whether nothing is registered.
    pub fn is_empty(&self) -> (r: bool)
        ensures
            r == (self@.len() == 0),
    {
        self.entries.len() == 0
    }

    /// Where the entry of `name` stands, if there is one.
    fn find(&self, name: &str) -> (r: Option<usize>)
        ensures
            match r {
                Some(i) => i < self@.len() && i == position(self@, name@),
                None => !has_name(self@, name@),
            },
    {
        let mut i: usize = 0;
        while i < self.entries.len()
            invariant
                i <= self.entries.len(),
                forall|j: int| 0 <= j < i ==> names(self@)[j] != name@,
            decreases self.entries.len() - i,
        {
            if self.entries[i].bus_name.as_str().eq(name) {
                proof {
                    assert(names(self@)[i as int] == self.entries@[i as int].bus_name@);
                    lemma_first_index_is(names(self@), name@, i as int);
                }
                return Some(i);
            }
            assert(names(self@)[i as int] == self.entries@[i as int].bus_name@);
            i += 1;
        }
        proof {
            lemma_first_index_is(names(self@), name@, i as int);
        }
        None
    }

    /// Whether an entry is registered under `name`.
    pub fn contains_key(&self, name: &str) -> (r: bool)
        ensures
            r == has_name(self@, name@),
    {
        self.find(name).is_some()
    }

    /// The entry registered under `name`, if there is one.
    pub fn get(&self, name: &str) -> (r: Option<&WatchEntry>)
        ensures
            match r {
                Some(e) => has_name(self@, name@) && e@ == self@[position(self@, name@)],
                None => !has_name(self@, name@),
            },
    {
        match self.find(name) {
            Some(i) => Some(&self.entries[i]),
            None => None,
        }
    }

    /// Registers `entry` unless its bus name is already there, and tells
    /// whether it did.
    pub fn insert(&mut self, entry: WatchEntry) -> (fresh: bool)
        ensures
            final(self)@ == inserted(old(self)@, entry@),
            fresh == !has_name(old(self)@, entry@.bus_name),
    {
        proof {
            use_type_invariant(&*self);
            lemma_inserted_unique(self@, entry@);
        }
        if self.find(entry.bus_name.as_str()).is_some() {
            return false;
        }
        let ghost before = self@;
        let mut entries: Vec<WatchEntry> = Vec::new();
        core::mem::swap(&mut self.entries, &mut entries);
        entries.push(entry);
        assert(entries@.map_values(|e: WatchEntry| e@) =~= before.push(entry@));
        core::mem::swap(&mut self.entries, &mut entries);
        true
    }

    /// Takes out the entry registered under `name` and hands it back.
    pub fn remove(&mut self, name: &str) -> (gone: Option<WatchEntry>)
        ensures
            final(self)@ == removed(old(self)@, name@),
            match gone {
                Some(e) => has_name(old(self)@, name@) && e@ == old(self)@[position(
                    old(self)@,
                    name@,
                )],
                None => !has_name(old(self)@, name@),
            },
    {
        proof {
            use_type_invariant(&*self);
            lemma_removed_unique(self@, name@);
        }
        match self.find(name) {
            Some(i) => {
                let ghost before = self@;
                let mut entries: Vec<WatchEntry> = Vec::new();
                core::mem::swap(&mut self.entries, &mut entries);
                let e = entries.remove(i);
                assert(entries@.map_values(|e: WatchEntry| e@) =~= before.remove(i as int));
                core::mem::swap(&mut self.entries, &mut entries);
                Some(e)
            },
            None => None,
        }
    }

    /// The service string of every entry, in the order of registration.
    pub fn service_strings(&self) -> (list: Vec<String>)
        ensures
            list@.len() == self@.len(),
            forall|i: int| 0 <= i < list@.len() ==> list@[i]@ == service_string(self@[i]),
    {
        let mut list: Vec<String> = Vec::new();
        let mut i: usize = 0;
        while i < self.entries.len()
            invariant
                i <= self.entries.len(),
                list@.len() == i,
                forall|k: int| 0 <= k < i ==> list@[k]@ == service_string(self@[k]),
            decreases self.entries.len() - i,
        {
            let s = self.entries[i].service_string();
            list.push(s);
            i += 1;
        }
        list
    }
}

/// A registry with unique bus names holds a name once if it has it, and
/// not at all if it has not.
pub proof fn lemma_count_name(entries: Seq<WatchEntryView>, name: Seq<char>)
    requires
        unique_names(entries),
    ensures
        count_name(entries, name) == if has_name(entries, name) {
            1nat
        } else {
            0nat
        },
    decreases entries.len(),
{
    lemma_position(entries, name);
    if entries.len() > 0 {
        let front = entries.drop_last();
        lemma_count_name(front, name);
        lemma_position(front, name);
        if entries.last().bus_name == name {
            assert(entries[entries.len() - 1].bus_name == name);
            if has_name(front, name) {
                let j = position(front, name);
                assert(front[j] == entries[j]);
                assert(entries[j].bus_name != entries[entries.len() - 1].bus_name);
            }
        } else {
            if has_name(entries, name) {
                let j = position(entries, name);
                assert(front[j] == entries[j]);
            }
            if has_name(front, name) {
                let j = position(front, name);
                assert(front[j] == entries[j]);
            }
        }
    }
}

/// The entry that a registry holds under `other` is untouched when another
/// name is removed.
pub proof fn lemma_removed_keeps_others(
    entries: Seq<WatchEntryView>,
    name: Seq<char>,
    other: Seq<char>,
)
    requires
        unique_names(entries),
        other != name,
    ensures
        has_name(removed(entries, name), other) == has_name(entries, other),
        has_name(entries, other) ==> removed(entries, name)[position(
            removed(entries, name),
            other,
        )] == entries[position(entries, other)],
{
    let after = removed(entries, name);
    lemma_position(entries, name);
    lemma_position(entries, other);
    lemma_position(after, other);
    lemma_removed_unique(entries, name);
    if has_name(entries, name) {
        let p = position(entries, name);
        if has_name(entries, other) {
            let q = position(entries, other);
            let q2 = if q < p {
                q
            } else {
                q - 1
            };
            assert(after[q2] == entries[q]);
            let r = position(after, other);
            let r0 = if r < p {
                r
            } else {
                r + 1
            };
            assert(after[r] == entries[r0]);
            if r0 != q {
                if r0 < q {
                    assert(entries[r0].bus_name != entries[q].bus_name);
                } else {
                    assert(entries[q].bus_name != entries[r0].bus_name);
                }
            }
        } else {
            if has_name(after, other) {
                let r = position(after, other);
                let r0 = if r < p {
                    r
                } else {
                    r + 1
                };
                assert(after[r] == entries[r0]);
            }
        }
    }
}

/// The mapping that the entries stand for: from each registered bus name
/// to the object path published under it.
pub open spec fn as_map(entries: Seq<WatchEntryView>) -> Map<Seq<char>, Seq<char>> {
    Map::new(
        |name: Seq<char>| has_name(entries, name),
        |name: Seq<char>| entries[position(entries, name)].object_path,
    )
}

/// A name is registered after one more entry came in at the end exactly
/// when it was registered before or is the bus name of the new entry; and
/// the entry found under a name that was registered before is the old one.
pub proof fn lemma_has_name_push(entries: Seq<WatchEntryView>, e: WatchEntryView, name: Seq<char>)
    ensures
        has_name(entries.push(e), name) <==> has_name(entries, name) || e.bus_name == name,
        has_name(entries, name) ==> position(entries.push(e), name) == position(entries, name),
        !has_name(entries, name) && e.bus_name == name ==> position(entries.push(e), name)
            == entries.len(),
{
    let more = entries.push(e);
    lemma_position(entries, name);
    lemma_position(more, name);
    if has_name(entries, name) {
        let j = position(entries, name);
        assert(more[j].bus_name == name);
        let k = position(more, name);
        if k < j {
            assert(entries[k].bus_name == more[k].bus_name);
        }
    }
    if e.bus_name == name {
        assert(more[entries.len() as int].bus_name == name);
    }
    if has_name(more, name) {
        let k = position(more, name);
        if k < entries.len() {
            assert(entries[k].bus_name == name);
        }
    }
}

/// Seen as a mapping, a registry behaves as one: a registration adds a key
/// that is not there and leaves a key that is there alone, and a removal
/// takes out exactly the key.
pub proof fn law_registry_is_a_mapping(
    entries: Seq<WatchEntryView>,
    e: WatchEntryView,
    name: Seq<char>,
)
    requires
        unique_names(entries),
    ensures
        as_map(inserted(entries, e)) == if as_map(entries).dom().contains(e.bus_name) {
            as_map(entries)
        } else {
            as_map(entries).insert(e.bus_name, e.object_path)
        },
        as_map(removed(entries, name)) == as_map(entries).remove(name),
        as_map(Seq::<WatchEntryView>::empty()) == Map::<Seq<char>, Seq<char>>::empty(),
{
    if !has_name(entries, e.bus_name) {
        let more = entries.push(e);
        assert forall|n: Seq<char>| #[trigger]
            as_map(more).dom().contains(n) <==> as_map(entries).insert(
                e.bus_name,
                e.object_path,
            ).dom().contains(n) by {
            lemma_has_name_push(entries, e, n);
        }
        assert forall|n: Seq<char>| #[trigger] as_map(more).dom().contains(n) implies as_map(
            more,
        )[n] == as_map(entries).insert(e.bus_name, e.object_path)[n] by {
            lemma_has_name_push(entries, e, n);
            lemma_position(entries, n);
            let k = position(more, n);
            if n == e.bus_name {
                assert(more[k] == e);
            } else {
                assert(more[k] == entries[k]);
            }
        }
        assert(as_map(more) =~= as_map(entries).insert(e.bus_name, e.object_path));
    }
    let fewer = removed(entries, name);
    lemma_removed_unique(entries, name);
    assert forall|n: Seq<char>| #[trigger]
        as_map(fewer).dom().contains(n) <==> as_map(entries).remove(name).dom().contains(n) by {
        if n != name {
            lemma_removed_keeps_others(entries, name, n);
        }
    }
    assert forall|n: Seq<char>| #[trigger] as_map(fewer).dom().contains(n) implies as_map(fewer)[n]
        == as_map(entries).remove(name)[n] by {
        if n != name {
            lemma_removed_keeps_others(entries, name, n);
        }
    }
    assert(as_map(fewer) =~= as_map(entries).remove(name));
    let none = Seq::<WatchEntryView>::empty();
    assert forall|n: Seq<char>| !(#[trigger] as_map(none).dom().contains(n)) by {
        lemma_position(none, n);
    }
    assert(as_map(none) =~= Map::<Seq<char>, Seq<char>>::empty());
}

} // verus!
