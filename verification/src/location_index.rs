//! The bookkeeping of the location service: each located entity under a
//! location key, with the window around it in a spatial index, and the key
//! last given to each entity.
//!
//! What a location is (a center, a radius, a movement) is left to the value
//! kept with each entry; here only the entity and its window matter.

use crate::entity::{Entity, LocationKey};
use crate::entity_table::EntityTable;
use crate::model::{IPoint, IRect};
use crate::window_index::{count_live, lists_windows_at, window_fits, WindowIndex};
use vstd::prelude::*;

verus! {

/// A located entity: the entity, the window around it, and its location.
pub struct LocatedEntry<T> {
    pub entity: Entity,
    pub window: IRect,
    pub value: T,
}

/// The state behind a location index: the window index of the entries and
/// the key of each entity.
struct LocationState<T> {
    index: WindowIndex<LocatedEntry<T>>,
    slot_keys_by_entity: EntityTable<LocationKey>,
}

/// `keys` lists, without repetition, exactly the held keys whose window
/// holds `cell`.
pub open spec fn lists_keys_at<T>(
    entries: Map<LocationKey, LocatedEntry<T>>,
    cell: IPoint,
    keys: Seq<LocationKey>,
) -> bool {
    &&& keys.no_duplicates()
    &&& forall|i: int|
        0 <= i < keys.len() ==> entries.contains_key(#[trigger] keys[i])
            && entries[keys[i]].window.holds_point(cell)
    &&& forall|k: LocationKey|
        entries.contains_key(k) && entries[k].window.holds_point(cell) ==> #[trigger] keys.contains(k)
}

/// The entries that stored slots describe: the entry in slot `i` is held
/// under the key numbered `i`.
pub open spec fn slot_entries<T>(slots: Seq<Option<LocatedEntry<T>>>) -> Map<LocationKey, LocatedEntry<T>> {
    Map::new(
        |k: LocationKey| k.index < slots.len() && slots[k.index as int] is Some,
        |k: LocationKey| slots[k.index as int]->Some_0,
    )
}

/// The key of the last stored slot that holds an entry of each entity.
pub open spec fn slot_entity_keys<T>(slots: Seq<Option<LocatedEntry<T>>>) -> Map<Entity, LocationKey>
    decreases slots.len(),
{
    if slots.len() == 0 {
        Map::empty()
    } else {
        let earlier = slot_entity_keys(slots.drop_last());
        match slots.last() {
            Some(entry) => earlier.insert(entry.entity, LocationKey { index: (slots.len() - 1) as usize }),
            None => earlier,
        }
    }
}

/// Every window in the stored slots fits the spatial index.
pub open spec fn slot_windows_fit<T>(slots: Seq<Option<LocatedEntry<T>>>) -> bool {
    forall|i: int| 0 <= i < slots.len() && #[trigger] slots[i] is Some ==> window_fits(slots[i]->Some_0.window)
}

impl<T> LocationState<T> {
    /// The located entities, by key.
    pub closed spec fn entries(self) -> Map<LocationKey, LocatedEntry<T>> {
        Map::new(
            |k: LocationKey| self.index.entries().contains_key(k.index),
            |k: LocationKey| self.index.entries()[k.index].1,
        )
    }

    /// The key last given to each entity, while it is still held.
    pub closed spec fn entity_keys(self) -> Map<Entity, LocationKey> {
        self.slot_keys_by_entity@
    }

    /// How many keys have been handed out.
    pub closed spec fn keys_issued(self) -> nat {
        self.index.keys_issued()
    }

    /// How many entries are held.
    pub closed spec fn live_count(self) -> nat {
        self.index.live_count()
    }

    /// The index's internal consistency: the spatial index holds each entry
    /// under its window, every window fits, and each recorded key names a
    /// held entry of its entity.
    pub closed spec fn wf(self) -> bool {
        &&& self.index.wf()
        &&& self.slot_keys_by_entity.wf()
        &&& forall|i: usize| #[trigger]
            self.index.entries().contains_key(i) ==> self.index.entries()[i].0
                == self.index.entries()[i].1.window
        &&& forall|e: Entity| #[trigger]
            self.slot_keys_by_entity@.contains_key(e) ==> {
                let k = self.slot_keys_by_entity@[e];
                &&& self.index.entries().contains_key(k.index)
                &&& self.index.entries()[k.index].1.entity == e
            }
    }

    /// Every held window fits the spatial index, and each recorded key names
    /// a held entry of its entity.
    pub proof fn lemma_consistent(self)
        requires
            self.wf(),
        ensures
            forall|k: LocationKey| #[trigger]
                self.entries().contains_key(k) ==> window_fits(self.entries()[k].window),
            forall|e: Entity| #[trigger]
                self.entity_keys().contains_key(e) ==> self.entries().contains_key(
                    self.entity_keys()[e],
                ) && self.entries()[self.entity_keys()[e]].entity == e,
    {
        self.index.lemma_windows_fit();
        assert forall|k: LocationKey| #[trigger]
            self.entries().contains_key(k) implies window_fits(self.entries()[k].window) by {
            assert(self.index.entries().contains_key(k.index));
        }
    }

    /// An empty index.
    pub fn new() -> (s: LocationState<T>)
        ensures
            s.wf(),
            s.entries() == Map::<LocationKey, LocatedEntry<T>>::empty(),
            s.entity_keys() == Map::<Entity, LocationKey>::empty(),
            s.live_count() == 0,
            s.keys_issued() == 0,
    {
        let s = LocationState { index: WindowIndex::new(), slot_keys_by_entity: EntityTable::new() };
        assert(s.entries() =~= Map::<LocationKey, LocatedEntry<T>>::empty());
        s
    }

    /// An index that holds the stored slots again: the entry in slot `i` under
    /// the key numbered `i`, an empty slot keeping its number unused, and each
    /// entity recorded under the last key that holds it.
    pub fn from_slots(slots: Vec<Option<LocatedEntry<T>>>) -> (s: LocationState<T>)
        requires
            slot_windows_fit(slots@),
            slots@.len() < usize::MAX,
        ensures
            s.wf(),
            s.entries() == slot_entries(slots@),
            s.entity_keys() == slot_entity_keys(slots@),
            s.live_count() == count_live(slots@),
            s.keys_issued() == slots@.len(),
    {
        let ghost stored = slots@;
        let mut rest = slots;
        let n = rest.len();
        let mut s = LocationState::new();
        let mut i: usize = 0;
        assert(stored.take(0) =~= Seq::<Option<LocatedEntry<T>>>::empty());
        assert(slot_entries(stored.take(0)) =~= Map::<LocationKey, LocatedEntry<T>>::empty());
        while i < n
            invariant
                i <= n,
                n == stored.len(),
                n < usize::MAX,
                rest@ == stored.skip(i as int),
                slot_windows_fit(stored),
                s.wf(),
                s.keys_issued() == i,
                s.entries() == slot_entries(stored.take(i as int)),
                s.entity_keys() == slot_entity_keys(stored.take(i as int)),
                s.live_count() == count_live(stored.take(i as int)),
            decreases n - i,
        {
            let ghost before = s;
            let item = rest.remove(0);
            assert(item == stored[i as int]);
            let ghost prefix = stored.take(i as int + 1);
            assert(prefix.drop_last() =~= stored.take(i as int));
            assert(prefix.last() == item);
            match item {
                Some(entry) => {
                    let ghost placed = entry;
                    assert(window_fits(stored[i as int]->Some_0.window));
                    let key = s.insert(entry.entity, entry.window, entry.value);
                    assert(slot_entries(prefix) =~= slot_entries(stored.take(i as int)).insert(
                        key,
                        placed,
                    ));
                },
                None => {
                    s.skip_key();
                    assert(slot_entries(prefix) =~= slot_entries(stored.take(i as int)));
                },
            }
            assert(rest@ =~= stored.skip(i as int + 1));
            i = i + 1;
        }
        assert(stored.take(n as int) =~= stored);
        s
    }

    /// Hand out the next key without holding anything under it.
    fn skip_key(&mut self)
        requires
            old(self).wf(),
            old(self).keys_issued() < usize::MAX,
        ensures
            final(self).wf(),
            final(self).entries() == old(self).entries(),
            final(self).entity_keys() == old(self).entity_keys(),
            final(self).live_count() == old(self).live_count(),
            final(self).keys_issued() == old(self).keys_issued() + 1,
    {
        let ghost old_self = *self;
        let _ = self.index.skip_slot();
        proof {
            assert(self.entries() =~= old_self.entries());
            assert forall|e: Entity| #[trigger]
                self.slot_keys_by_entity@.contains_key(e) implies {
                    let k = self.slot_keys_by_entity@[e];
                    &&& self.index.entries().contains_key(k.index)
                    &&& self.index.entries()[k.index].1.entity == e
                } by {
                assert(old_self.slot_keys_by_entity@.contains_key(e));
            }
        }
    }

    /// Hold `value` for `entity` with the given window under a new key, which
    /// becomes the entity's key.
    pub fn insert(&mut self, entity: Entity, window: IRect, value: T) -> (key: LocationKey)
        requires
            old(self).wf(),
            window_fits(window),
            old(self).keys_issued() < usize::MAX,
        ensures
            final(self).wf(),
            key.index == old(self).keys_issued(),
            !old(self).entries().contains_key(key),
            final(self).entries() == old(self).entries().insert(
                key,
                LocatedEntry { entity, window, value },
            ),
            final(self).entity_keys() == old(self).entity_keys().insert(entity, key),
            final(self).live_count() == old(self).live_count() + 1,
            final(self).keys_issued() == old(self).keys_issued() + 1,
    {
        let ghost old_self = *self;
        let index = self.index.insert(window, LocatedEntry { entity, window, value });
        let key = LocationKey { index };
        self.slot_keys_by_entity.insert(entity, key);
        proof {
            assert(self.entries() =~= old_self.entries().insert(key, LocatedEntry { entity, window, value }));
            assert forall|e: Entity| #[trigger]
                self.slot_keys_by_entity@.contains_key(e) implies {
                    let k = self.slot_keys_by_entity@[e];
                    &&& self.index.entries().contains_key(k.index)
                    &&& self.index.entries()[k.index].1.entity == e
                } by {
                if e != entity {
                    assert(old_self.slot_keys_by_entity@.contains_key(e));
                }
            }
        }
        key
    }

    /// The entry held under `key`, if any.
    pub fn get(&self, key: &LocationKey) -> (r: Option<&LocatedEntry<T>>)
        requires
            self.wf(),
        ensures
            r is Some == self.entries().contains_key(*key),
            r is Some ==> *r->Some_0 == self.entries()[*key],
    {
        match self.index.get(key.index) {
            Some(entry) => Some(&entry.1),
            None => None,
        }
    }

    /// The entity's key and entry, if it is held.
    pub fn get_by_entity(&self, entity: &Entity) -> (r: Option<(LocationKey, &LocatedEntry<T>)>)
        requires
            self.wf(),
        ensures
            r is Some == self.entity_keys().contains_key(*entity),
            r is Some ==> r->Some_0.0 == self.entity_keys()[*entity] && *r->Some_0.1
                == self.entries()[self.entity_keys()[*entity]],
    {
        match self.slot_keys_by_entity.get(entity) {
            Some(key) => {
                let key = *key;
                match self.get(&key) {
                    Some(entry) => Some((key, entry)),
                    None => None,
                }
            },
            None => None,
        }
    }

    /// Give the entry under `key` a new window and value, and report whether
    /// the key is held; the spatial index follows the window. The entity
    /// stays the same. An unknown key changes nothing.
    pub fn replace(&mut self, key: &LocationKey, window: IRect, value: T) -> (found: bool)
        requires
            old(self).wf(),
            window_fits(window),
        ensures
            final(self).wf(),
            found == old(self).entries().contains_key(*key),
            final(self).entries() == if found {
                old(self).entries().insert(
                    *key,
                    LocatedEntry { entity: old(self).entries()[*key].entity, window, value },
                )
            } else {
                old(self).entries()
            },
            final(self).entity_keys() == old(self).entity_keys(),
            final(self).live_count() == old(self).live_count(),
            final(self).keys_issued() == old(self).keys_issued(),
    {
        let entity = match self.index.get(key.index) {
            Some(entry) => entry.1.entity,
            None => {
                return false;
            },
        };
        let ghost old_self = *self;
        let found = self.index.replace(key.index, window, LocatedEntry { entity, window, value });
        proof {
            assert(self.entries() =~= old_self.entries().insert(
                *key,
                LocatedEntry { entity, window, value },
            ));
            assert forall|e: Entity| #[trigger]
                self.slot_keys_by_entity@.contains_key(e) implies {
                    let k = self.slot_keys_by_entity@[e];
                    &&& self.index.entries().contains_key(k.index)
                    &&& self.index.entries()[k.index].1.entity == e
                } by {
                assert(old_self.slot_keys_by_entity@.contains_key(e));
            }
        }
        found
    }

    /// Take out the entry under `key` and hand it back; the key recorded for
    /// its entity is forgotten too. An unknown key changes nothing.
    pub fn remove_by_key(&mut self, key: &LocationKey) -> (r: Option<LocatedEntry<T>>)
        requires
            old(self).wf(),
        ensures
            final(self).wf(),
            r is Some == old(self).entries().contains_key(*key),
            r is Some ==> r->Some_0 == old(self).entries()[*key],
            final(self).entries() == old(self).entries().remove(*key),
            final(self).entity_keys() == if r is Some {
                old(self).entity_keys().remove(old(self).entries()[*key].entity)
            } else {
                old(self).entity_keys()
            },
            final(self).live_count() == if r is Some {
                (old(self).live_count() - 1) as nat
            } else {
                old(self).live_count()
            },
            final(self).keys_issued() == old(self).keys_issued(),
    {
        let ghost old_self = *self;
        match self.index.remove(key.index) {
            None => {
                proof {
                    assert(self.entries() =~= old_self.entries().remove(*key));
                }
                None
            },
            Some(entry) => {
                let located = entry.1;
                let _ = self.slot_keys_by_entity.remove(&located.entity);
                proof {
                    assert(self.entries() =~= old_self.entries().remove(*key));
                    assert forall|e: Entity| #[trigger]
                        self.slot_keys_by_entity@.contains_key(e) implies {
                            let k = self.slot_keys_by_entity@[e];
                            &&& self.index.entries().contains_key(k.index)
                            &&& self.index.entries()[k.index].1.entity == e
                        } by {
                        assert(old_self.slot_keys_by_entity@.contains_key(e));
                        assert(e != located.entity);
                    }
                }
                Some(located)
            },
        }
    }

    /// The keys whose window holds `cell`, each once, in the order the
    /// spatial index hands them out.
    pub fn keys_at(&self, cell: &IPoint) -> (keys: Vec<LocationKey>)
        requires
            self.wf(),
        ensures
            lists_keys_at(self.entries(), *cell, keys@),
    {
        let slots = self.index.keys_at(cell);
        let mut keys: Vec<LocationKey> = Vec::new();
        let mut i: usize = 0;
        while i < slots.len()
            invariant
                self.wf(),
                i <= slots@.len(),
                lists_windows_at(self.index.entries(), *cell, slots@),
                keys@.len() == i,
                forall|j: int| 0 <= j < i ==> #[trigger] keys@[j] == (LocationKey { index: slots@[j] }),
            decreases slots@.len() - i,
        {
            keys.push(LocationKey { index: slots[i] });
            i = i + 1;
        }
        proof {
            assert forall|a: int, b: int|
                0 <= a < keys@.len() && 0 <= b < keys@.len() && a != b implies keys@[a] != keys@[b] by {
                assert(slots@[a] != slots@[b]);
            }
            assert forall|j: int| 0 <= j < keys@.len() implies self.entries().contains_key(
                #[trigger] keys@[j],
            ) && self.entries()[keys@[j]].window.holds_point(*cell) by {
                assert(self.index.entries().contains_key(slots@[j]));
            }
            assert forall|k: LocationKey|
                self.entries().contains_key(k) && self.entries()[k].window.holds_point(
                    *cell,
                ) implies #[trigger] keys@.contains(k) by {
                assert(self.index.entries()[k.index].0 == self.index.entries()[k.index].1.window);
                assert(slots@.contains(k.index));
                let m = choose|m: int| 0 <= m < slots@.len() && slots@[m] == k.index;
                assert(keys@[m] == k);
            }
        }
        keys
    }

    /// Another key can still be handed out.
    pub fn has_free_key(&self) -> (b: bool)
        ensures
            b == (self.keys_issued() < usize::MAX),
    {
        self.index.has_free_key()
    }

    /// How many entries are held.
    pub fn len(&self) -> (n: usize)
        requires
            self.wf(),
        ensures
            n == self.live_count(),
    {
        self.index.len()
    }

    /// How many elements the spatial index holds: one per entry.
    pub fn spatial_index_len(&self) -> (n: usize)
        requires
            self.wf(),
        ensures
            n == self.live_count(),
    {
        self.index.index_len()
    }

    /// How many entities have a recorded key.
    pub fn entity_index_len(&self) -> (n: usize)
        requires
            self.wf(),
        ensures
            n == self.entity_keys().dom().len(),
    {
        self.slot_keys_by_entity.len()
    }
}

/// Located entities by key, with a spatial index of their windows.
pub struct LocationIndex<T> {
    state: LocationState<T>,
}

impl<T> LocationIndex<T> {
    /// The located entities, by key.
    pub closed spec fn entries(self) -> Map<LocationKey, LocatedEntry<T>> {
        self.state.entries()
    }

    /// The key last given to each entity, while it is still held.
    pub closed spec fn entity_keys(self) -> Map<Entity, LocationKey> {
        self.state.entity_keys()
    }

    /// How many keys have been handed out.
    pub closed spec fn keys_issued(self) -> nat {
        self.state.keys_issued()
    }

    /// How many entries are held.
    pub closed spec fn live_count(self) -> nat {
        self.state.live_count()
    }

    /// The index's internal consistency: the spatial index holds each entry
    /// under its window, every window fits, and each recorded key names a
    /// held entry of its entity. Every index keeps it.
    #[verifier::type_invariant]
    pub closed spec fn wf(self) -> bool {
        self.state.wf()
    }

    /// Every held window fits the spatial index, and each recorded key names
    /// a held entry of its entity.
    pub proof fn lemma_consistent(self)
        requires
            self.wf(),
        ensures
            forall|k: LocationKey| #[trigger]
                self.entries().contains_key(k) ==> window_fits(self.entries()[k].window),
            forall|e: Entity| #[trigger]
                self.entity_keys().contains_key(e) ==> self.entries().contains_key(
                    self.entity_keys()[e],
                ) && self.entries()[self.entity_keys()[e]].entity == e,
    {
        self.state.lemma_consistent();
    }

    /// An empty index.
    pub fn new() -> (s: LocationIndex<T>)
        ensures
            s.wf(),
            s.entries() == Map::<LocationKey, LocatedEntry<T>>::empty(),
            s.entity_keys() == Map::<Entity, LocationKey>::empty(),
            s.live_count() == 0,
            s.keys_issued() == 0,
    {
        LocationIndex { state: LocationState::new() }
    }

    /// An index that holds the stored slots again: the entry in slot `i` under
    /// the key numbered `i`, an empty slot keeping its number unused, and each
    /// entity recorded under the last key that holds it.
    pub fn from_slots(slots: Vec<Option<LocatedEntry<T>>>) -> (s: LocationIndex<T>)
        requires
            slot_windows_fit(slots@),
            slots@.len() < usize::MAX,
        ensures
            s.wf(),
            s.entries() == slot_entries(slots@),
            s.entity_keys() == slot_entity_keys(slots@),
            s.live_count() == count_live(slots@),
            s.keys_issued() == slots@.len(),
    {
        LocationIndex { state: LocationState::from_slots(slots) }
    }

    /// Take the state out for a change, leaving an empty one in its place.
    fn take_state(&mut self) -> (state: LocationState<T>)
        ensures
            state == old(self).state,
            state.wf(),
    {
        proof {
            use_type_invariant(&*self);
        }
        let mut state = LocationState::new();
        core::mem::swap(&mut state, &mut self.state);
        state
    }

    /// Put a state back.
    fn put_state(&mut self, state: LocationState<T>)
        requires
            state.wf(),
        ensures
            final(self).state == state,
    {
        let mut state = state;
        core::mem::swap(&mut state, &mut self.state);
    }

    /// Hold `value` for `entity` with the given window under a new key, which
    /// becomes the entity's key.
    pub fn insert(&mut self, entity: Entity, window: IRect, value: T) -> (key: LocationKey)
        requires
            window_fits(window),
            old(self).keys_issued() < usize::MAX,
        ensures
            final(self).wf(),
            key.index == old(self).keys_issued(),
            !old(self).entries().contains_key(key),
            final(self).entries() == old(self).entries().insert(
                key,
                LocatedEntry { entity, window, value },
            ),
            final(self).entity_keys() == old(self).entity_keys().insert(entity, key),
            final(self).live_count() == old(self).live_count() + 1,
            final(self).keys_issued() == old(self).keys_issued() + 1,
    {
        let mut state = self.take_state();
        let key = state.insert(entity, window, value);
        self.put_state(state);
        key
    }

    /// The entry held under `key`, if any.
    pub fn get(&self, key: &LocationKey) -> (r: Option<&LocatedEntry<T>>)
        ensures
            r is Some == self.entries().contains_key(*key),
            r is Some ==> *r->Some_0 == self.entries()[*key],
    {
        proof {
            use_type_invariant(self);
        }
        self.state.get(key)
    }

    /// The entity's key and entry, if it is held.
    pub fn get_by_entity(&self, entity: &Entity) -> (r: Option<(LocationKey, &LocatedEntry<T>)>)
        ensures
            r is Some == self.entity_keys().contains_key(*entity),
            r is Some ==> r->Some_0.0 == self.entity_keys()[*entity] && *r->Some_0.1
                == self.entries()[self.entity_keys()[*entity]],
    {
        proof {
            use_type_invariant(self);
        }
        self.state.get_by_entity(entity)
    }

    /// Give the entry under `key` a new window and value, and report whether
    /// the key is held; the spatial index follows the window. The entity
    /// stays the same. An unknown key changes nothing.
    pub fn replace(&mut self, key: &LocationKey, window: IRect, value: T) -> (found: bool)
        requires
            window_fits(window),
        ensures
            final(self).wf(),
            found == old(self).entries().contains_key(*key),
            final(self).entries() == if found {
                old(self).entries().insert(
                    *key,
                    LocatedEntry { entity: old(self).entries()[*key].entity, window, value },
                )
            } else {
                old(self).entries()
            },
            final(self).entity_keys() == old(self).entity_keys(),
            final(self).live_count() == old(self).live_count(),
            final(self).keys_issued() == old(self).keys_issued(),
    {
        let mut state = self.take_state();
        let found = state.replace(key, window, value);
        self.put_state(state);
        found
    }

    /// Take out the entry under `key` and hand it back; the key recorded for
    /// its entity is forgotten too. An unknown key changes nothing.
    pub fn remove_by_key(&mut self, key: &LocationKey) -> (r: Option<LocatedEntry<T>>)
        ensures
            final(self).wf(),
            r is Some == old(self).entries().contains_key(*key),
            r is Some ==> r->Some_0 == old(self).entries()[*key],
            final(self).entries() == old(self).entries().remove(*key),
            final(self).entity_keys() == if r is Some {
                old(self).entity_keys().remove(old(self).entries()[*key].entity)
            } else {
                old(self).entity_keys()
            },
            final(self).live_count() == if r is Some {
                (old(self).live_count() - 1) as nat
            } else {
                old(self).live_count()
            },
            final(self).keys_issued() == old(self).keys_issued(),
    {
        let mut state = self.take_state();
        let r = state.remove_by_key(key);
        self.put_state(state);
        r
    }

    /// The keys whose window holds `cell`, each once, in the order the
    /// spatial index hands them out.
    pub fn keys_at(&self, cell: &IPoint) -> (keys: Vec<LocationKey>)
        ensures
            lists_keys_at(self.entries(), *cell, keys@),
    {
        proof {
            use_type_invariant(self);
        }
        self.state.keys_at(cell)
    }

    /// Another key can still be handed out.
    pub fn has_free_key(&self) -> (b: bool)
        ensures
            b == (self.keys_issued() < usize::MAX),
    {
        self.state.has_free_key()
    }

    /// How many entries are held.
    pub fn len(&self) -> (n: usize)
        ensures
            n == self.live_count(),
    {
        proof {
            use_type_invariant(self);
        }
        self.state.len()
    }

    /// How many elements the spatial index holds: one per entry.
    pub fn spatial_index_len(&self) -> (n: usize)
        ensures
            n == self.live_count(),
    {
        proof {
            use_type_invariant(self);
        }
        self.state.spatial_index_len()
    }

    /// How many entities have a recorded key.
    pub fn entity_index_len(&self) -> (n: usize)
        ensures
            n == self.entity_keys().dom().len(),
    {
        proof {
            use_type_invariant(self);
        }
        self.state.entity_index_len()
    }
}

/// What is read back of an insertion: the new key holds the inserted entry
/// and becomes the entity's key.
pub proof fn lemma_read_after_insert<T>(
    before: LocationIndex<T>,
    after: LocationIndex<T>,
    entity: Entity,
    window: IRect,
    value: T,
    key: LocationKey,
)
    requires
        after.entries() == before.entries().insert(key, LocatedEntry { entity, window, value }),
        after.entity_keys() == before.entity_keys().insert(entity, key),
    ensures
        after.entries().contains_key(key),
        after.entries()[key] == (LocatedEntry { entity, window, value }),
        after.entity_keys()[entity] == key,
{
}

/// Removing the entry just inserted gives back the entries held before.
pub proof fn lemma_remove_undoes_insert<T>(
    before: LocationIndex<T>,
    after_insert: LocationIndex<T>,
    after_remove: LocationIndex<T>,
    entry: LocatedEntry<T>,
    key: LocationKey,
)
    requires
        !before.entries().contains_key(key),
        after_insert.entries() == before.entries().insert(key, entry),
        after_remove.entries() == after_insert.entries().remove(key),
    ensures
        after_remove.entries() == before.entries(),
{
    assert(after_remove.entries() =~= before.entries());
}

} // verus!
