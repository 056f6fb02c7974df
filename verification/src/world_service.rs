//! The world service: every entity on the tile grid, its location and the
//! window around it that the spatial index holds.
//!
//! An entity's window is a rectangle around its location. The spatial index
//! stores windows, not locations, so that an entity that moves a little does
//! not have to be taken out of the index and put back: only when its location
//! leaves its window is the window recentered and the index updated.

use crate::model::{IPoint, IRect, ISize};
use crate::window_index::{lists_windows_at, window_fits, WindowIndex};
use vstd::prelude::*;

verus! {

/// The kinds of entity that live in the world.
#[derive(Clone, Copy, Debug, PartialEq, Eq, Structural, Hash)]
pub enum GameEntity {
    Player,
}

/// The key under which the world service keeps one entity. Keys are handed
/// out in order and never reused.
#[derive(Clone, Copy, Debug, PartialEq, Eq, Structural, Hash)]
pub struct GameEntitySlotKey {
    pub index: usize,
}

/// Locations may lie at most this far from the origin on either axis.
pub const WORLD_COORDINATE_LIMIT: i64 = 134_217_728;

/// How many kinds of entity there are.
const ENTITY_KINDS: usize = 1;

/// How far the window of an entity of the given kind reaches past its location.
pub open spec fn windowed_offset(entity: GameEntity) -> int {
    match entity {
        GameEntity::Player => 8,
    }
}

/// How far the window of an entity of the given kind reaches past its location.
pub fn get_windowed_offset_for(entity: &GameEntity) -> (offset: usize)
    ensures
        offset == windowed_offset(*entity),
{
    match entity {
        GameEntity::Player => 8,
    }
}

/// The place of a kind of entity in the table of last keys.
spec fn entity_index(entity: GameEntity) -> int {
    match entity {
        GameEntity::Player => 0,
    }
}

fn entity_index_of(entity: &GameEntity) -> (i: usize)
    ensures
        i == entity_index(*entity),
        i < ENTITY_KINDS,
{
    match entity {
        GameEntity::Player => 0,
    }
}

/// The point lies within the world's coordinate limit.
pub open spec fn in_world(p: IPoint) -> bool {
    &&& -WORLD_COORDINATE_LIMIT <= p.x <= WORLD_COORDINATE_LIMIT
    &&& -WORLD_COORDINATE_LIMIT <= p.y <= WORLD_COORDINATE_LIMIT
}

/// The single cell at `p`.
pub open spec fn unit_rect_at(p: IPoint) -> IRect {
    IRect { top_left: p, size: ISize { width: 1, height: 1 } }
}

/// Where an entity is, and the window around it.
#[derive(Clone, Copy, Debug, PartialEq, Eq, Structural)]
pub struct WindowedPointer {
    pub entity: GameEntity,
    pub location: IRect,
    pub window: IRect,
}

impl WindowedPointer {
    /// An entity placed at `location`: it covers that one cell, and its
    /// window is that cell grown by the entity's offset.
    pub open spec fn placed(entity: GameEntity, location: IPoint) -> WindowedPointer {
        WindowedPointer {
            entity,
            location: unit_rect_at(location),
            window: unit_rect_at(location).expanded(windowed_offset(entity)),
        }
    }

    /// The pointer after its location's corner moved to `p`: the window is
    /// kept while it still holds the location, and otherwise recentered on it.
    pub open spec fn moved_to(self, p: IPoint) -> WindowedPointer {
        let location = IRect { top_left: p, size: self.location.size };
        WindowedPointer {
            entity: self.entity,
            location,
            window: if self.window.holds_rect(location) {
                self.window
            } else {
                location.expanded(windowed_offset(self.entity))
            },
        }
    }

    /// The shape the world service keeps every pointer in.
    pub open spec fn well_placed(self) -> bool {
        &&& self.location.size.width == 1
        &&& self.location.size.height == 1
        &&& in_world(self.location.top_left)
        &&& self.window.holds_rect(self.location)
        &&& window_fits(self.window)
    }

    pub fn new(entity: GameEntity, location: IPoint) -> (wp: WindowedPointer)
        requires
            unit_rect_at(location).can_grow(windowed_offset(entity)),
        ensures
            wp == WindowedPointer::placed(entity, location),
    {
        let location = IRect { top_left: location, size: ISize { width: 1, height: 1 } };
        let window = location.expanded_by(get_windowed_offset_for(&entity));
        WindowedPointer { entity, location, window }
    }

    /// Check that the window still holds the whole location.
    pub fn check_window_contains_location(&self) -> (b: bool)
        ensures
            b == self.window.holds_rect(self.location),
    {
        self.window.contains_rect(&self.location)
    }

    /// Move the window to be the rectangle around the actual location.
    pub fn recenter_window(&mut self)
        requires
            old(self).location.can_grow(windowed_offset(old(self).entity)),
        ensures
            *final(self) == (WindowedPointer {
                window: old(self).location.expanded(windowed_offset(old(self).entity)),
                ..*old(self)
            }),
    {
        let offset = get_windowed_offset_for(&self.entity);
        self.window = self.location.expanded_by(offset);
    }
}

/// A location in the world can be placed: its grown window is representable
/// and fits the spatial index.
proof fn lemma_placed_well(entity: GameEntity, p: IPoint)
    requires
        in_world(p),
    ensures
        unit_rect_at(p).can_grow(windowed_offset(entity)),
        WindowedPointer::placed(entity, p).well_placed(),
{
}

/// Moving a well placed pointer to a point of the world keeps it well placed.
proof fn lemma_moved_well(wp: WindowedPointer, p: IPoint)
    requires
        wp.well_placed(),
        in_world(p),
    ensures
        wp.moved_to(p).well_placed(),
        (IRect { top_left: p, size: wp.location.size }).can_grow(windowed_offset(wp.entity)),
{
}

/// The state behind a world service: the window index of the entities and
/// the last key of each kind.
struct WorldState {
    index: WindowIndex<WindowedPointer>,
    slot_keys_by_entity: Vec<Option<GameEntitySlotKey>>,
}

impl WorldState {
    /// The entities held, by key.
    pub closed spec fn slots(self) -> Map<GameEntitySlotKey, WindowedPointer> {
        Map::new(
            |k: GameEntitySlotKey| self.index.entries().contains_key(k.index),
            |k: GameEntitySlotKey| self.index.entries()[k.index].1,
        )
    }

    /// The key last given to each kind of entity, while the entity it names
    /// is still held.
    pub closed spec fn entity_keys(self) -> Map<GameEntity, GameEntitySlotKey> {
        Map::new(
            |e: GameEntity| self.slot_keys_by_entity@[entity_index(e)] is Some,
            |e: GameEntity| self.slot_keys_by_entity@[entity_index(e)]->Some_0,
        )
    }

    /// How many entities are held.
    pub closed spec fn live_count(self) -> nat {
        self.index.live_count()
    }

    /// How many keys have been handed out.
    pub closed spec fn keys_issued(self) -> nat {
        self.index.keys_issued()
    }

    /// Another key can still be handed out.
    pub open spec fn can_insert(self) -> bool {
        self.keys_issued() < usize::MAX
    }

    /// The service's internal consistency: the spatial index holds each
    /// entity under its window, every entity is well placed, and each
    /// recorded last key names a held entity of its kind.
    pub closed spec fn wf(self) -> bool {
        &&& self.index.wf()
        &&& self.slot_keys_by_entity@.len() == ENTITY_KINDS
        &&& forall|i: usize| #[trigger]
            self.index.entries().contains_key(i) ==> {
                let (window, wp) = self.index.entries()[i];
                window == wp.window && wp.well_placed()
            }
        &&& forall|e: GameEntity| #[trigger]
            self.slot_keys_by_entity@[entity_index(e)] is Some ==> {
                let k = self.slot_keys_by_entity@[entity_index(e)]->Some_0;
                &&& self.index.entries().contains_key(k.index)
                &&& self.index.entries()[k.index].1.entity == e
            }
    }

    /// `keys` lists, without repetition, exactly the held entities whose
    /// location holds `point`, and `found` lists their kinds in the same order.
    pub open spec fn keys_listing_at(
        self,
        point: IPoint,
        keys: Seq<GameEntitySlotKey>,
        found: Seq<GameEntity>,
    ) -> bool {
        &&& keys.len() == found.len()
        &&& keys.no_duplicates()
        &&& forall|i: int|
            0 <= i < keys.len() ==> self.slots().contains_key(#[trigger] keys[i]) && found[i]
                == self.slots()[keys[i]].entity
        &&& forall|k: GameEntitySlotKey|
            (self.slots().contains_key(k) && self.slots()[k].location.holds_point(point))
                <==> #[trigger] keys.contains(k)
    }

    /// `found` lists the kinds of exactly the held entities whose location
    /// holds `point`, one per entity, in some order.
    pub open spec fn lists_entities_at(self, point: IPoint, found: Seq<GameEntity>) -> bool {
        exists|keys: Seq<GameEntitySlotKey>| self.keys_listing_at(point, keys, found)
    }

    /// An empty world.
    pub fn new() -> (s: WorldState)
        ensures
            s.wf(),
            s.slots() == Map::<GameEntitySlotKey, WindowedPointer>::empty(),
            s.entity_keys() == Map::<GameEntity, GameEntitySlotKey>::empty(),
            s.live_count() == 0,
            s.keys_issued() == 0,
    {
        let mut slot_keys_by_entity = Vec::new();
        slot_keys_by_entity.push(None);
        let s = WorldState { index: WindowIndex::new(), slot_keys_by_entity };
        assert(s.slots() =~= Map::<GameEntitySlotKey, WindowedPointer>::empty());
        assert(s.entity_keys() =~= Map::<GameEntity, GameEntitySlotKey>::empty());
        s
    }

    /// Place entity `e` at `location`, and return the new key for it. The key
    /// becomes the last key of its kind.
    pub fn insert(&mut self, e: GameEntity, location: IPoint) -> (key: GameEntitySlotKey)
        requires
            old(self).wf(),
            old(self).can_insert(),
            in_world(location),
        ensures
            final(self).wf(),
            !old(self).slots().contains_key(key),
            final(self).slots() == old(self).slots().insert(
                key,
                WindowedPointer::placed(e, location),
            ),
            final(self).entity_keys() == old(self).entity_keys().insert(e, key),
            final(self).live_count() == old(self).live_count() + 1,
            final(self).keys_issued() == old(self).keys_issued() + 1,
    {
        proof {
            lemma_placed_well(e, location);
        }
        let ghost old_self = *self;
        let wp = WindowedPointer::new(e, location);
        let index = self.index.insert(wp.window, wp);
        let key = GameEntitySlotKey { index };
        let code = entity_index_of(&e);
        self.slot_keys_by_entity.set(code, Some(key));
        proof {
            assert(self.slots() =~= old_self.slots().insert(key, WindowedPointer::placed(e, location)));
            assert(self.entity_keys() =~= old_self.entity_keys().insert(e, key));
        }
        key
    }

    /// Where the entity with the given key is, if it is held.
    pub fn get_by_key(&self, key: &GameEntitySlotKey) -> (r: Option<IRect>)
        requires
            self.wf(),
        ensures
            r == if self.slots().contains_key(*key) {
                Some(self.slots()[*key].location)
            } else {
                None::<IRect>
            },
    {
        match self.index.get(key.index) {
            Some(entry) => Some(entry.1.location),
            None => None,
        }
    }

    /// The window around the entity with the given key, if it is held.
    pub fn window_of(&self, key: &GameEntitySlotKey) -> (r: Option<IRect>)
        requires
            self.wf(),
        ensures
            r == if self.slots().contains_key(*key) {
                Some(self.slots()[*key].window)
            } else {
                None::<IRect>
            },
    {
        match self.index.get(key.index) {
            Some(entry) => Some(entry.1.window),
            None => None,
        }
    }

    /// The last key given to the entity kind and where that entity is, if
    /// it is still held.
    pub fn get_by_entity(&self, entity: &GameEntity) -> (r: Option<(GameEntitySlotKey, IRect)>)
        requires
            self.wf(),
        ensures
            r == if self.entity_keys().contains_key(*entity) {
                Some(
                    (
                        self.entity_keys()[*entity],
                        self.slots()[self.entity_keys()[*entity]].location,
                    ),
                )
            } else {
                None::<(GameEntitySlotKey, IRect)>
            },
            self.entity_keys().contains_key(*entity) ==> self.slots().contains_key(
                self.entity_keys()[*entity],
            ),
    {
        let code = entity_index_of(entity);
        match self.slot_keys_by_entity[code] {
            Some(key) => {
                let location = self.get_by_key(&key);
                match location {
                    Some(l) => Some((key, l)),
                    None => None,
                }
            },
            None => None,
        }
    }

    /// Move the location of the entity with the given key to `new_location`;
    /// when the location leaves its window, the window is recentered and the
    /// spatial index updated. An unknown key changes nothing.
    pub fn move_by_key(&mut self, key: &GameEntitySlotKey, new_location: IPoint)
        requires
            old(self).wf(),
            in_world(new_location),
        ensures
            final(self).wf(),
            final(self).slots() == if old(self).slots().contains_key(*key) {
                old(self).slots().insert(*key, old(self).slots()[*key].moved_to(new_location))
            } else {
                old(self).slots()
            },
            final(self).entity_keys() == old(self).entity_keys(),
            final(self).live_count() == old(self).live_count(),
            final(self).keys_issued() == old(self).keys_issued(),
    {
        let current = match self.index.get(key.index) {
            Some(entry) => entry.1,
            None => {
                return ;
            },
        };
        let ghost old_self = *self;
        proof {
            lemma_moved_well(current, new_location);
        }
        let mut moved = current;
        moved.location.top_left = new_location;
        if !moved.check_window_contains_location() {
            moved.recenter_window();
        }
        proof {
            assert(moved == current.moved_to(new_location));
        }
        let found = self.index.replace(key.index, moved.window, moved);
        proof {
            assert(self.slots() =~= old_self.slots().insert(*key, old_self.slots()[*key].moved_to(new_location)));
            assert(self.entity_keys() =~= old_self.entity_keys());
            assert forall|e: GameEntity| #[trigger]
                self.slot_keys_by_entity@[entity_index(e)] is Some implies {
                    let k = self.slot_keys_by_entity@[entity_index(e)]->Some_0;
                    &&& self.index.entries().contains_key(k.index)
                    &&& self.index.entries()[k.index].1.entity == e
                } by {
                assert(old_self.slot_keys_by_entity@[entity_index(e)] is Some);
            }
        }
    }

    /// Take out the entity with the given key and return where it was. The
    /// last key of its kind is forgotten too. An unknown key changes nothing.
    pub fn remove_by_key(&mut self, key: &GameEntitySlotKey) -> (r: Option<IRect>)
        requires
            old(self).wf(),
        ensures
            final(self).wf(),
            r == if old(self).slots().contains_key(*key) {
                Some(old(self).slots()[*key].location)
            } else {
                None::<IRect>
            },
            final(self).slots() == old(self).slots().remove(*key),
            final(self).entity_keys() == if old(self).slots().contains_key(*key) {
                old(self).entity_keys().remove(old(self).slots()[*key].entity)
            } else {
                old(self).entity_keys()
            },
            final(self).live_count() == if old(self).slots().contains_key(*key) {
                (old(self).live_count() - 1) as nat
            } else {
                old(self).live_count()
            },
            final(self).keys_issued() == old(self).keys_issued(),
    {
        let ghost old_self = *self;
        match self.index.remove(key.index) {
            None => {
                proof {
                    assert(self.slots() =~= old_self.slots().remove(*key));
                }
                None
            },
            Some(entry) => {
                let wp = entry.1;
                let code = entity_index_of(&wp.entity);
                self.slot_keys_by_entity.set(code, None);
                proof {
                    assert forall|e: GameEntity| #[trigger]
                        self.slot_keys_by_entity@[entity_index(e)] is Some implies {
                            let k = self.slot_keys_by_entity@[entity_index(e)]->Some_0;
                            &&& self.index.entries().contains_key(k.index)
                            &&& self.index.entries()[k.index].1.entity == e
                        } by {
                        assert(old_self.slot_keys_by_entity@[entity_index(e)] is Some);
                        assert(e != wp.entity);
                    }
                    assert(self.slots() =~= old_self.slots().remove(*key));
                    assert(self.entity_keys() =~= old_self.entity_keys().remove(wp.entity));
                }
                Some(wp.location)
            },
        }
    }

    /// The kinds of the entities whose location holds `point`, one per
    /// entity, in the order the spatial index hands them out.
    pub fn get_entities_at(&self, point: &IPoint) -> (found: Vec<GameEntity>)
        requires
            self.wf(),
        ensures
            self.lists_entities_at(*point, found@),
    {
        let candidates = self.index.keys_at(point);
        let mut found: Vec<GameEntity> = Vec::new();
        let ghost mut keys: Seq<GameEntitySlotKey> = Seq::empty();
        let mut i: usize = 0;
        while i < candidates.len()
            invariant
                self.wf(),
                i <= candidates@.len(),
                lists_windows_at(self.index.entries(), *point, candidates@),
                keys.len() == found@.len(),
                forall|j: int|
                    0 <= j < keys.len() ==> self.slots().contains_key(#[trigger] keys[j])
                        && found@[j] == self.slots()[keys[j]].entity
                        && self.slots()[keys[j]].location.holds_point(*point),
                forall|j: int|
                    0 <= j < keys.len() ==> exists|m: int|
                        0 <= m < i && #[trigger] candidates@[m] == (#[trigger] keys[j]).index,
                forall|m: int|
                    0 <= m < i ==> ({
                        let k = GameEntitySlotKey { index: #[trigger] candidates@[m] };
                        self.slots()[k].location.holds_point(*point) ==> keys.contains(k)
                    }),
                keys.no_duplicates(),
            decreases candidates@.len() - i,
        {
            let slot = candidates[i];
            let ghost key = GameEntitySlotKey { index: slot };
            match self.index.get(slot) {
                Some(entry) => {
                    if entry.1.location.contains_point(point) {
                        proof {
                            if keys.contains(key) {
                                let j = choose|j: int| 0 <= j < keys.len() && keys[j] == key;
                                let m = choose|m: int| 0 <= m < i && #[trigger] candidates@[m] == keys[j].index;
                                assert(candidates@[m] == candidates@[i as int]);
                            }
                        }
                        found.push(entry.1.entity);
                        proof {
                            let old_keys = keys;
                            keys = keys.push(key);
                            assert forall|j: int| 0 <= j < keys.len() implies exists|m: int|
                                0 <= m < i + 1 && #[trigger] candidates@[m] == (#[trigger] keys[j]).index by {
                                if j < old_keys.len() {
                                    assert(keys[j] == old_keys[j]);
                                } else {
                                    assert(candidates@[i as int] == keys[j].index);
                                }
                            }
                            assert forall|m: int| 0 <= m < i + 1 implies ({
                                let k = GameEntitySlotKey { index: #[trigger] candidates@[m] };
                                self.slots()[k].location.holds_point(*point) ==> keys.contains(k)
                            }) by {
                                let k = GameEntitySlotKey { index: candidates@[m] };
                                if m < i {
                                    if old_keys.contains(k) {
                                        let j = choose|j: int| 0 <= j < old_keys.len() && old_keys[j] == k;
                                        assert(keys[j] == k);
                                    }
                                } else {
                                    assert(keys[keys.len() - 1] == k);
                                }
                            }
                        }
                    }
                },
                None => {},
            }
            i = i + 1;
        }
        proof {
            assert forall|k: GameEntitySlotKey|
                (self.slots().contains_key(k) && self.slots()[k].location.holds_point(*point))
                    implies #[trigger] keys.contains(k) by {
                let wp = self.index.entries()[k.index].1;
                assert(wp.window.holds_rect(wp.location));
                assert(self.index.entries()[k.index].0.holds_point(*point));
                assert(candidates@.contains(k.index));
                let m = choose|m: int| 0 <= m < candidates@.len() && candidates@[m] == k.index;
            }
            assert forall|k: GameEntitySlotKey| #[trigger] keys.contains(k) implies
                (self.slots().contains_key(k) && self.slots()[k].location.holds_point(*point)) by {
                let j = choose|j: int| 0 <= j < keys.len() && keys[j] == k;
            }
            assert(self.keys_listing_at(*point, keys, found@));
        }
        found
    }

    /// Another key can still be handed out.
    pub fn has_free_key(&self) -> (b: bool)
        ensures
            b == self.can_insert(),
    {
        self.index.has_free_key()
    }

    /// How many entities are held.
    pub fn slot_len(&self) -> (n: usize)
        requires
            self.wf(),
        ensures
            n == self.live_count(),
    {
        self.index.len()
    }

    /// How many elements the spatial index holds: one per held entity.
    pub fn spatial_index_len(&self) -> (n: usize)
        requires
            self.wf(),
        ensures
            n == self.live_count(),
    {
        self.index.index_len()
    }

    /// How many kinds of entity have a recorded last key.
    pub fn entity_index_len(&self) -> (n: usize)
        requires
            self.wf(),
        ensures
            n == self.entity_keys().dom().len(),
    {
        let n: usize = if self.slot_keys_by_entity[0].is_some() { 1 } else { 0 };
        proof {
            if self.slot_keys_by_entity@[0] is Some {
                assert(self.entity_keys().dom() =~= set![GameEntity::Player]);
            } else {
                assert(self.entity_keys().dom() =~= Set::<GameEntity>::empty());
            }
        }
        n
    }
}

/// All entities on the tile grid, with the window around each in a spatial
/// index, and the last key given to each kind of entity.
pub struct WorldService {
    state: WorldState,
}

impl WorldService {
    /// The entities held, by key.
    pub closed spec fn slots(self) -> Map<GameEntitySlotKey, WindowedPointer> {
        self.state.slots()
    }

    /// The key last given to each kind of entity, while the entity it names
    /// is still held.
    pub closed spec fn entity_keys(self) -> Map<GameEntity, GameEntitySlotKey> {
        self.state.entity_keys()
    }

    /// How many entities are held.
    pub closed spec fn live_count(self) -> nat {
        self.state.live_count()
    }

    /// How many keys have been handed out.
    pub closed spec fn keys_issued(self) -> nat {
        self.state.keys_issued()
    }

    /// Another key can still be handed out.
    pub open spec fn can_insert(self) -> bool {
        self.keys_issued() < usize::MAX
    }

    /// The service's internal consistency: the spatial index holds each
    /// entity under its window, every entity is well placed, and each
    /// recorded last key names a held entity of its kind. Every service
    /// keeps it.
    #[verifier::type_invariant]
    pub closed spec fn wf(self) -> bool {
        self.state.wf()
    }

    /// `keys` lists, without repetition, exactly the held entities whose
    /// location holds `point`, and `found` lists their kinds in the same order.
    pub open spec fn keys_listing_at(
        self,
        point: IPoint,
        keys: Seq<GameEntitySlotKey>,
        found: Seq<GameEntity>,
    ) -> bool {
        &&& keys.len() == found.len()
        &&& keys.no_duplicates()
        &&& forall|i: int|
            0 <= i < keys.len() ==> self.slots().contains_key(#[trigger] keys[i]) && found[i]
                == self.slots()[keys[i]].entity
        &&& forall|k: GameEntitySlotKey|
            (self.slots().contains_key(k) && self.slots()[k].location.holds_point(point))
                <==> #[trigger] keys.contains(k)
    }

    /// `found` lists the kinds of exactly the held entities whose location
    /// holds `point`, one per entity, in some order.
    pub open spec fn lists_entities_at(self, point: IPoint, found: Seq<GameEntity>) -> bool {
        exists|keys: Seq<GameEntitySlotKey>| self.keys_listing_at(point, keys, found)
    }

    /// An empty world.
    pub fn new() -> (s: WorldService)
        ensures
            s.wf(),
            s.slots() == Map::<GameEntitySlotKey, WindowedPointer>::empty(),
            s.entity_keys() == Map::<GameEntity, GameEntitySlotKey>::empty(),
            s.live_count() == 0,
            s.keys_issued() == 0,
    {
        WorldService { state: WorldState::new() }
    }

    /// Take the state out for a change, leaving an empty one in its place.
    fn take_state(&mut self) -> (state: WorldState)
        ensures
            state == old(self).state,
            state.wf(),
    {
        proof {
            use_type_invariant(&*self);
        }
        let mut state = WorldState::new();
        core::mem::swap(&mut state, &mut self.state);
        state
    }

    /// Put a state back.
    fn put_state(&mut self, state: WorldState)
        requires
            state.wf(),
        ensures
            final(self).state == state,
    {
        let mut state = state;
        core::mem::swap(&mut state, &mut self.state);
    }

    /// Place entity `e` at `location`, and return the new key for it. The key
    /// becomes the last key of its kind.
    pub fn insert(&mut self, e: GameEntity, location: IPoint) -> (key: GameEntitySlotKey)
        requires
            old(self).can_insert(),
            in_world(location),
        ensures
            final(self).wf(),
            !old(self).slots().contains_key(key),
            final(self).slots() == old(self).slots().insert(
                key,
                WindowedPointer::placed(e, location),
            ),
            final(self).entity_keys() == old(self).entity_keys().insert(e, key),
            final(self).live_count() == old(self).live_count() + 1,
            final(self).keys_issued() == old(self).keys_issued() + 1,
    {
        let mut state = self.take_state();
        let key = state.insert(e, location);
        self.put_state(state);
        key
    }

    /// Where the entity with the given key is, if it is held.
    pub fn get_by_key(&self, key: &GameEntitySlotKey) -> (r: Option<IRect>)
        ensures
            r == if self.slots().contains_key(*key) {
                Some(self.slots()[*key].location)
            } else {
                None::<IRect>
            },
    {
        proof {
            use_type_invariant(self);
        }
        self.state.get_by_key(key)
    }

    /// The window around the entity with the given key, if it is held.
    pub fn window_of(&self, key: &GameEntitySlotKey) -> (r: Option<IRect>)
        ensures
            r == if self.slots().contains_key(*key) {
                Some(self.slots()[*key].window)
            } else {
                None::<IRect>
            },
    {
        proof {
            use_type_invariant(self);
        }
        self.state.window_of(key)
    }

    /// The last key given to the entity kind and where that entity is, if
    /// it is still held.
    pub fn get_by_entity(&self, entity: &GameEntity) -> (r: Option<(GameEntitySlotKey, IRect)>)
        ensures
            r == if self.entity_keys().contains_key(*entity) {
                Some(
                    (
                        self.entity_keys()[*entity],
                        self.slots()[self.entity_keys()[*entity]].location,
                    ),
                )
            } else {
                None::<(GameEntitySlotKey, IRect)>
            },
            self.entity_keys().contains_key(*entity) ==> self.slots().contains_key(
                self.entity_keys()[*entity],
            ),
    {
        proof {
            use_type_invariant(self);
        }
        self.state.get_by_entity(entity)
    }

    /// Move the location of the entity with the given key to `new_location`;
    /// when the location leaves its window, the window is recentered and the
    /// spatial index updated. An unknown key changes nothing.
    pub fn move_by_key(&mut self, key: &GameEntitySlotKey, new_location: IPoint)
        requires
            in_world(new_location),
        ensures
            final(self).wf(),
            final(self).slots() == if old(self).slots().contains_key(*key) {
                old(self).slots().insert(*key, old(self).slots()[*key].moved_to(new_location))
            } else {
                old(self).slots()
            },
            final(self).entity_keys() == old(self).entity_keys(),
            final(self).live_count() == old(self).live_count(),
            final(self).keys_issued() == old(self).keys_issued(),
    {
        let mut state = self.take_state();
        state.move_by_key(key, new_location);
        self.put_state(state);
    }

    /// Take out the entity with the given key and return where it was. The
    /// last key of its kind is forgotten too. An unknown key changes nothing.
    pub fn remove_by_key(&mut self, key: &GameEntitySlotKey) -> (r: Option<IRect>)
        ensures
            final(self).wf(),
            r == if old(self).slots().contains_key(*key) {
                Some(old(self).slots()[*key].location)
            } else {
                None::<IRect>
            },
            final(self).slots() == old(self).slots().remove(*key),
            final(self).entity_keys() == if old(self).slots().contains_key(*key) {
                old(self).entity_keys().remove(old(self).slots()[*key].entity)
            } else {
                old(self).entity_keys()
            },
            final(self).live_count() == if old(self).slots().contains_key(*key) {
                (old(self).live_count() - 1) as nat
            } else {
                old(self).live_count()
            },
            final(self).keys_issued() == old(self).keys_issued(),
    {
        let mut state = self.take_state();
        let r = state.remove_by_key(key);
        self.put_state(state);
        r
    }

    /// The kinds of the entities whose location holds `point`, one per
    /// entity, in the order the spatial index hands them out.
    pub fn get_entities_at(&self, point: &IPoint) -> (found: Vec<GameEntity>)
        ensures
            self.lists_entities_at(*point, found@),
    {
        proof {
            use_type_invariant(self);
        }
        let found = self.state.get_entities_at(point);
        proof {
            let keys = choose|keys: Seq<GameEntitySlotKey>| self.state.keys_listing_at(*point, keys, found@);
            assert(self.keys_listing_at(*point, keys, found@));
        }
        found
    }

    /// Another key can still be handed out.
    pub fn has_free_key(&self) -> (b: bool)
        ensures
            b == self.can_insert(),
    {
        self.state.has_free_key()
    }

    /// How many entities are held.
    pub fn slot_len(&self) -> (n: usize)
        ensures
            n == self.live_count(),
    {
        proof {
            use_type_invariant(self);
        }
        self.state.slot_len()
    }

    /// How many elements the spatial index holds: one per held entity.
    pub fn spatial_index_len(&self) -> (n: usize)
        ensures
            n == self.live_count(),
    {
        proof {
            use_type_invariant(self);
        }
        self.state.spatial_index_len()
    }

    /// How many kinds of entity have a recorded last key.
    pub fn entity_index_len(&self) -> (n: usize)
        ensures
            n == self.entity_keys().dom().len(),
    {
        proof {
            use_type_invariant(self);
        }
        self.state.entity_index_len()
    }
}

/// Every held entity covers exactly one cell, inside the world, and its
/// window holds that cell.
pub proof fn lemma_window_holds_location(s: WorldService)
    requires
        s.wf(),
    ensures
        forall|k: GameEntitySlotKey| #[trigger]
            s.slots().contains_key(k) ==> s.slots()[k].well_placed(),
{
    assert forall|k: GameEntitySlotKey| #[trigger] s.slots().contains_key(k) implies s.slots()[k].well_placed() by {
        assert(s.state.index.entries().contains_key(k.index));
    }
}

/// The last key recorded for a kind of entity always names a held entity
/// of that kind.
pub proof fn lemma_entity_keys_name_held_entities(s: WorldService)
    requires
        s.wf(),
    ensures
        forall|e: GameEntity| #[trigger]
            s.entity_keys().contains_key(e) ==> s.slots().contains_key(s.entity_keys()[e])
                && s.slots()[s.entity_keys()[e]].entity == e,
{
}

/// What is read back of a placement: the entity placed at `p` covers the
/// single cell `p`, and its window holds that cell.
pub proof fn lemma_read_after_insert(
    before: WorldService,
    after: WorldService,
    e: GameEntity,
    p: IPoint,
    key: GameEntitySlotKey,
)
    requires
        in_world(p),
        after.slots() == before.slots().insert(key, WindowedPointer::placed(e, p)),
    ensures
        after.slots().contains_key(key),
        after.slots()[key].entity == e,
        after.slots()[key].location == unit_rect_at(p),
        after.slots()[key].location.holds_point(p),
        after.slots()[key].window.holds_rect(after.slots()[key].location),
{
}

/// An entity placed at `p` is among those listed at `p`.
pub proof fn lemma_inserted_entity_is_listed(
    before: WorldService,
    after: WorldService,
    e: GameEntity,
    p: IPoint,
    key: GameEntitySlotKey,
    found: Seq<GameEntity>,
)
    requires
        in_world(p),
        after.slots() == before.slots().insert(key, WindowedPointer::placed(e, p)),
        after.lists_entities_at(p, found),
    ensures
        found.contains(e),
{
    let keys = choose|keys: Seq<GameEntitySlotKey>| after.keys_listing_at(p, keys, found);
    assert(keys.contains(key));
    let j = choose|j: int| 0 <= j < keys.len() && keys[j] == key;
    assert(found[j] == e);
}

/// A held entity whose cell is not `p` is named by no listing at `p`.
pub proof fn lemma_listing_is_exact(
    s: WorldService,
    p: IPoint,
    found: Seq<GameEntity>,
    k: GameEntitySlotKey,
)
    requires
        s.lists_entities_at(p, found),
        s.slots().contains_key(k),
        !s.slots()[k].location.holds_point(p),
    ensures
        forall|keys: Seq<GameEntitySlotKey>| #[trigger]
            s.keys_listing_at(p, keys, found) ==> !keys.contains(k),
{
}

/// Moving an entity keeps its window while the new cell lies in it;
/// otherwise the window is recentered on the new cell. Either way the
/// window holds the entity's cell afterwards.
pub proof fn lemma_move_keeps_window_around_location(wp: WindowedPointer, p: IPoint)
    requires
        wp.well_placed(),
        in_world(p),
    ensures
        wp.moved_to(p).location == unit_rect_at(p),
        wp.moved_to(p).window.holds_rect(wp.moved_to(p).location),
        wp.window.holds_rect(unit_rect_at(p)) ==> wp.moved_to(p).window == wp.window,
        !wp.window.holds_rect(unit_rect_at(p)) ==> wp.moved_to(p).window == unit_rect_at(
            p,
        ).expanded(windowed_offset(wp.entity)),
{
}

/// Removing the entity that was just placed gives back the entities held
/// before the placement.
pub proof fn lemma_remove_undoes_insert(
    before: WorldService,
    after_insert: WorldService,
    after_remove: WorldService,
    e: GameEntity,
    p: IPoint,
    key: GameEntitySlotKey,
)
    requires
        !before.slots().contains_key(key),
        after_insert.slots() == before.slots().insert(key, WindowedPointer::placed(e, p)),
        after_remove.slots() == after_insert.slots().remove(key),
    ensures
        after_remove.slots() == before.slots(),
{
    assert(after_remove.slots() =~= before.slots());
}

} // verus!
