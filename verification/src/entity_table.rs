//! A table from entities to values, kept as a list of pairs that names each
//! entity at most once.

use crate::entity::Entity;
use vstd::prelude::*;

verus! {

/// The pairs name each entity at most once.
pub open spec fn entities_unique<V>(pairs: Seq<(Entity, V)>) -> bool {
    forall|i: int, j: int|
        0 <= i < pairs.len() && 0 <= j < pairs.len() && i != j ==> #[trigger] pairs[i].0
            != #[trigger] pairs[j].0
}

/// The map that pairs naming each entity at most once describe.
pub open spec fn pairs_as_map<V>(pairs: Seq<(Entity, V)>) -> Map<Entity, V> {
    Map::new(
        |e: Entity| exists|i: int| 0 <= i < pairs.len() && #[trigger] pairs[i].0 == e,
        |e: Entity| pairs[choose|i: int| 0 <= i < pairs.len() && #[trigger] pairs[i].0 == e].1,
    )
}

/// In pairs naming each entity at most once, the pair at `i` is what the
/// map holds for its entity.
proof fn lemma_pair_in_map<V>(pairs: Seq<(Entity, V)>, i: int)
    requires
        entities_unique(pairs),
        0 <= i < pairs.len(),
    ensures
        pairs_as_map(pairs).contains_key(pairs[i].0),
        pairs_as_map(pairs)[pairs[i].0] == pairs[i].1,
{
    let e = pairs[i].0;
    let j = choose|j: int| 0 <= j < pairs.len() && #[trigger] pairs[j].0 == e;
    assert(j == i);
}

/// Giving the pair at `i` a new value keeps the entities unique and sets
/// the value its entity maps to.
proof fn lemma_replace_value<V>(pairs: Seq<(Entity, V)>, i: int, v: V)
    requires
        entities_unique(pairs),
        0 <= i < pairs.len(),
    ensures
        entities_unique(pairs.update(i, (pairs[i].0, v))),
        pairs_as_map(pairs.update(i, (pairs[i].0, v))) == pairs_as_map(pairs).insert(pairs[i].0, v),
{
    let updated = pairs.update(i, (pairs[i].0, v));
    assert forall|a: int, b: int|
        0 <= a < updated.len() && 0 <= b < updated.len() && a != b implies #[trigger] updated[a].0
        != #[trigger] updated[b].0 by {
        assert(updated[a].0 == pairs[a].0);
        assert(updated[b].0 == pairs[b].0);
    }
    assert forall|e: Entity|
        #[trigger] pairs_as_map(updated).contains_key(e) == pairs_as_map(pairs).contains_key(e) by {
        if pairs_as_map(pairs).contains_key(e) {
            let j = choose|j: int| 0 <= j < pairs.len() && #[trigger] pairs[j].0 == e;
            assert(updated[j].0 == e);
        }
        if pairs_as_map(updated).contains_key(e) {
            let j = choose|j: int| 0 <= j < updated.len() && #[trigger] updated[j].0 == e;
            assert(pairs[j].0 == e);
        }
    }
    assert forall|e: Entity| #[trigger]
        pairs_as_map(updated).contains_key(e) implies pairs_as_map(updated)[e]
        == pairs_as_map(pairs).insert(pairs[i].0, v)[e] by {
        let j = choose|j: int| 0 <= j < updated.len() && #[trigger] updated[j].0 == e;
        lemma_pair_in_map(updated, j);
        assert(pairs[j].0 == e);
        lemma_pair_in_map(pairs, j);
    }
    lemma_pair_in_map(pairs, i);
    assert(pairs_as_map(updated) =~= pairs_as_map(pairs).insert(pairs[i].0, v));
}

/// Where `entity` stands in the pairs, if anywhere.
fn position_of<V>(pairs: &Vec<(Entity, V)>, entity: &Entity) -> (r: Option<usize>)
    ensures
        match r {
            Some(i) => i < pairs@.len() && pairs@[i as int].0 == *entity,
            None => forall|j: int| 0 <= j < pairs@.len() ==> #[trigger] pairs@[j].0 != *entity,
        },
    no_unwind
{
    let mut i: usize = 0;
    while i < pairs.len()
        invariant
            i <= pairs@.len(),
            forall|j: int| 0 <= j < i ==> #[trigger] pairs@[j].0 != *entity,
        decreases pairs@.len() - i,
    {
        if pairs[i].0 == *entity {
            return Some(i);
        }
        i = i + 1;
    }
    None
}

/// The pairs behind an entity table.
struct EntityPairs<V> {
    pairs: Vec<(Entity, V)>,
}

impl<V> View for EntityPairs<V> {
    type V = Map<Entity, V>;

    closed spec fn view(&self) -> Map<Entity, V> {
        pairs_as_map(self.pairs@)
    }
}

impl<V> EntityPairs<V> {
    /// The table names each entity at most once.
    pub closed spec fn wf(self) -> bool {
        entities_unique(self.pairs@)
    }

    /// An empty table.
    pub fn new() -> (t: EntityPairs<V>)
        ensures
            t.wf(),
            t@ == Map::<Entity, V>::empty(),
    {
        let t = EntityPairs { pairs: Vec::new() };
        assert(t@ =~= Map::<Entity, V>::empty());
        t
    }

    /// The value held for `entity`, if there is one.
    pub fn get(&self, entity: &Entity) -> (r: Option<&V>)
        requires
            self.wf(),
        ensures
            r is Some == self@.contains_key(*entity),
            r is Some ==> *r->Some_0 == self@[*entity],
    {
        match position_of(&self.pairs, entity) {
            Some(i) => {
                proof {
                    lemma_pair_in_map(self.pairs@, i as int);
                }
                Some(&self.pairs[i].1)
            },
            None => None,
        }
    }

    /// Write access to the value held for `entity`, if there is one.
    pub fn get_mut(&mut self, entity: &Entity) -> (r: Option<&mut V>)
        requires
            old(self).wf(),
        ensures
            r is Some == old(self)@.contains_key(*entity),
            r is Some ==> *r->Some_0 == old(self)@[*entity] && final(self)@ == old(self)@.insert(*entity, *final(r->Some_0)),
            r is None ==> final(self)@ == old(self)@,
            final(self).wf(),
        no_unwind
    {
        match position_of(&self.pairs, entity) {
            Some(i) => {
                proof {
                    lemma_pair_in_map(self.pairs@, i as int);
                }
                let value = &mut self.pairs[i].1;
                proof {
                    lemma_replace_value(old(self).pairs@, i as int, *final(value));
                }
                Some(value)
            },
            None => None,
        }
    }

    /// Hold `value` for `entity`, replacing what was held for it.
    pub fn insert(&mut self, entity: Entity, value: V)
        requires
            old(self).wf(),
        ensures
            final(self).wf(),
            final(self)@ == old(self)@.insert(entity, value),
    {
        let ghost old_pairs = self.pairs@;
        let ghost mut at: int = 0;
        match position_of(&self.pairs, &entity) {
            Some(i) => {
                self.pairs.set(i, (entity, value));
                proof {
                    at = i as int;
                }
            },
            None => {
                self.pairs.push((entity, value));
                proof {
                    at = old_pairs.len() as int;
                }
            },
        }
        proof {
            let pairs = self.pairs@;
            assert forall|a: int, b: int|
                0 <= a < pairs.len() && 0 <= b < pairs.len() && a != b implies #[trigger] pairs[a].0
                != #[trigger] pairs[b].0 by {
                if a < old_pairs.len() && b < old_pairs.len() {
                    assert(old_pairs[a].0 == pairs[a].0);
                    assert(old_pairs[b].0 == pairs[b].0);
                }
            }
            assert forall|e: Entity|
                #[trigger] pairs_as_map(pairs).contains_key(e) == map_with(
                    old_pairs,
                    entity,
                    value,
                ).contains_key(e) by {
                if pairs_as_map(old_pairs).contains_key(e) {
                    let j = choose|j: int| 0 <= j < old_pairs.len() && #[trigger] old_pairs[j].0 == e;
                    assert(pairs[j].0 == e);
                }
                if pairs_as_map(pairs).contains_key(e) {
                    let j = choose|j: int| 0 <= j < pairs.len() && #[trigger] pairs[j].0 == e;
                    if j < old_pairs.len() && e != entity {
                        assert(old_pairs[j].0 == e);
                    }
                }
                if e == entity {
                    assert(pairs[at].0 == e);
                }
            }
            assert forall|e: Entity| #[trigger]
                pairs_as_map(pairs).contains_key(e) implies pairs_as_map(pairs)[e]
                == map_with(old_pairs, entity, value)[e] by {
                let j = choose|j: int| 0 <= j < pairs.len() && #[trigger] pairs[j].0 == e;
                lemma_pair_in_map(pairs, j);
                if e != entity {
                    assert(old_pairs[j].0 == e);
                    lemma_pair_in_map(old_pairs, j);
                }
            }
            assert(pairs_as_map(pairs) =~= map_with(old_pairs, entity, value));
        }
    }

    /// Stop holding a value for `entity`, and hand back the one held.
    pub fn remove(&mut self, entity: &Entity) -> (r: Option<V>)
        requires
            old(self).wf(),
        ensures
            final(self).wf(),
            final(self)@ == old(self)@.remove(*entity),
            r is Some == old(self)@.contains_key(*entity),
            r is Some ==> r->Some_0 == old(self)@[*entity],
    {
        let ghost old_pairs = self.pairs@;
        match position_of(&self.pairs, entity) {
            Some(i) => {
                let (_, value) = self.pairs.remove(i);
                proof {
                    lemma_pair_in_map(old_pairs, i as int);
                    let pairs = self.pairs@;
                    assert forall|a: int| 0 <= a < pairs.len() implies #[trigger] pairs[a] == old_pairs[if a < i { a } else { a + 1 }] by {
                    }
                    assert forall|a: int, b: int|
                        0 <= a < pairs.len() && 0 <= b < pairs.len() && a != b implies #[trigger] pairs[a].0
                        != #[trigger] pairs[b].0 by {
                        let oa = if a < i { a } else { a + 1 };
                        let ob = if b < i { b } else { b + 1 };
                        assert(pairs[a] == old_pairs[oa]);
                        assert(pairs[b] == old_pairs[ob]);
                    }
                    assert forall|e: Entity|
                        #[trigger] pairs_as_map(pairs).contains_key(e) == pairs_as_map(old_pairs).remove(*entity).contains_key(e) by {
                        if pairs_as_map(old_pairs).contains_key(e) && e != *entity {
                            let j = choose|j: int| 0 <= j < old_pairs.len() && #[trigger] old_pairs[j].0 == e;
                            assert(j != i);
                            let a = if j < i { j } else { j - 1 };
                            assert(pairs[a] == old_pairs[j]);
                        }
                        if pairs_as_map(pairs).contains_key(e) {
                            let a = choose|a: int| 0 <= a < pairs.len() && #[trigger] pairs[a].0 == e;
                            let oa = if a < i { a } else { a + 1 };
                            assert(pairs[a] == old_pairs[oa]);
                            assert(old_pairs[oa].0 == e);
                        }
                    }
                    assert forall|e: Entity| #[trigger]
                        pairs_as_map(pairs).contains_key(e) implies pairs_as_map(pairs)[e]
                        == pairs_as_map(old_pairs).remove(*entity)[e] by {
                        let a = choose|a: int| 0 <= a < pairs.len() && #[trigger] pairs[a].0 == e;
                        let oa = if a < i { a } else { a + 1 };
                        assert(pairs[a] == old_pairs[oa]);
                        lemma_pair_in_map(pairs, a);
                        lemma_pair_in_map(old_pairs, oa);
                    }
                    assert(pairs_as_map(pairs) =~= pairs_as_map(old_pairs).remove(*entity));
                }
                Some(value)
            },
            None => {
                proof {
                    assert(pairs_as_map(old_pairs).remove(*entity) =~= pairs_as_map(old_pairs));
                }
                None
            },
        }
    }

    /// How many entities have a value.
    pub fn len(&self) -> (n: usize)
        requires
            self.wf(),
        ensures
            n == self@.dom().len(),
    {
        proof {
            let keys = self.pairs@.map_values(|p: (Entity, V)| p.0);
            assert(keys.no_duplicates()) by {
                assert forall|a: int, b: int| 0 <= a < keys.len() && 0 <= b < keys.len() && a != b implies keys[a] != keys[b] by {
                    assert(keys[a] == self.pairs@[a].0);
                    assert(keys[b] == self.pairs@[b].0);
                }
            }
            keys.unique_seq_to_set();
            assert forall|e: Entity| #[trigger] self@.dom().contains(e) == keys.to_set().contains(e) by {
                if self@.dom().contains(e) {
                    let j = choose|j: int| 0 <= j < self.pairs@.len() && #[trigger] self.pairs@[j].0 == e;
                    assert(keys[j] == e);
                }
                if keys.to_set().contains(e) {
                    let j = choose|j: int| 0 <= j < keys.len() && keys[j] == e;
                    assert(self.pairs@[j].0 == e);
                }
            }
            assert(self@.dom() =~= keys.to_set());
        }
        self.pairs.len()
    }
}


/// A value for each of some entities.
pub struct EntityTable<V> {
    state: EntityPairs<V>,
}

impl<V> View for EntityTable<V> {
    type V = Map<Entity, V>;

    closed spec fn view(&self) -> Map<Entity, V> {
        self.state@
    }
}

impl<V> EntityTable<V> {
    /// The table names each entity at most once. Every table keeps it.
    #[verifier::type_invariant]
    pub closed spec fn wf(self) -> bool {
        self.state.wf()
    }

    /// An empty table.
    pub fn new() -> (t: EntityTable<V>)
        ensures
            t.wf(),
            t@ == Map::<Entity, V>::empty(),
    {
        EntityTable { state: EntityPairs::new() }
    }

    /// Take the pairs out for a change, leaving none in their place.
    fn take_state(&mut self) -> (state: EntityPairs<V>)
        ensures
            state == old(self).state,
            state.wf(),
    {
        proof {
            use_type_invariant(&*self);
        }
        let mut state = EntityPairs::new();
        core::mem::swap(&mut state, &mut self.state);
        state
    }

    /// Put pairs back.
    fn put_state(&mut self, state: EntityPairs<V>)
        requires
            state.wf(),
        ensures
            final(self).state == state,
    {
        let mut state = state;
        core::mem::swap(&mut state, &mut self.state);
    }

    /// The value held for `entity`, if there is one.
    pub fn get(&self, entity: &Entity) -> (r: Option<&V>)
        ensures
            r is Some == self@.contains_key(*entity),
            r is Some ==> *r->Some_0 == self@[*entity],
    {
        proof {
            use_type_invariant(self);
        }
        self.state.get(entity)
    }

    /// Write access to the value held for `entity`, if there is one.
    pub fn get_mut(&mut self, entity: &Entity) -> (r: Option<&mut V>)
        ensures
            r is Some == old(self)@.contains_key(*entity),
            r is Some ==> *r->Some_0 == old(self)@[*entity] && final(self)@ == old(self)@.insert(*entity, *final(r->Some_0)),
            r is None ==> final(self)@ == old(self)@,
            final(self).wf(),
        no_unwind
    {
        proof {
            use_type_invariant(&*self);
        }
        self.state.get_mut(entity)
    }

    /// Hold `value` for `entity`, replacing what was held for it.
    pub fn insert(&mut self, entity: Entity, value: V)
        ensures
            final(self).wf(),
            final(self)@ == old(self)@.insert(entity, value),
    {
        let mut state = self.take_state();
        state.insert(entity, value);
        self.put_state(state);
    }

    /// Stop holding a value for `entity`, and hand back the one held.
    pub fn remove(&mut self, entity: &Entity) -> (r: Option<V>)
        ensures
            final(self).wf(),
            final(self)@ == old(self)@.remove(*entity),
            r is Some == old(self)@.contains_key(*entity),
            r is Some ==> r->Some_0 == old(self)@[*entity],
    {
        let mut state = self.take_state();
        let r = state.remove(entity);
        self.put_state(state);
        r
    }

    /// How many entities have a value.
    pub fn len(&self) -> (n: usize)
        ensures
            n == self@.dom().len(),
    {
        proof {
            use_type_invariant(self);
        }
        self.state.len()
    }
}

/// The map of `pairs` with `entity` set to `value`.
spec fn map_with<V>(pairs: Seq<(Entity, V)>, entity: Entity, value: V) -> Map<Entity, V> {
    pairs_as_map(pairs).insert(entity, value)
}

} // verus!
