//! The presenter service: the state kept for each player presenter, lent to
//! the presenter that runs the player and read back by the service.

use crate::entity::Entity;
use crate::entity_table::EntityTable;
use crate::handles::PresenterServiceLease;
use vstd::prelude::*;

verus! {

/// The map that a list of (entity, state) pairs builds when each pair is
/// inserted in turn: a later pair for the same entity replaces an earlier one.
pub open spec fn states_by_entity<S>(pairs: Seq<(Entity, S)>) -> Map<Entity, S>
    decreases pairs.len(),
{
    if pairs.len() == 0 {
        Map::empty()
    } else {
        states_by_entity(pairs.drop_last()).insert(pairs.last().0, pairs.last().1)
    }
}

/// Building the states from a list of pairs keeps a state exactly for the
/// entities the list names.
pub proof fn lemma_states_of_named_entities<S>(pairs: Seq<(Entity, S)>, e: Entity)
    ensures
        states_by_entity(pairs).contains_key(e) <==> exists|i: int|
            0 <= i < pairs.len() && #[trigger] pairs[i].0 == e,
    decreases pairs.len(),
{
    if pairs.len() > 0 {
        let rest = pairs.drop_last();
        lemma_states_of_named_entities(rest, e);
        if states_by_entity(rest).contains_key(e) {
            let i = choose|i: int| 0 <= i < rest.len() && #[trigger] rest[i].0 == e;
            assert(pairs[i].0 == e);
        }
        if exists|i: int| 0 <= i < pairs.len() && #[trigger] pairs[i].0 == e {
            let i = choose|i: int| 0 <= i < pairs.len() && #[trigger] pairs[i].0 == e;
            if i < rest.len() {
                assert(rest[i].0 == e);
            }
        }
    }
}

/// The state kept for an entity is that of the last pair naming it.
pub proof fn lemma_last_state_wins<S>(pairs: Seq<(Entity, S)>, e: Entity, i: int)
    requires
        0 <= i < pairs.len(),
        pairs[i].0 == e,
        forall|j: int| i < j < pairs.len() ==> #[trigger] pairs[j].0 != e,
    ensures
        states_by_entity(pairs).contains_key(e),
        states_by_entity(pairs)[e] == pairs[i].1,
    decreases pairs.len(),
{
    if i < pairs.len() - 1 {
        let rest = pairs.drop_last();
        assert(pairs[pairs.len() - 1].0 != e);
        assert forall|j: int| i < j < rest.len() implies #[trigger] rest[j].0 != e by {
            assert(rest[j] == pairs[j]);
        }
        lemma_last_state_wins(rest, e, i);
    }
}

/// The state of each player presenter, by entity.
pub struct PresenterService<S> {
    player_presenter_states: EntityTable<S>,
}

impl<S> PresenterService<S> {
    /// The state of each player presenter, by entity.
    pub closed spec fn states(self) -> Map<Entity, S> {
        self.player_presenter_states@
    }

    /// A service holding the given states; a later state for an entity
    /// replaces an earlier one.
    pub fn new(player_presenter_states: Vec<(Entity, S)>) -> (s: PresenterService<S>)
        ensures
            s.states() == states_by_entity(player_presenter_states@),
    {
        let mut input = player_presenter_states;
        let ghost pairs = input@;
        let mut taken: Vec<(Entity, S)> = Vec::new();
        // `input` is emptied from the back into `taken`, which then hands
        // the pairs out in the order they were given.
        while input.len() > 0
            invariant
                input@ + taken@.reverse() == pairs,
            decreases input@.len(),
        {
            let last = input.pop().unwrap();
            taken.push(last);
            proof {
                assert(input@ + taken@.reverse() =~= pairs);
            }
        }
        assert(taken@.reverse() =~= pairs);
        let mut states = EntityTable::new();
        while taken.len() > 0
            invariant
                states.wf(),
                states@ == states_by_entity(pairs.take(pairs.len() - taken@.len())),
                taken@.reverse() =~= pairs.skip(pairs.len() - taken@.len()),
                taken@.len() <= pairs.len(),
            decreases taken@.len(),
        {
            let ghost done = pairs.len() - taken@.len();
            let ghost old_taken = taken@;
            let pair = taken.pop().unwrap();
            proof {
                assert(pair == pairs[done]) by {
                    assert(pairs.skip(done)[0] == pairs[done]);
                }
                assert(pairs.take(done + 1).drop_last() =~= pairs.take(done));
                assert(pairs.take(done + 1).last() == pairs[done]);
                assert forall|k: int| 0 <= k < taken@.len() implies #[trigger] taken@.reverse()[k]
                    == pairs.skip(done + 1)[k] by {
                    assert(taken@.reverse()[k] == old_taken.reverse()[k + 1]);
                    assert(old_taken.reverse()[k + 1] == pairs.skip(done)[k + 1]);
                }
                assert(taken@.reverse() =~= pairs.skip(done + 1));
            }
            let (entity, state) = pair;
            states.insert(entity, state);
        }
        proof {
            assert(pairs.take(pairs.len() as int) =~= pairs);
        }
        PresenterService { player_presenter_states: states }
    }

    /// A loan of the state kept for the given entity, if there is one.
    pub fn rent_player_presenter_state(&mut self, player_entity: &Entity) -> (r: Option<PresenterServiceLease<'_, S>>)
        ensures
            r is Some == old(self).states().contains_key(*player_entity),
            r is Some ==> *r->Some_0.loaned == old(self).states()[*player_entity]
                && final(self).states() == old(self).states().insert(
                *player_entity,
                *final(r->Some_0.loaned),
            ),
            r is None ==> final(self).states() == old(self).states(),
    {
        match self.player_presenter_states.get_mut(player_entity) {
            Some(state) => Some(PresenterServiceLease::new(state)),
            None => None,
        }
    }
}

impl<S: Copy> PresenterService<S> {
    /// A copy of the state kept for the given entity, if there is one.
    pub fn get_player_presenter_state(&self, player_entity: Entity) -> (r: Option<S>)
        ensures
            r == if self.states().contains_key(player_entity) {
                Some(self.states()[player_entity])
            } else {
                None::<S>
            },
    {
        match self.player_presenter_states.get(&player_entity) {
            Some(state) => Some(*state),
            None => None,
        }
    }
}

} // verus!
