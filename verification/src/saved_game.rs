//! A game as it is stored: its seed, the time played, the player, and the
//! slots of its entities and of their locations.

use crate::entity::{Entity, EntityData, EntityType, LocationKey, Player, SlotMapKeyData};
use crate::location_index::LocatedEntry;
use crate::model::{IPoint, IRect, ISize};
use vstd::prelude::*;

verus! {

/// A stored game. Slot `i` of `entities` holds the data of the entity whose
/// key data has index `i`; slot `i` of `locations` holds the location under
/// the key numbered `i`.
pub struct SavedGame<L, S> {
    pub seed: u64,
    pub elapsed_millis: u64,
    pub player: Player,
    pub entities: Vec<Option<EntityData>>,
    pub locations: Vec<Option<LocatedEntry<L>>>,
    pub player_presenter_states: Vec<(Entity, S)>,
}

/// The player of a new game: the entity in the first slot.
pub open spec fn new_game_player_entity() -> Entity {
    Entity::Player(SlotMapKeyData { index: 0 })
}

/// The key of the player's location in a new game: the first one.
pub open spec fn new_game_location_key() -> LocationKey {
    LocationKey { index: 0 }
}

/// The window around the player's starting location.
pub open spec fn starting_window() -> IRect {
    IRect { top_left: IPoint { x: -9i64, y: -9i64 }, size: ISize { width: 18usize, height: 18usize } }
}

impl<L, S> SavedGame<L, S> {
    /// A new game with the given seed and no time played. Its one entity is
    /// the player, whose data names both the player entity and its location
    /// key; its one location is what `locate_player` gives for the player,
    /// held in the starting window; the player's presenter starts in
    /// `presenter_state`.
    pub fn new<F: FnOnce(Entity) -> L>(seed: u64, locate_player: F, presenter_state: S) -> (g: Self)
        requires
            call_requires(locate_player, (new_game_player_entity(),)),
        ensures
            g.seed == seed,
            g.elapsed_millis == 0,
            g.player == (Player { entity: new_game_player_entity(), location_key: new_game_location_key() }),
            g.entities@ == seq![
                Some(
                    EntityData {
                        entity_type: EntityType::Player,
                        entity: Some(new_game_player_entity()),
                        location_key: Some(new_game_location_key()),
                    },
                ),
            ],
            g.locations@.len() == 1,
            g.locations@[0] is Some,
            g.locations@[0]->Some_0.entity == new_game_player_entity(),
            g.locations@[0]->Some_0.window == starting_window(),
            call_ensures(locate_player, (new_game_player_entity(),), g.locations@[0]->Some_0.value),
            g.player_presenter_states@ == seq![(new_game_player_entity(), presenter_state)],
    {
        let mut player_data = EntityData::default_for_type(EntityType::Player);
        let player_entity = Entity::Player(SlotMapKeyData { index: 0 });

        let window = IRect::new(-9, -9, 18, 18);
        let location = locate_player(player_entity);
        let mut locations: Vec<Option<LocatedEntry<L>>> = Vec::new();
        locations.push(Some(LocatedEntry { entity: player_entity, window, value: location }));
        let location_key = LocationKey { index: 0 };

        player_data.entity = Some(player_entity);
        player_data.location_key = Some(location_key);
        let player = Player::from_entity_data(&player_data);
        let mut entities: Vec<Option<EntityData>> = Vec::new();
        entities.push(Some(player_data));

        let mut player_presenter_states: Vec<(Entity, S)> = Vec::new();
        player_presenter_states.push((player_entity, presenter_state));

        SavedGame { seed, elapsed_millis: 0, player, entities, locations, player_presenter_states }
    }
}

} // verus!
