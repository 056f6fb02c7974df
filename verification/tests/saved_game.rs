use enchantron_core::entity::{Entity, EntityData, EntityType, LocationKey, Player, SlotMapKeyData};
use enchantron_core::location_index::LocationIndex;
use enchantron_core::model::{IPoint, IRect};
use enchantron_core::saved_game::SavedGame;

#[test]
fn new_saved_game_holds_the_player() {
    let player_entity = Entity::Player(SlotMapKeyData { index: 0 });
    let key = LocationKey { index: 0 };
    let g: SavedGame<(Entity, u32), &str> = SavedGame::new(42, |e| (e, 7), "idle");
    assert_eq!(42, g.seed);
    assert_eq!(0, g.elapsed_millis);
    assert_eq!(Player { entity: player_entity, location_key: key }, g.player);
    assert_eq!(
        vec![Some(EntityData {
            entity_type: EntityType::Player,
            entity: Some(player_entity),
            location_key: Some(key),
        })],
        g.entities
    );
    assert_eq!(1, g.locations.len());
    let loc = g.locations[0].as_ref().unwrap();
    assert_eq!(player_entity, loc.entity);
    assert_eq!(IRect::new(-9, -9, 18, 18), loc.window);
    assert_eq!((player_entity, 7), loc.value);
    assert_eq!(vec![(player_entity, "idle")], g.player_presenter_states);
}

#[test]
fn new_saved_game_locations_load_into_an_index() {
    let g: SavedGame<u8, ()> = SavedGame::new(1, |_e| 3, ());
    let index = LocationIndex::from_slots(g.locations);
    let (key, entry) = index.get_by_entity(&g.player.entity).unwrap();
    assert_eq!(g.player.location_key, key);
    assert_eq!(3, entry.value);
    assert_eq!(vec![key], index.keys_at(&IPoint::new(-9, -9)));
    assert_eq!(vec![key], index.keys_at(&IPoint::new(8, 8)));
    assert!(index.keys_at(&IPoint::new(9, 9)).is_empty());
}
