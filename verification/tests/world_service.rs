use enchantron_core::model::{IPoint, IRect};
use enchantron_core::world_service::{
    get_windowed_offset_for, GameEntity, GameEntitySlotKey, WindowedPointer, WorldService,
    WORLD_COORDINATE_LIMIT,
};

fn create_service() -> WorldService {
    WorldService::new()
}

#[test]
fn world_service_test_crud() {
    let mut s = create_service();

    let key = s.insert(GameEntity::Player, IPoint::new(1, 1));

    let r = s.get_by_key(&key);

    assert_eq!(r, Some(IRect::new(1, 1, 1, 1)));

    assert_eq!(vec![GameEntity::Player], s.get_entities_at(&IPoint::new(1, 1)));

    s.move_by_key(&key, IPoint::new(2, 2));

    assert_eq!(Vec::<GameEntity>::new(), s.get_entities_at(&IPoint::new(1, 1)));

    assert_eq!(vec![GameEntity::Player], s.get_entities_at(&IPoint::new(2, 2)));

    let r = s.get_by_key(&key);

    assert_eq!(r, Some(IRect::new(2, 2, 1, 1)));

    assert_eq!(Some(IRect::new(2, 2, 1, 1)), s.remove_by_key(&key));

    assert_eq!(Vec::<GameEntity>::new(), s.get_entities_at(&IPoint::new(2, 2)));

    assert_eq!(None, s.get_by_key(&key));
    assert_eq!(None, s.get_by_entity(&GameEntity::Player));

    assert_eq!(0, s.entity_index_len());
    assert_eq!(0, s.slot_len());
    assert_eq!(0, s.spatial_index_len());
}

#[test]
fn world_service_test_movement_within_and_out_of_window() {
    let mut s = create_service();

    let key = s.insert(GameEntity::Player, IPoint::new(1, 1));

    let initial_window = s.window_of(&key).unwrap();

    s.move_by_key(&key, IPoint::new(2, 2));

    assert_eq!(vec![GameEntity::Player], s.get_entities_at(&IPoint::new(2, 2)));

    assert_eq!(initial_window, s.window_of(&key).unwrap());

    s.move_by_key(&key, IPoint::new(1000, 1000));

    assert_ne!(initial_window, s.window_of(&key).unwrap());

    assert_eq!(vec![GameEntity::Player], s.get_entities_at(&IPoint::new(1000, 1000)));
}

#[test]
fn world_window_reaches_eight_cells_past_the_player() {
    let mut s = create_service();
    let key = s.insert(GameEntity::Player, IPoint::new(1, 1));
    assert_eq!(Some(IRect::new(-7, -7, 17, 17)), s.window_of(&key));
    assert_eq!(8, get_windowed_offset_for(&GameEntity::Player));
}

#[test]
fn world_move_to_window_edge_keeps_window() {
    let mut s = create_service();
    let key = s.insert(GameEntity::Player, IPoint::new(0, 0));
    let window = s.window_of(&key).unwrap();
    s.move_by_key(&key, IPoint::new(8, -8));
    assert_eq!(Some(window), s.window_of(&key));
    s.move_by_key(&key, IPoint::new(9, 0));
    assert_eq!(Some(IRect::new(1, -8, 17, 17)), s.window_of(&key));
    assert_eq!(vec![GameEntity::Player], s.get_entities_at(&IPoint::new(9, 0)));
    assert_eq!(Vec::<GameEntity>::new(), s.get_entities_at(&IPoint::new(8, 0)));
}

#[test]
fn world_lists_every_entity_covering_a_cell() {
    let mut s = create_service();
    let first = s.insert(GameEntity::Player, IPoint::new(3, 4));
    let second = s.insert(GameEntity::Player, IPoint::new(3, 4));
    let third = s.insert(GameEntity::Player, IPoint::new(5, 4));
    assert_ne!(first, second);
    assert_eq!(3, s.slot_len());
    assert_eq!(3, s.spatial_index_len());
    assert_eq!(2, s.get_entities_at(&IPoint::new(3, 4)).len());
    assert_eq!(1, s.get_entities_at(&IPoint::new(5, 4)).len());
    assert_eq!(0, s.get_entities_at(&IPoint::new(4, 4)).len());
    assert_eq!(Some((third, IRect::new(5, 4, 1, 1))), s.get_by_entity(&GameEntity::Player));
    assert_eq!(Some(IRect::new(3, 4, 1, 1)), s.remove_by_key(&first));
    assert_eq!(None, s.get_by_entity(&GameEntity::Player));
    assert_eq!(1, s.get_entities_at(&IPoint::new(3, 4)).len());
    assert_eq!(None, s.remove_by_key(&first));
    assert_eq!(2, s.slot_len());
    assert_eq!(0, s.entity_index_len());
}

#[test]
fn world_unknown_key_changes_nothing() {
    let mut s = create_service();
    let key = s.insert(GameEntity::Player, IPoint::new(0, 0));
    assert_eq!(Some(IRect::new(0, 0, 1, 1)), s.remove_by_key(&key));
    s.move_by_key(&key, IPoint::new(4, 4));
    assert_eq!(None, s.get_by_key(&key));
    assert_eq!(None, s.window_of(&key));
    assert_eq!(0, s.get_entities_at(&IPoint::new(4, 4)).len());
}

#[test]
fn world_pointer_recenters_on_its_location() {
    let mut wp = WindowedPointer::new(GameEntity::Player, IPoint::new(2, 3));
    assert_eq!(IRect::new(2, 3, 1, 1), wp.location);
    assert_eq!(IRect::new(-6, -5, 17, 17), wp.window);
    assert!(wp.check_window_contains_location());
    wp.location = IRect::new(20, 3, 1, 1);
    assert!(!wp.check_window_contains_location());
    wp.recenter_window();
    assert_eq!(IRect::new(12, -5, 17, 17), wp.window);
    assert!(wp.check_window_contains_location());
}

#[test]
fn world_reuses_an_emptied_index() {
    let mut s = create_service();
    let first = s.insert(GameEntity::Player, IPoint::new(4, 4));
    assert_eq!(Some(IRect::new(4, 4, 1, 1)), s.remove_by_key(&first));
    assert_eq!(0, s.spatial_index_len());
    let second = s.insert(GameEntity::Player, IPoint::new(-4, 4));
    assert_ne!(first, second);
    assert_eq!(vec![GameEntity::Player], s.get_entities_at(&IPoint::new(-4, 4)));
    assert_eq!(1, s.spatial_index_len());
}

#[test]
fn world_handles_many_entities_at_the_coordinate_limit() {
    let limit = WORLD_COORDINATE_LIMIT;
    let mut s = create_service();
    let corners = [
        IPoint::new(limit, limit),
        IPoint::new(-limit, -limit),
        IPoint::new(limit, -limit),
        IPoint::new(-limit, limit),
    ];
    let mut keys = Vec::new();
    for i in 0..60i64 {
        let c = corners[(i % 4) as usize];
        let p = IPoint::new(if c.x > 0 { c.x - i } else { c.x + i }, c.y);
        keys.push((s.insert(GameEntity::Player, p), p));
    }
    assert_eq!(60, s.spatial_index_len());
    for (key, p) in &keys {
        assert_eq!(Some(IRect::new(p.x, p.y, 1, 1)), s.get_by_key(key));
        assert!(!s.get_entities_at(p).is_empty());
    }
    for (i, (key, p)) in keys.iter().enumerate() {
        if i % 2 == 0 {
            s.move_by_key(key, IPoint::new(-p.x, -p.y));
        } else {
            assert_eq!(Some(IRect::new(p.x, p.y, 1, 1)), s.remove_by_key(key));
        }
    }
    assert_eq!(30, s.slot_len());
    assert_eq!(30, s.spatial_index_len());
    assert_eq!(1, s.get_entities_at(&IPoint::new(-limit, -limit)).len());
}

#[test]
fn world_key_never_issued_is_unknown() {
    let mut s = create_service();
    let _ = s.insert(GameEntity::Player, IPoint::new(0, 0));
    let stranger = GameEntitySlotKey { index: 99 };
    assert_eq!(None, s.get_by_key(&stranger));
    assert_eq!(None, s.remove_by_key(&stranger));
    assert!(s.has_free_key());
    assert_eq!(1, s.slot_len());
}
