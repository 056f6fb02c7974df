use enchantron_core::entity::{Entity, LocationKey, SlotMapKeyData};
use enchantron_core::location_index::{LocatedEntry, LocationIndex};
use enchantron_core::model::{IPoint, IRect};

fn player(index: usize) -> Entity {
    Entity::Player(SlotMapKeyData { index })
}

#[test]
fn location_index_crud() {
    let mut s: LocationIndex<&str> = LocationIndex::new();
    let window = IRect::new(-64, -64, 130, 130);
    let key = s.insert(player(0), window, "start");
    assert_eq!(Some(&"start"), s.get(&key).map(|e| &e.value));
    assert_eq!(vec![key], s.keys_at(&IPoint::new(1, 1)));
    assert_eq!(Vec::<LocationKey>::new(), s.keys_at(&IPoint::new(66, 0)));
    let (k, e) = s.get_by_entity(&player(0)).unwrap();
    assert_eq!((key, window, "start"), (k, e.window, e.value));

    let moved = IRect::new(0, 0, 130, 130);
    assert!(s.replace(&key, moved, "moved"));
    assert_eq!(vec![key], s.keys_at(&IPoint::new(66, 0)));
    assert_eq!(Vec::<LocationKey>::new(), s.keys_at(&IPoint::new(-1, -1)));
    assert_eq!(player(0), s.get(&key).unwrap().entity);

    let removed = s.remove_by_key(&key).unwrap();
    assert_eq!((player(0), moved, "moved"), (removed.entity, removed.window, removed.value));
    assert!(s.get(&key).is_none());
    assert!(s.get_by_entity(&player(0)).is_none());
    assert!(!s.replace(&key, window, "gone"));
    assert_eq!(0, s.len());
    assert_eq!(0, s.spatial_index_len());
    assert_eq!(0, s.entity_index_len());
}

#[test]
fn location_index_entities_and_keys() {
    let mut s: LocationIndex<u8> = LocationIndex::new();
    let a = s.insert(player(0), IRect::new(0, 0, 4, 4), 1);
    let b = s.insert(player(1), IRect::new(2, 2, 4, 4), 2);
    let c = s.insert(player(0), IRect::new(10, 10, 1, 1), 3);
    assert_eq!(3, s.len());
    assert_eq!(2, s.entity_index_len());
    let mut at = s.keys_at(&IPoint::new(3, 3));
    at.sort_by_key(|k| k.index);
    assert_eq!(vec![a, b], at);
    assert_eq!(c, s.get_by_entity(&player(0)).unwrap().0);
    assert!(s.remove_by_key(&a).is_some());
    assert!(s.get_by_entity(&player(0)).is_none());
    assert_eq!(b, s.get_by_entity(&player(1)).unwrap().0);
    assert_eq!(1, s.entity_index_len());
    assert_eq!(2, s.spatial_index_len());
}

#[test]
fn location_index_from_slots_keeps_keys() {
    let slots = vec![
        Some(LocatedEntry { entity: player(0), window: IRect::new(0, 0, 4, 4), value: 'a' }),
        None,
        Some(LocatedEntry { entity: player(1), window: IRect::new(10, 10, 2, 2), value: 'b' }),
    ];
    let s = LocationIndex::from_slots(slots);
    assert_eq!(2, s.len());
    assert_eq!(2, s.spatial_index_len());
    assert_eq!(2, s.entity_index_len());
    assert_eq!(Some(&'a'), s.get(&LocationKey { index: 0 }).map(|e| &e.value));
    assert!(s.get(&LocationKey { index: 1 }).is_none());
    assert_eq!(Some(&'b'), s.get(&LocationKey { index: 2 }).map(|e| &e.value));
    assert_eq!(LocationKey { index: 2 }, s.get_by_entity(&player(1)).unwrap().0);
    assert_eq!(vec![LocationKey { index: 2 }], s.keys_at(&IPoint::new(11, 11)));
    assert_eq!(vec![LocationKey { index: 0 }], s.keys_at(&IPoint::new(3, 3)));
}

#[test]
fn location_index_from_slots_hands_out_fresh_keys() {
    let slots = vec![None, Some(LocatedEntry { entity: player(0), window: IRect::new(0, 0, 1, 1), value: 1u8 })];
    let mut s = LocationIndex::from_slots(slots);
    let key = s.insert(player(1), IRect::new(0, 0, 1, 1), 2);
    assert_eq!(LocationKey { index: 2 }, key);
    assert_eq!(2, s.len());
}

#[test]
fn location_index_from_slots_records_last_key_of_entity() {
    let slots = vec![
        Some(LocatedEntry { entity: player(0), window: IRect::new(0, 0, 1, 1), value: 1u8 }),
        Some(LocatedEntry { entity: player(0), window: IRect::new(5, 5, 1, 1), value: 2u8 }),
    ];
    let s = LocationIndex::from_slots(slots);
    assert_eq!(LocationKey { index: 1 }, s.get_by_entity(&player(0)).unwrap().0);
    assert_eq!(1, s.entity_index_len());
}

#[test]
fn location_index_from_no_slots_is_empty() {
    let s: LocationIndex<u8> = LocationIndex::from_slots(Vec::new());
    assert_eq!(0, s.len());
    assert!(s.keys_at(&IPoint::new(0, 0)).is_empty());
}
