use enchantron_core::entity::{
    Entity, EntityData, EntityMessage, EntityType, LocationKey, Player, SlotMapKeyData,
};
use enchantron_core::event::{
    HandlerRegistration, ListenerRegistration, RawTouchEvent, TouchEventType,
};
use enchantron_core::handles::{Ao, Gor, PresenterServiceLease};
use enchantron_core::model::IPoint;
use enchantron_core::presenter_service::PresenterService;
use enchantron_core::terrain::{PerlinTerrain1, SimplexTerrain1};
use std::cell::Cell;

#[test]
fn entity_from_parts() {
    let key = SlotMapKeyData { index: 4 };
    let e: Entity = (EntityType::Player, key).into();
    assert_eq!(Entity::Player(key), e);
    assert_eq!(&key, e.borrow());
}

#[test]
fn entity_data_starts_unknown() {
    let d = EntityData::default_for_type(EntityType::Player);
    assert_eq!(EntityType::Player, d.entity_type);
    assert_eq!(None, d.entity);
    assert_eq!(None, d.location_key);
}

#[test]
fn player_from_entity_data() {
    let entity = Entity::Player(SlotMapKeyData { index: 0 });
    let location_key = LocationKey { index: 7 };
    let d = EntityData { entity_type: EntityType::Player, entity: Some(entity), location_key: Some(location_key) };
    let p = Player::from_entity_data(&d);
    assert_eq!(Player { entity, location_key }, p);
}

#[test]
fn entity_message_goal() {
    let m = EntityMessage::GoalSet(IPoint::new(3, -2));
    assert_eq!(EntityMessage::GoalSet(IPoint::new(3, -2)), m);
    assert_ne!(EntityMessage::EnteredViewport, EntityMessage::ExitedViewport);
}

#[test]
fn touch_event_constructors() {
    let e = RawTouchEvent::start_1(1u8);
    assert_eq!(TouchEventType::Start, e.state);
    assert_eq!(1, e.touch);
    assert_eq!(None, e.other_touch_opt);
    let e = RawTouchEvent::start_2(1u8, 2u8);
    assert_eq!(TouchEventType::Start, e.state);
    assert_eq!((1, Some(2)), (e.touch, e.other_touch_opt));
    let e = RawTouchEvent::move_1(3u8);
    assert_eq!((TouchEventType::Move, 3, None), (e.state, e.touch, e.other_touch_opt));
    let e = RawTouchEvent::move_2(3u8, 4u8);
    assert_eq!((TouchEventType::Move, 3, Some(4)), (e.state, e.touch, e.other_touch_opt));
    let e = RawTouchEvent::end_1(5u8);
    assert_eq!((TouchEventType::End, 5, None), (e.state, e.touch, e.other_touch_opt));
    let e = RawTouchEvent::end_2(5u8, 6u8);
    assert_eq!((TouchEventType::End, 5, Some(6)), (e.state, e.touch, e.other_touch_opt));
}

#[test]
fn listener_registration_runs_once() {
    let count = Cell::new(0);
    let mut r = ListenerRegistration::new(|| count.set(count.get() + 1));
    r.deregister();
    r.deregister();
    assert_eq!(1, count.get());
}

#[test]
fn handler_registration_runs_its_action() {
    let count = Cell::new(0);
    let r = HandlerRegistration::new(|| count.set(count.get() + 1));
    r.deregister();
    r.deregister();
    assert_eq!(2, count.get());
}

#[test]
fn handles_refer_to_their_value() {
    let boxed = Box::new(41u32);
    let a = Ao::new(&boxed);
    let b = a.clone();
    assert_eq!(41, *a.get());
    assert_eq!(41, *b.get());
    let g = Gor::new(&boxed);
    assert_eq!(41, *g.clone().get());
    let mut state = 9i64;
    let mut lease = PresenterServiceLease::new(&mut state);
    assert_eq!(9, *lease.get());
    lease.set(10);
    assert_eq!(10, *lease.get());
    assert_eq!(10, state);
}

#[test]
fn presenter_states_by_entity() {
    let p0 = Entity::Player(SlotMapKeyData { index: 0 });
    let p1 = Entity::Player(SlotMapKeyData { index: 1 });
    let p2 = Entity::Player(SlotMapKeyData { index: 2 });
    let mut s = PresenterService::new(vec![(p0, 10u32), (p1, 11), (p0, 12)]);
    assert_eq!(Some(12), s.get_player_presenter_state(p0));
    assert_eq!(Some(11), s.get_player_presenter_state(p1));
    assert_eq!(None, s.get_player_presenter_state(p2));
    {
        let mut lease = s.rent_player_presenter_state(&p0).unwrap();
        assert_eq!(12, *lease.get());
        lease.set(13);
    }
    assert_eq!(Some(13), s.get_player_presenter_state(p0));
    assert_eq!(Some(11), s.get_player_presenter_state(p1));
    assert!(s.rent_player_presenter_state(&p2).is_none());
}

#[test]
fn terrain_parameters() {
    let t = PerlinTerrain1::default();
    assert_eq!(8, t.root_scale);
    assert_eq!(IPoint::new(0, 0), t.root_offset);
    assert_eq!(2, t.multiplier);
    assert_eq!(IPoint::new(6, 6), t.offset_shift);
    assert_eq!(12, t.count);
    assert_eq!(0, t.seed);
    let u = PerlinTerrain1::new(4, IPoint::new(1, 2), 3, IPoint::new(5, 5), 6, 99);
    assert_eq!(99, u.seed);
    assert_eq!(SimplexTerrain1::new(), SimplexTerrain1::default());
}
