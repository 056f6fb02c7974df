use enchantron_core::direction::Direction;
use enchantron_core::model::{IPoint, IRect, ISize};

#[test]
fn rect_contains_point_is_half_open() {
    let r = IRect::new(1, 2, 3, 4);
    assert!(r.contains_point(&IPoint::new(1, 2)));
    assert!(r.contains_point(&IPoint::new(3, 5)));
    assert!(!r.contains_point(&IPoint::new(4, 5)));
    assert!(!r.contains_point(&IPoint::new(3, 6)));
    assert!(!r.contains_point(&IPoint::new(0, 2)));
}

#[test]
fn rect_contains_rect() {
    let outer = IRect::new(-7, -7, 17, 17);
    assert!(outer.contains_rect(&IRect::new(9, 9, 1, 1)));
    assert!(!outer.contains_rect(&IRect::new(10, 9, 1, 1)));
    assert!(outer.contains_rect(&IRect::new(-7, -7, 17, 17)));
    assert!(!outer.contains_rect(&IRect::new(-8, 0, 1, 1)));
}

#[test]
fn rect_contains_point_far_from_origin() {
    let r = IRect::new(i64::MAX - 1, i64::MIN, usize::MAX, 1);
    assert!(r.contains_point(&IPoint::new(i64::MAX, i64::MIN)));
    assert!(!r.contains_point(&IPoint::new(0, i64::MIN)));
}

#[test]
fn rect_expanded_by_grows_every_side() {
    let r = IRect::new(1, 1, 1, 1).expanded_by(8);
    assert_eq!(IRect::new(-7, -7, 17, 17), r);
    assert_eq!(IRect::new(5, 6, 2, 3), IRect::new(5, 6, 2, 3).expanded_by(0));
}

#[test]
fn size_area_and_defaults() {
    assert_eq!(128 * 128, ISize::new(128, 128).area());
    assert_eq!(IRect::new(0, 0, 0, 0), IRect::default());
    assert_eq!(IPoint::new(0, 0), IPoint::default());
    assert_eq!(ISize::new(0, 0), ISize::default());
}

#[test]
fn direction_points() {
    for d in [
        Direction::N,
        Direction::NE,
        Direction::E,
        Direction::SE,
        Direction::S,
        Direction::SW,
        Direction::W,
        Direction::NW,
    ] {
        assert_eq!(IPoint::new(0, -1), d.get_point());
    }
}

#[test]
fn empty_rect_holds_nothing() {
    let r = IRect::new(0, 0, 0, 3);
    assert!(!r.contains_point(&IPoint::new(0, 0)));
    assert!(r.contains_rect(&IRect::new(0, 1, 0, 1)));
}
