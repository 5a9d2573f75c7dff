use desktop_pet::display::{ease_toward, EASING};
use desktop_pet::units::Point;

#[test]
fn image_without_a_place_appears_on_the_pet() {
    let target = Point { x: 300_000_000, y: -7 };
    assert_eq!(ease_toward(None, target), target);
}

#[test]
fn image_covers_a_tenth_of_the_distance() {
    assert_eq!(EASING, 10);
    let shown = Point { x: 0, y: 1_000 };
    let target = Point { x: 100, y: 0 };
    assert_eq!(ease_toward(Some(shown), target), Point { x: 10, y: 900 });
}

#[test]
fn image_rounds_toward_where_it_was() {
    let shown = Point { x: 0, y: 0 };
    assert_eq!(ease_toward(Some(shown), Point { x: 19, y: -19 }), Point { x: 1, y: -1 });
    assert_eq!(ease_toward(Some(shown), Point { x: 9, y: -9 }), Point { x: 0, y: 0 });
    assert_eq!(ease_toward(Some(shown), Point { x: 0, y: 0 }), Point { x: 0, y: 0 });
}

#[test]
fn image_crosses_the_whole_range_without_overflow() {
    let shown = Point { x: i64::MIN, y: i64::MAX };
    let target = Point { x: i64::MAX, y: i64::MIN };
    let next = ease_toward(Some(shown), target);
    assert_eq!(next.x as i128, i64::MIN as i128 + (i64::MAX as i128 - i64::MIN as i128) / 10);
    assert_eq!(next.y as i128, i64::MAX as i128 - (i64::MAX as i128 - i64::MIN as i128) / 10);
}

#[test]
fn image_closes_in_on_a_resting_pet() {
    let target = Point { x: 300_000_000, y: 500_000_000 };
    let mut shown = Point { x: 300_000_000, y: 10_000_000_000 };
    let mut gap = shown.y - target.y;
    for _ in 0..400 {
        shown = ease_toward(Some(shown), target);
        let now = shown.y - target.y;
        assert!(0 <= now && now <= gap);
        gap = now;
    }
    assert!(gap < 10);
    assert_eq!(shown.x, target.x);
}
