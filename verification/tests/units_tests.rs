use desktop_pet::units::{Arena, Point, COORD_MAX, POSITION_MAX, UNITS_PER_PIXEL};

#[test]
fn a_pixel_is_a_million_units() {
    assert_eq!(UNITS_PER_PIXEL, 1_000_000);
}

#[test]
fn from_pixels_scales_both_coordinates() {
    assert_eq!(Point::from_pixels(300, 10_000), Some(Point { x: 300_000_000, y: 10_000_000_000 }));
    assert_eq!(Point::from_pixels(-5, 0), Some(Point { x: -5_000_000, y: 0 }));
}

#[test]
fn from_pixels_refuses_what_leaves_the_input_range() {
    let limit = COORD_MAX / UNITS_PER_PIXEL;
    assert!(Point::from_pixels(limit, -limit).is_some());
    assert_eq!(Point::from_pixels(limit + 1, 0), None);
    assert_eq!(Point::from_pixels(0, -limit - 1), None);
    assert_eq!(Point::from_pixels(i64::MAX, i64::MIN), None);
}

#[test]
fn reach_and_headroom_are_closed_intervals() {
    assert!(Point { x: COORD_MAX, y: -COORD_MAX }.is_in_reach());
    assert!(!Point { x: COORD_MAX + 1, y: 0 }.is_in_reach());
    assert!(!Point { x: 0, y: -COORD_MAX - 1 }.is_in_reach());
    assert!(Point { x: POSITION_MAX, y: -POSITION_MAX }.is_roomy());
    assert!(!Point { x: POSITION_MAX + 1, y: 0 }.is_roomy());
    assert!(!Point { x: 0, y: -POSITION_MAX - 1 }.is_roomy());
    assert!(Arena { width: COORD_MAX, height: 0 }.is_in_reach());
    assert!(!Arena { width: 0, height: COORD_MAX + 1 }.is_in_reach());
    assert!(!Arena { width: -COORD_MAX - 1, height: 0 }.is_in_reach());
}
