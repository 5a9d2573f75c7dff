use desktop_pet::frame::advance;
use desktop_pet::model::{FrameInput, Grip, Kind};
use desktop_pet::pet::{boxin, movement, Pet};
use desktop_pet::state::State;
use desktop_pet::units::{Arena, Point};

const U: i64 = 1_000_000;

fn pet_sized(x: i64, y: i64, width: i64, height: i64) -> Pet {
    Pet::spawn(Kind::Primary, Point { x, y }, Point { x: width, y: height }).unwrap()
}

#[test]
fn containment_ends_inside_from_every_side() {
    let arena = Arena { width: 640 * U, height: 480 * U };
    let xs = [-900 * U, -1, 0, 1, 320 * U, 540 * U, 540 * U + 1, 5_000 * U];
    let ys = [-900 * U, -1, 0, 3_499_999, 3_500_000, 240 * U, 380 * U, 380 * U + 1, 5_000 * U];
    for x in xs {
        for y in ys {
            let mut pet = pet_sized(x, y, 100 * U, 100 * U);
            boxin(&mut pet, arena);
            let p = pet.position();
            assert!(0 <= p.x && p.x <= 540 * U);
            assert!(p.y <= 380 * U);
            let wall = x < 0 || x > 540 * U;
            let clamped = y.min(380 * U).max(0);
            assert_eq!(p.y, if wall { clamped - 3_500_000 } else { clamped });
            assert_eq!(p.y >= 0, !wall || clamped >= 3_500_000);
        }
    }
}

#[test]
fn integrator_removes_one_entry_per_jump_and_leaves_none() {
    let tracks: Vec<Vec<State>> = vec![
        vec![],
        vec![State::Jump],
        vec![State::Left],
        vec![State::Jump, State::Left],
        vec![State::Right, State::Jump],
        vec![State::Left, State::Jump, State::Clim, State::Right],
    ];
    for track in tracks {
        let mut pet = pet_sized(0, 0, 100 * U, 100 * U);
        for s in &track {
            pet.push_behavior(*s);
        }
        movement(&mut pet);
        let after = pet.behaviors().to_vec();
        let jumps = track.iter().filter(|s| **s == State::Jump).count();
        let others: Vec<State> = track.iter().copied().filter(|s| *s != State::Jump).collect();
        assert_eq!(after.len() + jumps, track.len());
        assert_eq!(after, others);
        assert!(!pet.behaviors().contains(State::Jump));
    }
}

#[test]
fn speed_is_ten_after_a_jump_frame_and_the_smoothed_speed_after_any_other() {
    let mut pet = pet_sized(0, 0, 100 * U, 100 * U);
    let mut before = pet.speed();
    for frame in 0..60 {
        if frame % 7 == 3 {
            pet.push_behavior(State::Jump);
        }
        let jumping = pet.behaviors().contains(State::Jump);
        movement(&mut pet);
        let floor = before - (before - U) / 10;
        assert!(pet.speed() >= floor);
        if jumping {
            assert_eq!(pet.speed(), 10 * U);
        } else {
            assert_eq!(pet.speed(), floor);
            assert!(pet.speed() < before);
        }
        before = pet.speed();
    }
}

#[test]
fn left_wall_hit_in_a_frame_lifts_by_exactly_the_penalty() {
    let arena = Arena { width: 800 * U, height: 600 * U };
    for y in [0, 3 * U, 250 * U, 500 * U] {
        let mut pet = pet_sized(-25 * U, y, 100 * U, 100 * U);
        boxin(&mut pet, arena);
        assert_eq!(pet.position(), Point { x: 0, y: y - 3_500_000 });
    }
}

#[test]
fn held_frame_ignores_rolls_timer_and_track() {
    let pointer = Point { x: 250 * U, y: 260 * U };
    for decay in 0..=3 {
        for pick in 0..=1 {
            for delta in [0u64, 16_000_000, 3_000_000_000, u64::MAX] {
                let mut pet = pet_sized(200 * U, 200 * U, 100 * U, 80 * U);
                pet.push_behavior(State::Left);
                pet.push_behavior(State::Jump);
                let input = FrameInput {
                    delta_nanos: delta,
                    pointer: Some(pointer),
                    button_held: true,
                    arena: Arena { width: 800 * U, height: 600 * U },
                };
                assert_eq!(advance(&mut pet, &input, decay, pick), Grip::Held);
                assert_eq!(pet.position(), Point { x: 200 * U, y: 220 * U });
            }
        }
    }
}

#[test]
fn held_pet_does_not_drift_under_a_resting_pointer() {
    let mut pet = pet_sized(200 * U, 200 * U, 100 * U, 80 * U);
    let input = FrameInput {
        delta_nanos: 16_000_000,
        pointer: Some(Point { x: 210 * U, y: 270 * U }),
        button_held: true,
        arena: Arena { width: 800 * U, height: 600 * U },
    };
    for _ in 0..50 {
        assert_eq!(advance(&mut pet, &input, 1, 0), Grip::Held);
        assert_eq!(pet.position(), Point { x: 160 * U, y: 230 * U });
    }
}

#[test]
fn free_frame_is_the_same_wherever_the_pointer_is() {
    let arena = Arena { width: 800 * U, height: 600 * U };
    let pointers = [
        (None, false),
        (None, true),
        (Some(Point { x: 0, y: 0 }), true),
        (Some(Point { x: 250 * U, y: 250 * U }), false),
        (Some(Point { x: 799 * U, y: 1 }), false),
    ];
    for (pointer, button_held) in pointers {
        let mut pet = pet_sized(200 * U, 200 * U, 100 * U, 100 * U);
        pet.push_behavior(State::Right);
        let input = FrameInput { delta_nanos: 16_000_000, pointer, button_held, arena };
        assert_eq!(advance(&mut pet, &input, 2, 1), Grip::Free);
        assert_eq!(pet.position(), Point { x: 200 * U + 2_800_000, y: 203 * U });
        assert_eq!(pet.speed(), 2_800_000);
    }
}

#[test]
fn no_jump_survives_a_frame_that_interposes_one() {
    let mut pet = pet_sized(400 * U, 500 * U, 100 * U, 100 * U);
    pet.push_behavior(State::Left);
    let input = FrameInput {
        delta_nanos: 3_000_000_000,
        pointer: None,
        button_held: false,
        arena: Arena { width: 800 * U, height: 600 * U },
    };
    advance(&mut pet, &input, 1, 0);
    assert_eq!(pet.behaviors().to_vec(), vec![State::Left]);
    assert_eq!(pet.speed(), 10 * U);
    assert_eq!(pet.position(), Point { x: 390 * U, y: 403 * U });
}
