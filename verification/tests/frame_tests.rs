use desktop_pet::frame::{advance, frame};
use desktop_pet::model::{FrameInput, Grip, Kind};
use desktop_pet::pet::Pet;
use desktop_pet::state::State;
use desktop_pet::units::{Arena, Point};

const UNIT: i64 = 1_000_000;

fn free_input(delta_nanos: u64) -> FrameInput {
    FrameInput {
        delta_nanos,
        pointer: None,
        button_held: false,
        arena: Arena { width: 800 * UNIT, height: 600 * UNIT },
    }
}

fn pet_at(x: i64, y: i64) -> Pet {
    Pet::spawn(Kind::Primary, Point { x, y }, Point { x: 100 * UNIT, y: 100 * UNIT }).unwrap()
}

#[test]
fn first_frame_drops_the_new_pet_onto_the_floor() {
    let mut pet = Pet::new(1);
    assert_eq!(pet.position(), Point { x: 300 * UNIT, y: 10_000 * UNIT });
    assert_eq!(pet.size(), Point { x: 100 * UNIT, y: 100 * UNIT });
    assert_eq!(pet.behaviors().to_vec(), vec![State::Jump]);
    let grip = advance(&mut pet, &free_input(16_666_667), 1, 0);
    assert_eq!(grip, Grip::Free);
    assert_eq!(pet.behaviors().to_vec(), Vec::<State>::new());
    assert_eq!(pet.speed(), 10 * UNIT);
    assert_eq!(pet.position(), Point { x: 300 * UNIT, y: 500 * UNIT });
}

#[test]
fn first_frame_in_steps() {
    let mut pet = Pet::new(1);
    desktop_pet::pet::movement(&mut pet);
    assert_eq!(pet.position().y, 9_900 * UNIT);
    assert_eq!(pet.behaviors().len(), 0);
    assert_eq!(pet.speed(), 10 * UNIT);
    desktop_pet::pet::gravity(&mut pet);
    assert_eq!(pet.position().y, 9_903 * UNIT);
    desktop_pet::pet::boxin(&mut pet, Arena { width: 800 * UNIT, height: 600 * UNIT });
    assert_eq!(pet.position(), Point { x: 300 * UNIT, y: 500 * UNIT });
}

#[test]
fn frame_with_drawn_rolls_matches_advance_while_the_timer_is_quiet() {
    let mut drawn = Pet::new(1);
    let mut given = Pet::new(1);
    for _ in 0..100 {
        let a = frame(&mut drawn, &free_input(16_000_000));
        let b = advance(&mut given, &free_input(16_000_000), 3, 1);
        assert_eq!(a, b);
        assert_eq!(drawn.position(), given.position());
        assert_eq!(drawn.speed(), given.speed());
        assert_eq!(drawn.behaviors().to_vec(), given.behaviors().to_vec());
        assert_eq!(drawn.elapsed_nanos(), given.elapsed_nanos());
    }
    assert_eq!(drawn.elapsed_nanos(), 1_600_000_000);
}

#[test]
fn resting_pet_stays_on_the_floor() {
    let mut pet = pet_at(300 * UNIT, 500 * UNIT);
    for _ in 0..10 {
        advance(&mut pet, &free_input(16_000_000), 1, 0);
        assert_eq!(pet.position(), Point { x: 300 * UNIT, y: 500 * UNIT });
    }
}

#[test]
fn transition_in_a_frame_moves_the_pet_in_the_same_frame() {
    let mut pet = pet_at(300 * UNIT, 500 * UNIT);
    advance(&mut pet, &free_input(3_000_000_000), 1, 1);
    assert_eq!(pet.behaviors().to_vec(), vec![State::Right]);
    assert_eq!(pet.speed(), 2_800_000);
    assert_eq!(pet.position(), Point { x: 300 * UNIT + 2_800_000, y: 500 * UNIT });
}

#[test]
fn walking_pet_bounces_off_the_left_wall() {
    let mut pet = pet_at(UNIT, 500 * UNIT);
    pet.push_behavior(State::Left);
    advance(&mut pet, &free_input(1_000), 1, 0);
    assert_eq!(pet.position(), Point { x: 0, y: 500 * UNIT - 3_500_000 });
    advance(&mut pet, &free_input(1_000), 1, 0);
    assert_eq!(pet.position(), Point { x: 0, y: 500 * UNIT - 4_000_000 });
}

#[test]
fn every_free_frame_ends_inside_the_window() {
    let mut pet = Pet::new(1);
    let mut roll = 0usize;
    for n in 0..3000u64 {
        roll = (roll * 5 + 3) % 8;
        advance(&mut pet, &free_input(100_000_000 + n), roll % 4, roll / 4);
        let p = pet.position();
        assert!(0 <= p.x && p.x <= 700 * UNIT);
        assert!(-3_500_000 <= p.y && p.y <= 500 * UNIT);
        assert!(!pet.behaviors().contains(State::Jump));
        assert!(UNIT <= pet.speed() && pet.speed() <= 10 * UNIT);
    }
}

#[test]
fn held_pet_sits_under_the_pointer_every_frame() {
    let mut pet = pet_at(300 * UNIT, 500 * UNIT);
    pet.push_behavior(State::Jump);
    pet.push_behavior(State::Right);
    let mut pointer = Point { x: 360 * UNIT, y: 520 * UNIT };
    for _ in 0..5 {
        let input = FrameInput {
            delta_nanos: 16_000_000,
            pointer: Some(pointer),
            button_held: true,
            arena: Arena { width: 800 * UNIT, height: 600 * UNIT },
        };
        assert_eq!(advance(&mut pet, &input, 1, 0), Grip::Held);
        assert_eq!(pet.position(), Point { x: pointer.x - 50 * UNIT, y: pointer.y - 50 * UNIT });
        pointer = Point { x: pointer.x + 30 * UNIT, y: pointer.y - 40 * UNIT };
    }
    assert_eq!(pet.position(), Point { x: 430 * UNIT, y: 310 * UNIT });
    assert_eq!(pet.behaviors().to_vec(), vec![State::Right]);
}

#[test]
fn held_pet_may_leave_the_window() {
    let mut pet = pet_at(0, 0);
    let input = FrameInput {
        delta_nanos: 16_000_000,
        pointer: Some(Point { x: 0, y: 0 }),
        button_held: true,
        arena: Arena { width: 800 * UNIT, height: 600 * UNIT },
    };
    assert_eq!(advance(&mut pet, &input, 1, 0), Grip::Held);
    assert_eq!(pet.position(), Point { x: -50 * UNIT, y: -50 * UNIT });
}

#[test]
fn button_without_a_hit_does_not_pick_the_pet_up() {
    let mut pet = pet_at(300 * UNIT, 400 * UNIT);
    let input = FrameInput {
        delta_nanos: 16_000_000,
        pointer: Some(Point { x: 10 * UNIT, y: 10 * UNIT }),
        button_held: true,
        arena: Arena { width: 800 * UNIT, height: 600 * UNIT },
    };
    assert_eq!(advance(&mut pet, &input, 1, 0), Grip::Free);
    assert_eq!(pet.position(), Point { x: 300 * UNIT, y: 403 * UNIT });
}

#[test]
fn hit_without_the_button_does_not_pick_the_pet_up() {
    let mut pet = pet_at(300 * UNIT, 400 * UNIT);
    let input = FrameInput {
        delta_nanos: 16_000_000,
        pointer: Some(Point { x: 350 * UNIT, y: 450 * UNIT }),
        button_held: false,
        arena: Arena { width: 800 * UNIT, height: 600 * UNIT },
    };
    assert_eq!(advance(&mut pet, &input, 1, 0), Grip::Free);
    assert_eq!(pet.position(), Point { x: 300 * UNIT, y: 403 * UNIT });
}

#[test]
fn missing_pointer_skips_the_held_branch() {
    let mut pet = pet_at(300 * UNIT, 400 * UNIT);
    let input = FrameInput {
        delta_nanos: 16_000_000,
        pointer: None,
        button_held: true,
        arena: Arena { width: 800 * UNIT, height: 600 * UNIT },
    };
    assert_eq!(advance(&mut pet, &input, 1, 0), Grip::Free);
    assert_eq!(pet.position(), Point { x: 300 * UNIT, y: 403 * UNIT });
}

#[test]
fn pointer_that_outruns_the_pet_lets_go_of_it() {
    let mut pet = pet_at(300 * UNIT, 300 * UNIT);
    let mut input = FrameInput {
        delta_nanos: 16_000_000,
        pointer: Some(Point { x: 350 * UNIT, y: 350 * UNIT }),
        button_held: true,
        arena: Arena { width: 800 * UNIT, height: 600 * UNIT },
    };
    assert_eq!(advance(&mut pet, &input, 1, 0), Grip::Held);
    input.pointer = Some(Point { x: 350 * UNIT, y: 200 * UNIT });
    assert_eq!(advance(&mut pet, &input, 1, 0), Grip::Free);
    assert_eq!(pet.position(), Point { x: 300 * UNIT, y: 303 * UNIT });
}

#[test]
fn release_hands_the_pet_back_to_gravity_at_once() {
    let mut pet = pet_at(300 * UNIT, 500 * UNIT);
    let held = FrameInput {
        delta_nanos: 16_000_000,
        pointer: Some(Point { x: 350 * UNIT, y: 550 * UNIT }),
        button_held: true,
        arena: Arena { width: 800 * UNIT, height: 600 * UNIT },
    };
    assert_eq!(advance(&mut pet, &held, 1, 0), Grip::Held);
    let lifted = FrameInput { pointer: Some(Point { x: 350 * UNIT, y: 520 * UNIT }), ..held };
    assert_eq!(advance(&mut pet, &lifted, 1, 0), Grip::Held);
    assert_eq!(pet.position(), Point { x: 300 * UNIT, y: 470 * UNIT });

    // Released with the pointer still on the pet: the next frame is a free
    // one, and equals that of a pet which was never held.
    let released = FrameInput { button_held: false, ..lifted };
    assert_eq!(advance(&mut pet, &released, 1, 0), Grip::Free);
    assert_eq!(pet.position(), Point { x: 300 * UNIT, y: 473 * UNIT });
    let mut twin = pet_at(300 * UNIT, 470 * UNIT);
    twin.push_behavior(State::Clim);
    twin.pop_behavior();
    let away = FrameInput { pointer: None, ..released };
    assert_eq!(advance(&mut twin, &away, 1, 0), Grip::Free);
    assert_eq!(twin.position(), Point { x: 300 * UNIT, y: 473 * UNIT });
}

#[test]
fn follower_is_not_moved_by_a_frame() {
    let mut pet = Pet::new(2);
    let input = FrameInput {
        delta_nanos: 5_000_000_000,
        pointer: Some(Point { x: 350 * UNIT, y: 10_050 * UNIT }),
        button_held: true,
        arena: Arena { width: 800 * UNIT, height: 600 * UNIT },
    };
    assert_eq!(advance(&mut pet, &input, 1, 0), Grip::Free);
    assert_eq!(pet.position(), Point { x: 300 * UNIT, y: 10_000 * UNIT });
    assert_eq!(pet.behaviors().to_vec(), vec![State::Jump]);
    assert_eq!(pet.elapsed_nanos(), 0);
}
