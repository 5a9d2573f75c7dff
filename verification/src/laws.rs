//! Laws of the frame pipeline, proved of the model in [`crate::model`].

use crate::model::{
    clamped, integrated, smoothed, FrameInput, Kind, Motion, PetView, LAUNCH_SPEED,
    REST_SPEED, SMOOTHING, WALL_PENALTY,
};
use crate::state::State;
use crate::track::{jump_count, lemma_without_jumps};
use crate::units::{Arena, Vector};
use vstd::prelude::*;

verus! {

/// The speed at the end of the integrator's walk along a track is the launch
/// speed if the track holds a jump, and the speed it started with otherwise.
pub proof fn lemma_integrated_speed(track: Seq<State>, start: Motion)
    ensures
        integrated(track, start).speed == if track.contains(State::Jump) {
            LAUNCH_SPEED as int
        } else {
            start.speed
        },
    decreases track.len(),
{
    if track.len() > 0 {
        let init = track.drop_last();
        lemma_integrated_speed(init, start);
        if init.contains(State::Jump) {
            let i = choose|i: int| 0 <= i < init.len() && init[i] == State::Jump;
            assert(track[i] == State::Jump);
        }
        if track.last() == State::Jump {
            assert(track[track.len() - 1] == State::Jump);
        }
        if track.contains(State::Jump) && track.last() != State::Jump {
            let i = choose|i: int| 0 <= i < track.len() && track[i] == State::Jump;
            assert(init[i] == State::Jump);
        }
    }
}

/// Containment holds a primary inside a window that is at least as large as
/// the pet: always horizontally and below, and above unless a wall penalty
/// lifts it over the ceiling, which happens exactly when a wall pushes it
/// back while it is less than [`WALL_PENALTY`] under the ceiling.
pub proof fn law_containment_holds_the_pet_inside(pet: PetView, arena: Arena)
    requires
        pet.kind == Kind::Primary,
        pet.size.x <= arena.width,
        pet.size.y <= arena.height,
    ensures
        0 <= pet.contained(arena).position.x <= arena.width - pet.size.x,
        pet.contained(arena).position.y <= arena.height - pet.size.y,
        0 <= pet.contained(arena).position.y <==> !(pet.hits_left_wall() || pet.hits_right_wall(
            arena,
        )) || clamped(pet.position.y, 0, arena.height - pet.size.y) >= WALL_PENALTY,
{
}

/// A frame that does not find a primary held ends with the pet inside a
/// window that is at least as large as the pet: always horizontally and
/// below, and no more than one [`WALL_PENALTY`] above the ceiling.
pub proof fn law_free_frame_ends_inside(
    pet: PetView,
    input: FrameInput,
    decay_roll: int,
    pick_roll: int,
)
    requires
        pet.kind == Kind::Primary,
        !pet.held_in(input),
        pet.size.x <= input.arena.width,
        pet.size.y <= input.arena.height,
    ensures
        0 <= pet.framed(input, decay_roll, pick_roll).position.x <= input.arena.width
            - pet.size.x,
        -WALL_PENALTY <= pet.framed(input, decay_roll, pick_roll).position.y
            <= input.arena.height - pet.size.y,
{
    let stepped = pet.scheduled(input.delta_nanos as nat, decay_roll, pick_roll).moved().fell();
    law_containment_holds_the_pet_inside(stepped, input.arena);
}

/// The integrator leaves no jump on the track of a primary, and removes one
/// entry for each jump it applied; the other behaviors stay, in their order.
pub proof fn law_integrator_consumes_jumps(pet: PetView)
    requires
        pet.kind == Kind::Primary,
    ensures
        !pet.moved().behaviors.contains(State::Jump),
        pet.moved().behaviors.len() + jump_count(pet.behaviors) == pet.behaviors.len(),
        forall|s: State| #[trigger]
            pet.moved().behaviors.contains(s) <==> s != State::Jump && pet.behaviors.contains(s),
{
    lemma_without_jumps(pet.behaviors);
}

/// No jump outlives the frame that finds it or puts it on the track: after
/// any frame of a primary the track holds no jump.
pub proof fn law_no_jump_outlives_its_frame(
    pet: PetView,
    input: FrameInput,
    decay_roll: int,
    pick_roll: int,
)
    requires
        pet.kind == Kind::Primary,
    ensures
        !pet.framed(input, decay_roll, pick_roll).behaviors.contains(State::Jump),
{
    law_integrator_consumes_jumps(pet.scheduled(input.delta_nanos as nat, decay_roll, pick_roll));
}

/// One smoothing step never leaves the band between rest and the speed it
/// started from, and strictly lowers every speed that is at least one
/// smoothing quantum above rest.
pub proof fn law_smoothing_decays_toward_rest(speed: int)
    requires
        REST_SPEED <= speed,
    ensures
        REST_SPEED <= smoothed(speed) <= speed,
        speed >= REST_SPEED + SMOOTHING ==> smoothed(speed) < speed,
        speed < REST_SPEED + SMOOTHING ==> smoothed(speed) == speed,
{
}

/// After the integrator, the speed of a primary is never below the smoothed
/// speed it entered with. It is exactly the launch speed in a frame that
/// applies a jump, and exactly the smoothed speed in a frame that applies
/// none.
pub proof fn law_speed_resets_on_jump_and_decays_otherwise(pet: PetView)
    requires
        pet.kind == Kind::Primary,
        REST_SPEED <= pet.speed <= LAUNCH_SPEED,
    ensures
        pet.moved().speed >= smoothed(pet.speed),
        pet.behaviors.contains(State::Jump) ==> pet.moved().speed == LAUNCH_SPEED,
        !pet.behaviors.contains(State::Jump) ==> pet.moved().speed == smoothed(pet.speed),
        !pet.behaviors.contains(State::Jump) && pet.speed >= REST_SPEED + SMOOTHING
            ==> pet.moved().speed < pet.speed,
        REST_SPEED <= pet.moved().speed <= LAUNCH_SPEED,
{
    lemma_integrated_speed(
        pet.behaviors,
        Motion { position: pet.position, speed: smoothed(pet.speed) },
    );
}

/// A primary that containment finds left of the window, in a window at least
/// as wide as the pet, ends at `x == 0`, lifted by exactly [`WALL_PENALTY`]
/// from the height that floor and ceiling left it at; from its own height,
/// where that was inside the window.
pub proof fn law_left_wall_lifts_by_the_penalty(pet: PetView, arena: Arena)
    requires
        pet.kind == Kind::Primary,
        pet.position.x < 0,
        pet.size.x <= arena.width,
    ensures
        pet.contained(arena).position.x == 0,
        pet.contained(arena).position.y == clamped(pet.position.y, 0, arena.height - pet.size.y)
            - WALL_PENALTY,
        0 <= pet.position.y <= arena.height - pet.size.y ==> pet.contained(arena).position.y
            == pet.position.y - WALL_PENALTY,
{
}

/// While the button is held with the pointer on a primary, the frame leaves
/// the pet centered under the pointer, whatever the rolls and whatever
/// integrator and gravity would have done. Gravity and containment are
/// bypassed: the frame is timer, track and integrator, and then the pointer.
pub proof fn law_held_pet_follows_the_pointer(
    pet: PetView,
    input: FrameInput,
    decay_roll: int,
    pick_roll: int,
)
    requires
        pet.held_in(input),
    ensures
        input.pointer is Some,
        pet.framed(input, decay_roll, pick_roll).position == (Vector {
            x: input.pointer->0.x - pet.size.x / 2,
            y: input.pointer->0.y - pet.size.y / 2,
        }),
        pet.framed(input, decay_roll, pick_roll) == pet.scheduled(
            input.delta_nanos as nat,
            decay_roll,
            pick_roll,
        ).moved().carried_to(input.pointer->0),
{
}

/// A held pet stays held under a pointer that stays put with the button
/// down, and keeps its place: frame after frame its position is the same,
/// with no drift from gravity.
pub proof fn law_held_pet_does_not_drift(
    pet: PetView,
    input: FrameInput,
    decay_roll: int,
    pick_roll: int,
    next_decay_roll: int,
    next_pick_roll: int,
)
    requires
        pet.wf(),
        pet.held_in(input),
    ensures
        pet.framed(input, decay_roll, pick_roll).held_in(input),
        pet.framed(input, decay_roll, pick_roll).framed(
            input,
            next_decay_roll,
            next_pick_roll,
        ).position == pet.framed(input, decay_roll, pick_roll).position,
{
}

/// A frame that does not find the pet held is governed by timer, integrator,
/// gravity and containment alone: the pointer and the button have no
/// influence on it, and no earlier frame's pointer has either, since a pet
/// keeps no record of having been held.
pub proof fn law_free_frame_ignores_the_pointer(
    pet: PetView,
    a: FrameInput,
    b: FrameInput,
    decay_roll: int,
    pick_roll: int,
)
    requires
        !pet.held_in(a),
        !pet.held_in(b),
        a.delta_nanos == b.delta_nanos,
        a.arena == b.arena,
    ensures
        pet.framed(a, decay_roll, pick_roll) == pet.framed(b, decay_roll, pick_roll),
        pet.framed(a, decay_roll, pick_roll) == pet.scheduled(
            a.delta_nanos as nat,
            decay_roll,
            pick_roll,
        ).moved().fell().contained(a.arena),
{
}

} // verus!
