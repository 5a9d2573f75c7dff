//! One whole frame of a pet: the steps of [`crate::pet`] in their fixed
//! order, with the pickup controller deciding who governs the position.

use crate::model::{FrameInput, Grip, Kind};
use crate::pet::{boxin, gravity, manage_state, movement, schedule, Pet};
use vstd::prelude::*;

verus! {

/// What is left of a frame once timer and track have had their turn: the
/// integrator, then the pointer for a held pet, or gravity and containment
/// for a free one.
fn settle(pet: &mut Pet, input: &FrameInput, held: bool) -> (grip: Grip)
    requires
        old(pet).wf(),
        old(pet).has_headroom(),
        input.in_reach(),
        held ==> input.pointer is Some,
    ensures
        final(pet).wf(),
        final(pet).has_headroom(),
        final(pet)@ == if held {
            old(pet)@.moved().carried_to(input.pointer->0)
        } else {
            old(pet)@.moved().fell().contained(input.arena)
        },
        grip == if held {
            Grip::Held
        } else {
            Grip::Free
        },
{
    movement(pet);
    if held {
        match input.pointer {
            Some(pointer) => {
                pet.carry(pointer);
            },
            None => {},
        }
        Grip::Held
    } else {
        gravity(pet);
        boxin(pet, input.arena);
        Grip::Free
    }
}

/// Whether the frame finds the pet held.
fn grabbed(pet: &Pet, input: &FrameInput) -> (held: bool)
    requires
        pet.wf(),
        pet.has_headroom(),
    ensures
        held == pet@.held_in(*input),
{
    match pet.kind() {
        Kind::Primary => input.button_held && pet.is_hit(input.pointer),
        Kind::Follower => false,
    }
}

/// One frame for given rolls. The rolls matter only when the transition timer
/// completes a period in this frame. Returns whether the pet is held.
pub fn advance(pet: &mut Pet, input: &FrameInput, decay_roll: usize, pick_roll: usize) -> (grip:
    Grip)
    requires
        old(pet).wf(),
        old(pet).has_headroom(),
        input.in_reach(),
        decay_roll <= 3,
        pick_roll <= 1,
    ensures
        final(pet).wf(),
        final(pet).has_headroom(),
        final(pet)@ == old(pet)@.framed(*input, decay_roll as int, pick_roll as int),
        grip == if old(pet)@.held_in(*input) {
            Grip::Held
        } else {
            Grip::Free
        },
{
    let held = grabbed(pet, input);
    schedule(pet, input.delta_nanos, decay_roll, pick_roll);
    settle(pet, input, held)
}

/// One frame, with the rolls drawn from the random source when the transition
/// timer completes a period. Whatever is drawn, the outcome is that of
/// [`advance`] for some decay roll from 0 to 3 and some pick roll from 0 to
/// 1. Returns whether the pet is held.
pub fn frame(pet: &mut Pet, input: &FrameInput) -> (grip: Grip)
    requires
        old(pet).wf(),
        old(pet).has_headroom(),
        input.in_reach(),
    ensures
        final(pet).wf(),
        final(pet).has_headroom(),
        exists|decay_roll: int, pick_roll: int|
            0 <= decay_roll <= 3 && 0 <= pick_roll <= 1 && final(pet)@ == #[trigger] old(
                pet,
            )@.framed(*input, decay_roll, pick_roll),
        grip == if old(pet)@.held_in(*input) {
            Grip::Held
        } else {
            Grip::Free
        },
{
    let held = grabbed(pet, input);
    manage_state(pet, input.delta_nanos);
    let ghost scheduled = pet@;
    let grip = settle(pet, input, held);
    proof {
        let (decay_roll, pick_roll) = choose|decay_roll: int, pick_roll: int|
            0 <= decay_roll <= 3 && 0 <= pick_roll <= 1 && scheduled == #[trigger] old(
                pet,
            )@.scheduled(input.delta_nanos as nat, decay_roll, pick_roll);
        assert(pet@ == old(pet)@.framed(*input, decay_roll, pick_roll));
    }
    grip
}

} // verus!
