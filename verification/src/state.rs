//! The vocabulary of discrete behaviors a pet can be in.

use vstd::prelude::*;

verus! {

/// One discrete behavior. Its presence in a pet's track influences the pet's
/// position each frame.
#[derive(Clone, Copy, PartialEq, Eq, Debug, Structural)]
pub enum State {
    /// Walk toward the left edge.
    Left,
    /// Walk toward the right edge.
    Right,
    /// A one-shot upward impulse.
    Jump,
    /// Reserved; has no displacement effect.
    Clim,
}

impl State {
    /// The behavior with the given index: 0 is `Left`, 1 is `Right`, 2 is
    /// `Jump`, and every other index is `Clim`.
    pub open spec fn of_index(i: int) -> State {
        if i == 0 {
            State::Left
        } else if i == 1 {
            State::Right
        } else if i == 2 {
            State::Jump
        } else {
            State::Clim
        }
    }

    /// Decodes an index into a behavior.
    pub fn int2state(i: usize) -> (s: State)
        ensures
            s == State::of_index(i as int),
    {
        match i {
            0 => State::Left,
            1 => State::Right,
            2 => State::Jump,
            _ => State::Clim,
        }
    }
}

} // verus!
