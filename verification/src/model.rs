//! The mathematical model of a pet and of every step of the frame pipeline.
//!
//! The contracts of the executable steps in [`crate::pet`] and
//! [`crate::frame`] equate what each step does with a function defined here.

use crate::clock::{fires, ticked, TRANSITION_PERIOD_NANOS};
use crate::state::State;
use crate::track::{transitioned, without_jumps};
use crate::units::{Arena, Point, Vector, COORD_MAX};
use vstd::prelude::*;

verus! {

/// Upward displacement of one jump.
pub const JUMP_RISE: i64 = 100_000_000;

/// Speed a jump resets the pet to.
pub const LAUNCH_SPEED: i64 = 10_000_000;

/// Speed that smoothing decays toward.
pub const REST_SPEED: i64 = 1_000_000;

/// Speed of a freshly created pet.
pub const INITIAL_SPEED: i64 = 3_000_000;

/// Each frame closes one part in this many of the gap between the speed and
/// [`REST_SPEED`].
pub const SMOOTHING: i64 = 10;

/// Downward drift per frame.
pub const GRAVITY: i64 = 3_000_000;

/// Upward correction applied when a pet is pushed back from a side wall.
pub const WALL_PENALTY: i64 = 3_500_000;

/// Horizontal distance a follower keeps from its leader while the leader
/// walks.
pub const FOLLOW_OFFSET: i64 = 10_000_000;

/// Where a new pet appears: far below any window, so that its first frames
/// bring it into view.
pub const SPAWN_X: i64 = 300_000_000;

/// See [`SPAWN_X`].
pub const SPAWN_Y: i64 = 10_000_000_000;

/// Width and height of a new pet.
pub const RESTING_SIZE: i64 = 100_000_000;

/// Distinguishes the pet that runs the full pipeline from the pets that
/// mirror it.
#[derive(Clone, Copy, PartialEq, Eq, Debug, Structural)]
pub enum Kind {
    /// Runs the behavior timer and the physics, and owns its position.
    Primary,
    /// Derives its position from the primary that precedes it.
    Follower,
}

/// The two states of the pickup controller.
#[derive(Clone, Copy, PartialEq, Eq, Debug, Structural)]
pub enum Grip {
    /// Integrator, gravity and containment govern the position.
    Free,
    /// The pointer governs the position.
    Held,
}

/// What the collaborators of the simulation supply for one frame.
#[derive(Clone, Copy, Debug)]
pub struct FrameInput {
    /// Time since the previous frame, in nanoseconds.
    pub delta_nanos: u64,
    /// Pointer position in the coordinate space of pet positions; `None`
    /// when the pointer is outside the window or unavailable.
    pub pointer: Option<Point>,
    /// Whether the primary mouse button is held.
    pub button_held: bool,
    /// The window rectangle.
    pub arena: Arena,
}

impl FrameInput {
    /// The pointer sample and the window dimensions are acceptable inputs.
    pub open spec fn in_reach(self) -> bool {
        &&& self.arena.in_reach()
        &&& self.pointer matches Some(p) ==> p.in_reach()
    }

    /// Runtime form of [`FrameInput::in_reach`].
    pub fn is_in_reach(&self) -> (b: bool)
        ensures
            b == self.in_reach(),
    {
        self.arena.is_in_reach() && match self.pointer {
            Some(p) => p.is_in_reach(),
            None => true,
        }
    }
}

/// Position and speed while the integrator walks along the track.
pub struct Motion {
    pub position: Vector,
    pub speed: int,
}

/// The speed after one smoothing step: the gap to [`REST_SPEED`] shrinks by a
/// tenth, rounded toward keeping the speed.
pub open spec fn smoothed(speed: int) -> int {
    speed - (speed - REST_SPEED) / (SMOOTHING as int)
}

/// The effect of one active behavior on position and speed.
pub open spec fn applied(m: Motion, s: State) -> Motion {
    match s {
        State::Jump => Motion {
            position: Vector { x: m.position.x, y: m.position.y - JUMP_RISE },
            speed: LAUNCH_SPEED as int,
        },
        State::Left => Motion {
            position: Vector { x: m.position.x - m.speed, y: m.position.y },
            speed: m.speed,
        },
        State::Right => Motion {
            position: Vector { x: m.position.x + m.speed, y: m.position.y },
            speed: m.speed,
        },
        State::Clim => m,
    }
}

/// The effect of every behavior of `track`, in insertion order, on `start`.
pub open spec fn integrated(track: Seq<State>, start: Motion) -> Motion
    decreases track.len(),
{
    if track.len() == 0 {
        start
    } else {
        applied(integrated(track.drop_last(), start), track.last())
    }
}

/// Horizontal offset of a follower for the behavior sampled from its leader.
pub open spec fn follow_offset(sample: State) -> int {
    match sample {
        State::Left => -FOLLOW_OFFSET,
        State::Right => FOLLOW_OFFSET as int,
        _ => 0,
    }
}

/// `value` held to the interval from `low` to `high` by clamping it to `high`
/// first and to `low` after.
pub open spec fn clamped(value: int, low: int, high: int) -> int {
    let capped = if value > high {
        high
    } else {
        value
    };
    if capped < low {
        low
    } else {
        capped
    }
}

/// A pet as its mathematical value.
pub struct PetView {
    pub kind: Kind,
    pub behaviors: Seq<State>,
    pub position: Vector,
    pub size: Vector,
    pub speed: int,
    pub elapsed_nanos: nat,
}

impl PetView {
    /// The invariant of a pet: no behavior is active twice, the size is
    /// positive, the speed lies between rest and launch, and the timer is
    /// inside its period.
    pub open spec fn wf(self) -> bool {
        &&& self.behaviors.no_duplicates()
        &&& 0 < self.size.x <= COORD_MAX
        &&& 0 < self.size.y <= COORD_MAX
        &&& REST_SPEED <= self.speed <= LAUNCH_SPEED
        &&& self.elapsed_nanos < TRANSITION_PERIOD_NANOS
    }

    /// The transition timer advanced by `delta_nanos`; when that completes a
    /// period, the track mutated by the transition policy for the two rolls.
    /// Followers do not run the timer.
    pub open spec fn scheduled(self, delta_nanos: nat, decay_roll: int, pick_roll: int) -> PetView {
        if self.kind == Kind::Primary {
            PetView {
                elapsed_nanos: ticked(self.elapsed_nanos, delta_nanos),
                behaviors: if fires(self.elapsed_nanos, delta_nanos) {
                    transitioned(self.behaviors, decay_roll, pick_roll)
                } else {
                    self.behaviors
                },
                ..self
            }
        } else {
            self
        }
    }

    /// The integrator step: the speed is smoothed once, then every active
    /// behavior is applied in insertion order, and the jumps leave the track.
    pub open spec fn moved(self) -> PetView {
        if self.kind == Kind::Primary {
            let end = integrated(
                self.behaviors,
                Motion { position: self.position, speed: smoothed(self.speed) },
            );
            PetView {
                behaviors: without_jumps(self.behaviors),
                position: end.position,
                speed: end.speed,
                ..self
            }
        } else {
            self
        }
    }

    /// The gravity step: a constant downward drift.
    pub open spec fn fell(self) -> PetView {
        if self.kind == Kind::Primary {
            PetView { position: Vector { x: self.position.x, y: self.position.y + GRAVITY }, ..self }
        } else {
            self
        }
    }

    /// Whether the left wall pushes the pet back.
    pub open spec fn hits_left_wall(self) -> bool {
        self.position.x < 0
    }

    /// Whether the right wall pushes the pet back, given that the left wall
    /// has had its turn.
    pub open spec fn hits_right_wall(self, arena: Arena) -> bool {
        (if self.position.x < 0 {
            0
        } else {
            self.position.x
        }) > arena.width - self.size.x
    }

    /// The containment step. Four corrections in a fixed order: the floor,
    /// the ceiling, the left wall, the right wall. Each wall that pushes the
    /// pet back also lifts it by [`WALL_PENALTY`].
    pub open spec fn contained(self, arena: Arena) -> PetView {
        if self.kind == Kind::Primary {
            let y = clamped(self.position.y, 0, arena.height - self.size.y);
            let left = self.hits_left_wall();
            let right = self.hits_right_wall(arena);
            PetView {
                position: Vector {
                    x: if right {
                        arena.width - self.size.x
                    } else if left {
                        0
                    } else {
                        self.position.x
                    },
                    y: y - (if left {
                        WALL_PENALTY as int
                    } else {
                        0
                    }) - (if right {
                        WALL_PENALTY as int
                    } else {
                        0
                    }),
                },
                ..self
            }
        } else {
            self
        }
    }

    /// Whether the pointer lies within the pet's box on both axes. An absent
    /// pointer hits nothing.
    pub open spec fn hit_by(self, pointer: Option<Point>) -> bool {
        match pointer {
            Some(p) => {
                &&& self.position.x <= p.x <= self.position.x + self.size.x
                &&& self.position.y <= p.y <= self.position.y + self.size.y
            },
            None => false,
        }
    }

    /// The pet centered under the pointer.
    pub open spec fn carried_to(self, pointer: Point) -> PetView {
        PetView {
            position: Vector { x: pointer.x - self.size.x / 2, y: pointer.y - self.size.y / 2 },
            ..self
        }
    }

    /// Whether this frame finds the pet held: it is a primary, the button is
    /// down, and the pointer is on it.
    pub open spec fn held_in(self, input: FrameInput) -> bool {
        self.kind == Kind::Primary && input.button_held && self.hit_by(input.pointer)
    }

    /// One whole frame for the two rolls: timer and track, then the
    /// integrator, then either the pointer (held) or gravity and containment
    /// (free). The hit test looks at the pet as the frame found it.
    pub open spec fn framed(self, input: FrameInput, decay_roll: int, pick_roll: int) -> PetView {
        let stepped = self.scheduled(input.delta_nanos as nat, decay_roll, pick_roll).moved();
        if self.held_in(input) {
            stepped.carried_to(input.pointer->0)
        } else {
            stepped.fell().contained(input.arena)
        }
    }

    /// The behavior a follower samples from this pet, given the sample it
    /// held before: the oldest active behavior, if any.
    pub open spec fn sampled(self, before: State) -> State {
        if self.behaviors.len() > 0 {
            self.behaviors[0]
        } else {
            before
        }
    }

    /// A follower placed beside the leader it was given; a primary, and a
    /// follower without a leader, stay where they are.
    pub open spec fn following(self, lead: Lead) -> PetView {
        match lead.anchor {
            Some(anchor) if self.kind == Kind::Follower => PetView {
                position: Vector { x: anchor.x + follow_offset(lead.sample), y: anchor.y },
                ..self
            },
            _ => self,
        }
    }
}

/// What a follower needs from the pets that precede it: the behavior last
/// sampled from a primary, and the position of the nearest primary.
pub struct Lead {
    pub sample: State,
    pub anchor: Option<Vector>,
}

/// The lead that `pets`, read in order, leave for whoever comes next. Before
/// any primary the sample is `Jump` and there is no anchor.
pub open spec fn lead_of(pets: Seq<PetView>) -> Lead
    decreases pets.len(),
{
    if pets.len() == 0 {
        Lead { sample: State::Jump, anchor: None }
    } else {
        let before = lead_of(pets.drop_last());
        let pet = pets.last();
        if pet.kind == Kind::Primary {
            Lead { sample: pet.sampled(before.sample), anchor: Some(pet.position) }
        } else {
            before
        }
    }
}

/// Every follower of `pets` placed beside the primary that precedes it.
pub open spec fn informed(pets: Seq<PetView>) -> Seq<PetView> {
    Seq::new(pets.len(), |i: int| pets[i].following(lead_of(pets.take(i))))
}

/// Whether the window should accept clicks rather than pass them through:
/// it does exactly while the pointer is on some pet. Without a pointer
/// sample no pet is hit, and clicks pass through.
pub open spec fn accepts_clicks(pets: Seq<PetView>, pointer: Option<Point>) -> bool {
    exists|i: int| 0 <= i < pets.len() && (#[trigger] pets[i]).hit_by(pointer)
}

} // verus!
