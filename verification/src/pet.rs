//! The pet and the steps of its frame pipeline, one function per step.

use crate::clock::TransitionTimer;
use crate::dice::roll;
use crate::model::{
    accepts_clicks, informed, integrated, lead_of, smoothed, Kind, Motion, PetView, FOLLOW_OFFSET,
    GRAVITY, INITIAL_SPEED, JUMP_RISE, LAUNCH_SPEED, RESTING_SIZE, REST_SPEED, SMOOTHING, SPAWN_X,
    SPAWN_Y, WALL_PENALTY,
};
use crate::state::State;
use crate::track::{lemma_distinct_states_are_few, StateTrack};
use crate::units::{within, Arena, Point, Vector, COORD_MAX, POSITION_MAX};
use vstd::prelude::*;

verus! {

/// One simulated entity.
#[derive(Debug)]
pub struct Pet {
    kind: Kind,
    behaviors: StateTrack,
    position: Point,
    size: Point,
    speed: i64,
    timer: TransitionTimer,
}

impl View for Pet {
    type V = PetView;

    closed spec fn view(&self) -> PetView {
        PetView {
            kind: self.kind,
            behaviors: self.behaviors@,
            position: self.position@,
            size: self.size@,
            speed: self.speed as int,
            elapsed_nanos: self.timer@,
        }
    }
}

impl Pet {
    /// The invariant that every constructor establishes and every step keeps.
    pub open spec fn wf(&self) -> bool {
        self@.wf()
    }

    /// The position leaves room for any single step of the pipeline.
    pub open spec fn has_headroom(&self) -> bool {
        within(self@.position.x, POSITION_MAX as int) && within(
            self@.position.y,
            POSITION_MAX as int,
        )
    }

    /// A new pet: a primary for `type_` 1, a follower for any other value. It
    /// starts with a pending jump, at the spawn position, at its resting size.
    pub fn new(type_: u8) -> (pet: Pet)
        ensures
            pet.wf(),
            pet.has_headroom(),
            pet@ == (PetView {
                kind: if type_ == 1 {
                    Kind::Primary
                } else {
                    Kind::Follower
                },
                behaviors: seq![State::Jump],
                position: Vector { x: SPAWN_X as int, y: SPAWN_Y as int },
                size: Vector { x: RESTING_SIZE as int, y: RESTING_SIZE as int },
                speed: INITIAL_SPEED as int,
                elapsed_nanos: 0,
            }),
    {
        let mut behaviors = StateTrack::new();
        behaviors.push(State::Jump);
        assert(behaviors@ == seq![State::Jump]);
        Pet {
            kind: if type_ == 1 {
                Kind::Primary
            } else {
                Kind::Follower
            },
            behaviors,
            position: Point { x: SPAWN_X, y: SPAWN_Y },
            size: Point { x: RESTING_SIZE, y: RESTING_SIZE },
            speed: INITIAL_SPEED,
            timer: TransitionTimer::new(),
        }
    }

    /// A pet of the given kind, position and size, idle, at its initial
    /// speed. `None` when the size is not positive on both axes or exceeds
    /// [`COORD_MAX`], or when the position leaves no headroom.
    pub fn spawn(kind: Kind, position: Point, size: Point) -> (pet: Option<Pet>)
        ensures
            pet is Some <==> 0 < size.x <= COORD_MAX && 0 < size.y <= COORD_MAX
                && position.has_headroom(),
            pet matches Some(p) ==> p.wf() && p.has_headroom() && p@ == (PetView {
                kind,
                behaviors: Seq::<State>::empty(),
                position: position@,
                size: size@,
                speed: INITIAL_SPEED as int,
                elapsed_nanos: 0,
            }),
    {
        if 0 < size.x && size.x <= COORD_MAX && 0 < size.y && size.y <= COORD_MAX
            && position.is_roomy() {
            Some(
                Pet {
                    kind,
                    behaviors: StateTrack::new(),
                    position,
                    size,
                    speed: INITIAL_SPEED,
                    timer: TransitionTimer::new(),
                },
            )
        } else {
            None
        }
    }

    /// Moves the pet to `position` if that leaves headroom, and reports
    /// whether it did.
    pub fn place(&mut self, position: Point) -> (placed: bool)
        requires
            old(self).wf(),
        ensures
            final(self).wf(),
            placed == position.has_headroom(),
            final(self)@ == if placed {
                PetView { position: position@, ..old(self)@ }
            } else {
                old(self)@
            },
    {
        if position.is_roomy() {
            self.position = position;
            true
        } else {
            false
        }
    }

    /// Activates `s` unless it is active already, and reports whether it was
    /// added to the track.
    pub fn push_behavior(&mut self, s: State) -> (added: bool)
        requires
            old(self).wf(),
        ensures
            final(self).wf(),
            added == !old(self)@.behaviors.contains(s),
            final(self)@ == (PetView {
                behaviors: crate::track::pushed(old(self)@.behaviors, s),
                ..old(self)@
            }),
    {
        self.behaviors.push(s)
    }

    /// Deactivates the behavior activated last, if any, and returns it.
    pub fn pop_behavior(&mut self) -> (last: Option<State>)
        requires
            old(self).wf(),
        ensures
            final(self).wf(),
            last == if old(self)@.behaviors.len() > 0 {
                Some(old(self)@.behaviors.last())
            } else {
                None
            },
            final(self)@ == (PetView {
                behaviors: crate::track::popped(old(self)@.behaviors),
                ..old(self)@
            }),
    {
        self.behaviors.pop()
    }

    /// The pet's kind.
    pub fn kind(&self) -> (k: Kind)
        ensures
            k == self@.kind,
    {
        self.kind
    }

    /// The top-left corner of the pet's box.
    pub fn position(&self) -> (p: Point)
        ensures
            p@ == self@.position,
    {
        self.position
    }

    /// Width and height of the pet's box.
    pub fn size(&self) -> (p: Point)
        ensures
            p@ == self@.size,
    {
        self.size
    }

    /// The current horizontal speed, in units per frame.
    pub fn speed(&self) -> (v: i64)
        ensures
            v == self@.speed,
    {
        self.speed
    }

    /// The active behaviors.
    pub fn behaviors(&self) -> (t: &StateTrack)
        ensures
            t@ == self@.behaviors,
    {
        &self.behaviors
    }

    /// Nanoseconds elapsed in the current transition period.
    pub fn elapsed_nanos(&self) -> (e: u64)
        ensures
            e == self@.elapsed_nanos,
    {
        self.timer.elapsed_nanos()
    }

    /// Whether the pointer lies within the pet's box on both axes.
    pub fn is_hit(&self, pointer: Option<Point>) -> (hit: bool)
        requires
            self.wf(),
            self.has_headroom(),
        ensures
            hit == self@.hit_by(pointer),
    {
        match pointer {
            Some(p) => {
                self.position.x <= p.x && p.x <= self.position.x + self.size.x && self.position.y
                    <= p.y && p.y <= self.position.y + self.size.y
            },
            None => false,
        }
    }

    /// Centers the pet under the pointer.
    pub fn carry(&mut self, pointer: Point)
        requires
            old(self).wf(),
            pointer.in_reach(),
        ensures
            final(self).wf(),
            final(self).has_headroom(),
            final(self)@ == old(self)@.carried_to(pointer),
    {
        self.position = Point { x: pointer.x - self.size.x / 2, y: pointer.y - self.size.y / 2 };
    }

    /// The behavior a follower samples from this pet, given the sample it
    /// held before.
    pub fn sample(&self, before: State) -> (s: State)
        ensures
            s == self@.sampled(before),
    {
        match self.behaviors.get(0) {
            Some(s) => s,
            None => before,
        }
    }

    /// Runtime form of [`Pet::has_headroom`].
    pub fn is_roomy(&self) -> (b: bool)
        ensures
            b == self.has_headroom(),
    {
        self.position.is_roomy()
    }
}

/// The gravity step: a primary drifts down by [`GRAVITY`]; a follower is left
/// as it is.
pub fn gravity(pet: &mut Pet)
    requires
        old(pet).wf(),
        old(pet)@.position.y + GRAVITY <= i64::MAX,
    ensures
        final(pet).wf(),
        final(pet)@ == old(pet)@.fell(),
{
    match pet.kind {
        Kind::Primary => {
            pet.position = Point { x: pet.position.x, y: pet.position.y + GRAVITY };
        },
        Kind::Follower => {},
    }
}

/// The containment step: a primary is brought back into the window by four
/// corrections in a fixed order (floor, ceiling, left wall, right wall); a
/// wall that pushes it back also lifts it by [`WALL_PENALTY`]. A follower is
/// left as it is.
pub fn boxin(pet: &mut Pet, arena: Arena)
    requires
        old(pet).wf(),
        arena.in_reach(),
    ensures
        final(pet).wf(),
        final(pet)@ == old(pet)@.contained(arena),
{
    match pet.kind {
        Kind::Primary => {
            let floor: i64 = arena.height - pet.size.y;
            let wall: i64 = arena.width - pet.size.x;
            let mut x: i64 = pet.position.x;
            let mut y: i64 = pet.position.y;
            if y > floor {
                y = floor;
            }
            if y < 0 {
                y = 0;
            }
            if x < 0 {
                x = 0;
                y = y - WALL_PENALTY;
            }
            if x > wall {
                x = wall;
                y = y - WALL_PENALTY;
            }
            pet.position = Point { x, y };
        },
        Kind::Follower => {},
    }
}

/// The integrator step: the speed of a primary is smoothed once toward
/// [`REST_SPEED`], then each active behavior is applied in insertion order,
/// and every jump leaves the track once applied. A follower is left as it is.
pub fn movement(pet: &mut Pet)
    requires
        old(pet).wf(),
        old(pet).has_headroom(),
    ensures
        final(pet).wf(),
        final(pet)@ == old(pet)@.moved(),
        within(final(pet)@.position.x - old(pet)@.position.x, 4 * LAUNCH_SPEED),
        old(pet)@.position.y - 4 * JUMP_RISE <= final(pet)@.position.y <= old(pet)@.position.y,
{
    match pet.kind {
        Kind::Primary => {
            let ghost track = pet.behaviors@;
            let ghost start = Motion {
                position: pet.position@,
                speed: smoothed(pet.speed as int),
            };
            proof {
                lemma_distinct_states_are_few(track);
            }
            let n: usize = pet.behaviors.len();
            let x0: i64 = pet.position.x;
            let y0: i64 = pet.position.y;
            let mut speed: i64 = pet.speed - (pet.speed - REST_SPEED) / SMOOTHING;
            let mut x: i64 = x0;
            let mut y: i64 = y0;
            let mut i: usize = 0;
            assert(track.take(0) == Seq::<State>::empty());
            while i < n
                invariant
                    pet.behaviors@ == track,
                    n == track.len(),
                    n <= 4,
                    i <= n,
                    within(x0 as int, POSITION_MAX as int),
                    within(y0 as int, POSITION_MAX as int),
                    within(x - x0, i * 10_000_000),
                    y0 - i * 100_000_000 <= y <= y0,
                    REST_SPEED <= speed <= LAUNCH_SPEED,
                    integrated(track.take(i as int), start) == (Motion {
                        position: Vector { x: x as int, y: y as int },
                        speed: speed as int,
                    }),
                decreases n - i,
            {
                let s = pet.behaviors.get(i);
                proof {
                    let next = track.take(i + 1);
                    assert(next.drop_last() == track.take(i as int));
                    assert(next.last() == track[i as int]);
                }
                match s {
                    Some(State::Jump) => {
                        y = y - JUMP_RISE;
                        speed = LAUNCH_SPEED;
                    },
                    Some(State::Left) => {
                        x = x - speed;
                    },
                    Some(State::Right) => {
                        x = x + speed;
                    },
                    _ => {},
                }
                i += 1;
            }
            assert(track.take(n as int) == track);
            pet.behaviors.drop_jumps();
            pet.position = Point { x, y };
            pet.speed = speed;
        },
        Kind::Follower => {},
    }
}

/// The transition step for given rolls: the timer of a primary advances by
/// `delta_nanos`, and when that completes a period the track is mutated by
/// the transition policy. Returns whether the policy ran. A follower is left
/// as it is.
pub fn schedule(pet: &mut Pet, delta_nanos: u64, decay_roll: usize, pick_roll: usize) -> (fired:
    bool)
    requires
        old(pet).wf(),
        decay_roll <= 3,
        pick_roll <= 1,
    ensures
        final(pet).wf(),
        final(pet)@ == old(pet)@.scheduled(delta_nanos as nat, decay_roll as int, pick_roll as int),
        fired == (old(pet)@.kind == Kind::Primary && crate::clock::fires(
            old(pet)@.elapsed_nanos,
            delta_nanos as nat,
        )),
{
    match pet.kind {
        Kind::Primary => {
            let fired = pet.timer.tick(delta_nanos);
            if fired {
                pet.behaviors.transition(decay_roll, pick_roll);
            }
            fired
        },
        Kind::Follower => false,
    }
}

/// The transition step: as [`schedule`], with the rolls drawn from the
/// random source when the timer completes a period: first the decay roll,
/// and the pick roll only if the decay roll is not 0. Whatever is drawn, the
/// outcome is that of [`schedule`] for some decay roll from 0 to 3 and some
/// pick roll from 0 to 1.
pub fn manage_state(pet: &mut Pet, delta_nanos: u64) -> (fired: bool)
    requires
        old(pet).wf(),
    ensures
        final(pet).wf(),
        exists|decay_roll: int, pick_roll: int|
            0 <= decay_roll <= 3 && 0 <= pick_roll <= 1 && final(pet)@ == #[trigger] old(
                pet,
            )@.scheduled(delta_nanos as nat, decay_roll, pick_roll),
        fired == (old(pet)@.kind == Kind::Primary && crate::clock::fires(
            old(pet)@.elapsed_nanos,
            delta_nanos as nat,
        )),
{
    match pet.kind {
        Kind::Primary => {
            let fired = pet.timer.tick(delta_nanos);
            if fired {
                let decay_roll = roll(0, 3);
                let pick_roll = if decay_roll == 0 {
                    0
                } else {
                    roll(0, 1)
                };
                pet.behaviors.transition(decay_roll, pick_roll);
                assert(pet@ == old(pet)@.scheduled(
                    delta_nanos as nat,
                    decay_roll as int,
                    pick_roll as int,
                ));
            } else {
                assert(pet@ == old(pet)@.scheduled(delta_nanos as nat, 0, 0));
            }
            fired
        },
        Kind::Follower => {
            assert(pet@ == old(pet)@.scheduled(delta_nanos as nat, 0, 0));
            false
        },
    }
}

/// The views of `pets`, in order.
pub open spec fn views(pets: Seq<Pet>) -> Seq<PetView> {
    Seq::new(pets.len(), |i: int| pets[i]@)
}

/// The follower step, over all pets in order: each follower is placed beside
/// the nearest primary before it, shifted by [`FOLLOW_OFFSET`] toward the
/// side that the primary last sampled walks to. Primaries are left as they
/// are, and so is a follower that no primary precedes.
pub fn change_info(pets: &mut Vec<Pet>)
    requires
        forall|i: int| 0 <= i < old(pets)@.len() ==> (#[trigger] old(pets)@[i]).wf(),
        forall|i: int|
            0 <= i < old(pets)@.len() && (#[trigger] old(pets)@[i])@.kind == Kind::Primary
                ==> old(pets)@[i].has_headroom(),
    ensures
        views(final(pets)@) == informed(views(old(pets)@)),
        forall|i: int| 0 <= i < final(pets)@.len() ==> (#[trigger] final(pets)@[i]).wf(),
{
    let ghost before = views(pets@);
    let n: usize = pets.len();
    let mut sample: State = State::Jump;
    let mut anchor: Option<Point> = None;
    let mut i: usize = 0;
    assert(before.take(0) == Seq::<PetView>::empty());
    while i < n
        invariant
            i <= n,
            n == pets@.len(),
            before.len() == n,
            before == views(old(pets)@),
            forall|k: int| 0 <= k < n ==> (#[trigger] pets@[k]).wf(),
            forall|k: int| i <= k < n ==> (#[trigger] pets@[k])@ == before[k],
            forall|k: int|
                i <= k < n && (#[trigger] pets@[k])@.kind == Kind::Primary
                    ==> pets@[k].has_headroom(),
            forall|k: int| 0 <= k < i ==> (#[trigger] pets@[k])@ == informed(before)[k],
            lead_of(before.take(i as int)).sample == sample,
            lead_of(before.take(i as int)).anchor == match anchor {
                Some(a) => Some(a@),
                None => None,
            },
            anchor matches Some(a) ==> a.has_headroom(),
        decreases n - i,
    {
        proof {
            let next = before.take(i + 1);
            assert(next.drop_last() == before.take(i as int));
            assert(next.last() == before[i as int]);
        }
        let pet = &mut pets[i];
        match pet.kind {
            Kind::Primary => {
                sample = pet.sample(sample);
                anchor = Some(pet.position);
            },
            Kind::Follower => {
                match anchor {
                    Some(a) => {
                        let offset: i64 = match sample {
                            State::Left => -FOLLOW_OFFSET,
                            State::Right => FOLLOW_OFFSET,
                            _ => 0,
                        };
                        pet.position = Point { x: a.x + offset, y: a.y };
                    },
                    None => {},
                }
            },
        }
        i += 1;
    }
    assert(views(pets@) =~= informed(before));
}

/// The click-through decision: whether the window should accept clicks,
/// given the pointer sample and the pets as the frame finds them. It accepts
/// them exactly while the pointer is on some pet.
pub fn update_cursor_hit_test(pets: &Vec<Pet>, pointer: Option<Point>) -> (accept: bool)
    requires
        forall|i: int| 0 <= i < pets@.len() ==> (#[trigger] pets@[i]).wf(),
        forall|i: int| 0 <= i < pets@.len() ==> (#[trigger] pets@[i]).has_headroom(),
    ensures
        accept == accepts_clicks(views(pets@), pointer),
{
    let mut i: usize = 0;
    while i < pets.len()
        invariant
            i <= pets@.len(),
            forall|k: int| 0 <= k < pets@.len() ==> (#[trigger] pets@[k]).wf(),
            forall|k: int| 0 <= k < pets@.len() ==> (#[trigger] pets@[k]).has_headroom(),
            forall|k: int| 0 <= k < i ==> !(#[trigger] views(pets@)[k]).hit_by(pointer),
        decreases pets@.len() - i,
    {
        if pets[i].is_hit(pointer) {
            assert(views(pets@)[i as int].hit_by(pointer));
            return true;
        }
        i += 1;
    }
    false
}

} // verus!
