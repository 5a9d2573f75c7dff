//! The behavior track: the ordered collection of a pet's active behaviors,
//! and the policy that mutates it once per transition period.
//!
//! A track holds each behavior at most once. The transition policy is a pure
//! function of the current track and two dice rolls:
//!
//! | decay roll | track            | result                                          |
//! |------------|------------------|-------------------------------------------------|
//! | 0          | empty            | unchanged                                       |
//! | 0          | non-empty        | last entry dropped                              |
//! | 1..=3      | empty            | the pick pushed                                 |
//! | 1..=3      | last is the pick | last dropped, `Jump` pushed, the pick pushed    |
//! | 1..=3      | otherwise        | last dropped, the pick pushed                   |
//!
//! A push is skipped when the behavior already occupies the track; the pick
//! that follows an interposed `Jump` is always pushed. Repeating a direction
//! twice in a row thus interposes a jump, by design.

use crate::state::State;
use vstd::prelude::*;

verus! {

/// `track` after pushing `s`, unless `s` already occupies it.
pub open spec fn pushed(track: Seq<State>, s: State) -> Seq<State> {
    if track.contains(s) {
        track
    } else {
        track.push(s)
    }
}

/// `track` without its last entry; an empty track stays empty.
pub open spec fn popped(track: Seq<State>) -> Seq<State> {
    if track.len() > 0 {
        track.drop_last()
    } else {
        track
    }
}

/// The track that the transition policy makes of `track` for a decay roll
/// and a pick roll.
pub open spec fn transitioned(track: Seq<State>, decay_roll: int, pick_roll: int) -> Seq<State> {
    let pick = State::of_index(pick_roll);
    if decay_roll == 0 {
        popped(track)
    } else if track.len() > 0 && track.last() == pick {
        pushed(popped(track), State::Jump).push(pick)
    } else {
        pushed(popped(track), pick)
    }
}

/// `track` without its `Jump` entries, the other entries in order.
pub open spec fn without_jumps(track: Seq<State>) -> Seq<State> {
    track.filter(|s: State| s != State::Jump)
}

/// Number of `Jump` entries of `track`.
pub open spec fn jump_count(track: Seq<State>) -> nat {
    track.filter(|s: State| s == State::Jump).len()
}

/// Removing the jumps of a track of one more entry: the last entry is kept
/// unless it is a jump.
pub proof fn lemma_without_jumps_step(track: Seq<State>)
    requires
        track.len() > 0,
    ensures
        without_jumps(track) == if track.last() == State::Jump {
            without_jumps(track.drop_last())
        } else {
            without_jumps(track.drop_last()).push(track.last())
        },
        jump_count(track) == jump_count(track.drop_last()) + if track.last() == State::Jump {
            1nat
        } else {
            0nat
        },
{
    reveal(Seq::filter);
}

/// What removing the jumps leaves: every other entry and no jump, one entry
/// fewer for each jump, and no repetition where there was none.
pub proof fn lemma_without_jumps(track: Seq<State>)
    ensures
        !without_jumps(track).contains(State::Jump),
        forall|s: State| #[trigger]
            without_jumps(track).contains(s) <==> s != State::Jump && track.contains(s),
        without_jumps(track).len() + jump_count(track) == track.len(),
        track.no_duplicates() ==> without_jumps(track).no_duplicates(),
    decreases track.len(),
{
    let kept = without_jumps(track);
    if track.len() > 0 {
        let init = track.drop_last();
        let last = track.last();
        let before = without_jumps(init);
        lemma_without_jumps(init);
        lemma_without_jumps_step(track);
        assert forall|s: State| track.contains(s) <==> s == last || init.contains(s) by {
            if track.contains(s) {
                let i = choose|i: int| 0 <= i < track.len() && track[i] == s;
                assert(i < init.len() ==> init[i] == s);
            }
            if init.contains(s) {
                let i = choose|i: int| 0 <= i < init.len() && init[i] == s;
                assert(track[i] == s);
            }
            assert(track[track.len() - 1] == last);
        }
        if track.no_duplicates() {
            lemma_popped_is_distinct(track);
        }
        if last != State::Jump {
            assert(kept[before.len() as int] == last);
            assert forall|s: State| kept.contains(s) <==> s == last || before.contains(s) by {
                if kept.contains(s) {
                    let i = choose|i: int| 0 <= i < kept.len() && kept[i] == s;
                    assert(i < before.len() ==> before[i] == s);
                }
                if before.contains(s) {
                    let i = choose|i: int| 0 <= i < before.len() && before[i] == s;
                    assert(kept[i] == s);
                }
            }
            if track.no_duplicates() {
                lemma_pushed_is_distinct(before, last);
            }
        }
    }
}

/// A sequence of behaviors without repetition has at most four entries.
pub proof fn lemma_distinct_states_are_few(track: Seq<State>)
    requires
        track.no_duplicates(),
    ensures
        track.len() <= 4,
{
    if track.len() >= 5 {
        assert(track[0] != track[1] && track[0] != track[2] && track[0] != track[3] && track[0]
            != track[4]);
        assert(track[1] != track[2] && track[1] != track[3] && track[1] != track[4]);
        assert(track[2] != track[3] && track[2] != track[4]);
        assert(track[3] != track[4]);
    }
}

/// Pushing a behavior that the track lacks keeps it free of repetition.
pub proof fn lemma_pushed_is_distinct(track: Seq<State>, s: State)
    requires
        track.no_duplicates(),
    ensures
        pushed(track, s).no_duplicates(),
        pushed(track, s).contains(s),
        forall|t: State| track.contains(t) ==> #[trigger] pushed(track, s).contains(t),
        forall|t: State| #[trigger] pushed(track, s).contains(t) ==> t == s || track.contains(t),
{
    let r = pushed(track, s);
    if !track.contains(s) {
        assert(r[track.len() as int] == s);
        assert forall|t: State| track.contains(t) implies #[trigger] r.contains(t) by {
            let i = choose|i: int| 0 <= i < track.len() && track[i] == t;
            assert(r[i] == t);
        }
    }
}

/// Dropping the last entry keeps a track free of repetition and adds nothing.
pub proof fn lemma_popped_is_distinct(track: Seq<State>)
    requires
        track.no_duplicates(),
    ensures
        popped(track).no_duplicates(),
        forall|t: State| #[trigger] popped(track).contains(t) ==> track.contains(t),
        track.len() > 0 ==> !popped(track).contains(track.last()),
{
    let r = popped(track);
    assert forall|t: State| #[trigger] r.contains(t) implies track.contains(t) by {
        let i = choose|i: int| 0 <= i < r.len() && r[i] == t;
        assert(track[i] == t);
    }
    if track.len() > 0 && r.contains(track.last()) {
        let i = choose|i: int| 0 <= i < r.len() && r[i] == track.last();
        assert(track[i] == track[track.len() - 1]);
    }
}

/// The transition policy keeps a track free of repetition.
pub proof fn lemma_transition_keeps_distinct(track: Seq<State>, decay_roll: int, pick_roll: int)
    requires
        track.no_duplicates(),
        0 <= pick_roll <= 1,
    ensures
        transitioned(track, decay_roll, pick_roll).no_duplicates(),
{
    let pick = State::of_index(pick_roll);
    let rest = popped(track);
    lemma_popped_is_distinct(track);
    if decay_roll == 0 {
    } else if track.len() > 0 && track.last() == pick {
        lemma_pushed_is_distinct(rest, State::Jump);
        let mid = pushed(rest, State::Jump);
        assert(!mid.contains(pick));
        lemma_pushed_is_distinct(mid, pick);
        assert(pushed(mid, pick) == mid.push(pick));
    } else {
        lemma_pushed_is_distinct(rest, pick);
    }
}

/// The ordered collection of a pet's active behaviors. The empty track
/// denotes an idle pet.
#[derive(Debug)]
pub struct StateTrack {
    entries: Vec<State>,
}

impl View for StateTrack {
    type V = Seq<State>;

    /// The active behaviors in insertion order.
    closed spec fn view(&self) -> Seq<State> {
        self.entries@
    }
}

impl StateTrack {
    /// No behavior occupies the track twice.
    pub open spec fn wf(&self) -> bool {
        self@.no_duplicates()
    }

    /// The empty track.
    pub fn new() -> (t: StateTrack)
        ensures
            t.wf(),
            t@ == Seq::<State>::empty(),
    {
        StateTrack { entries: Vec::new() }
    }

    /// Number of active behaviors.
    pub fn len(&self) -> (n: usize)
        ensures
            n == self@.len(),
    {
        self.entries.len()
    }

    /// The behavior at position `i` in insertion order, if there is one.
    pub fn get(&self, i: usize) -> (s: Option<State>)
        ensures
            s == if i < self@.len() {
                Some(self@[i as int])
            } else {
                None
            },
    {
        if i < self.entries.len() {
            Some(self.entries[i])
        } else {
            None
        }
    }

    /// Whether `s` occupies the track.
    pub fn contains(&self, s: State) -> (b: bool)
        ensures
            b == self@.contains(s),
    {
        let mut i: usize = 0;
        while i < self.entries.len()
            invariant
                i <= self.entries@.len(),
                forall|k: int| 0 <= k < i ==> self.entries@[k] != s,
            decreases self.entries@.len() - i,
        {
            if self.entries[i] == s {
                return true;
            }
            i += 1;
        }
        false
    }

    /// The active behaviors in insertion order, as a vector of their own.
    pub fn to_vec(&self) -> (v: Vec<State>)
        ensures
            v@ == self@,
    {
        let mut entries: Vec<State> = Vec::new();
        let mut i: usize = 0;
        while i < self.entries.len()
            invariant
                i <= self.entries@.len(),
                entries@ == self.entries@.take(i as int),
            decreases self.entries@.len() - i,
        {
            entries.push(self.entries[i]);
            assert(self.entries@.take(i + 1) == self.entries@.take(i as int).push(
                self.entries@[i as int],
            ));
            i += 1;
        }
        assert(self.entries@.take(self.entries@.len() as int) == self.entries@);
        entries
    }

    /// Removes and returns the last entry; an empty track is left as it is.
    pub fn pop(&mut self) -> (last: Option<State>)
        requires
            old(self).wf(),
        ensures
            final(self).wf(),
            final(self)@ == popped(old(self)@),
            last == if old(self)@.len() > 0 {
                Some(old(self)@.last())
            } else {
                None
            },
    {
        proof {
            lemma_popped_is_distinct(self@);
        }
        self.entries.pop()
    }

    /// Pushes `s` unless it already occupies the track, and reports whether it
    /// was pushed.
    pub fn push(&mut self, s: State) -> (added: bool)
        requires
            old(self).wf(),
        ensures
            final(self).wf(),
            final(self)@ == pushed(old(self)@, s),
            added == !old(self)@.contains(s),
    {
        proof {
            lemma_pushed_is_distinct(self@, s);
        }
        if self.contains(s) {
            false
        } else {
            self.entries.push(s);
            true
        }
    }

    /// Removes every `Jump` entry and returns how many there were.
    pub fn drop_jumps(&mut self) -> (removed: usize)
        requires
            old(self).wf(),
        ensures
            final(self).wf(),
            final(self)@ == without_jumps(old(self)@),
            removed == jump_count(old(self)@),
    {
        let mut kept: Vec<State> = Vec::new();
        let mut removed: usize = 0;
        let mut i: usize = 0;
        assert(self.entries@.take(0) == Seq::<State>::empty());
        proof {
            reveal(Seq::filter);
        }
        while i < self.entries.len()
            invariant
                i <= self.entries@.len(),
                kept@ == without_jumps(self.entries@.take(i as int)),
                removed == jump_count(self.entries@.take(i as int)),
                removed <= i,
            decreases self.entries@.len() - i,
        {
            let s = self.entries[i];
            proof {
                let next = self.entries@.take(i + 1);
                assert(next.drop_last() == self.entries@.take(i as int));
                lemma_without_jumps_step(next);
            }
            if s == State::Jump {
                removed += 1;
            } else {
                kept.push(s);
            }
            i += 1;
        }
        proof {
            assert(self.entries@.take(self.entries@.len() as int) == self.entries@);
            lemma_without_jumps(self.entries@);
        }
        self.entries = kept;
        removed
    }

    /// Applies the transition policy for the two rolls.
    pub fn transition(&mut self, decay_roll: usize, pick_roll: usize)
        requires
            old(self).wf(),
            decay_roll <= 3,
            pick_roll <= 1,
        ensures
            final(self).wf(),
            final(self)@ == transitioned(old(self)@, decay_roll as int, pick_roll as int),
    {
        proof {
            lemma_transition_keeps_distinct(self@, decay_roll as int, pick_roll as int);
        }
        if decay_roll == 0 {
            self.pop();
        } else {
            let pick = State::int2state(pick_roll);
            match self.pop() {
                Some(last) => {
                    if last == pick {
                        self.push(State::Jump);
                        self.entries.push(pick);
                    } else {
                        self.push(pick);
                    }
                },
                None => {
                    self.push(pick);
                },
            }
        }
    }
}

} // verus!
