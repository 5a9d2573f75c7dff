//! The transition timer: a repeating clock with a fixed period, advanced by
//! the elapsed time of each frame.

use bevy::time::{Timer, TimerMode};
use std::time::Duration;
use vstd::prelude::*;

verus! {

/// Period of the transition timer: three simulated seconds, in nanoseconds.
pub const TRANSITION_PERIOD_NANOS: u64 = 3_000_000_000;

/// Time on the clock after `delta` more nanoseconds: the total wraps at every
/// full period.
pub open spec fn ticked(elapsed: nat, delta: nat) -> nat {
    (elapsed + delta) % (TRANSITION_PERIOD_NANOS as nat)
}

/// Whether `delta` more nanoseconds complete at least one period.
pub open spec fn fires(elapsed: nat, delta: nat) -> bool {
    elapsed + delta >= TRANSITION_PERIOD_NANOS
}

/// Advances a repeating `bevy::time::Timer` of the given period, holding
/// `elapsed_nanos`, by `delta_nanos` with `Timer::tick`, and reads back the
/// time it then holds (`Timer::elapsed`) and whether it finished
/// (`Timer::finished`).
///
/// Trusted: an unpaused repeating timer adds the delta to its elapsed time,
/// reports finished exactly when the sum reaches the period, and keeps the
/// remainder of the sum by the period.
#[verifier::external_body]
fn tick_repeating(period_nanos: u64, elapsed_nanos: u64, delta_nanos: u64) -> (r: (u64, bool))
    requires
        0 < period_nanos,
        elapsed_nanos < period_nanos,
    ensures
        r.0 == (elapsed_nanos + delta_nanos) % (period_nanos as int),
        r.1 == (elapsed_nanos + delta_nanos >= period_nanos),
{
    let mut timer = Timer::new(Duration::from_nanos(period_nanos), TimerMode::Repeating);
    timer.set_elapsed(Duration::from_nanos(elapsed_nanos));
    timer.tick(Duration::from_nanos(delta_nanos));
    (timer.elapsed().as_nanos() as u64, timer.finished())
}

/// A repeating clock with a period of [`TRANSITION_PERIOD_NANOS`].
#[derive(Clone, Copy, PartialEq, Eq, Debug, Structural)]
pub struct TransitionTimer {
    elapsed_nanos: u64,
}

impl View for TransitionTimer {
    type V = nat;

    /// The time elapsed in the current period, in nanoseconds.
    closed spec fn view(&self) -> nat {
        self.elapsed_nanos as nat
    }
}

impl TransitionTimer {
    /// The elapsed time stays below one period.
    pub open spec fn wf(self) -> bool {
        self@ < TRANSITION_PERIOD_NANOS
    }

    /// A clock at the start of its period.
    pub fn new() -> (t: TransitionTimer)
        ensures
            t.wf(),
            t@ == 0,
    {
        TransitionTimer { elapsed_nanos: 0 }
    }

    /// Nanoseconds elapsed in the current period.
    pub fn elapsed_nanos(&self) -> (e: u64)
        ensures
            e == self@,
    {
        self.elapsed_nanos
    }

    /// Advances the clock by `delta_nanos` and reports whether a period was
    /// completed by this advance.
    pub fn tick(&mut self, delta_nanos: u64) -> (fired: bool)
        requires
            old(self).wf(),
        ensures
            final(self).wf(),
            final(self)@ == ticked(old(self)@, delta_nanos as nat),
            fired == fires(old(self)@, delta_nanos as nat),
    {
        let (elapsed, fired) = tick_repeating(
            TRANSITION_PERIOD_NANOS,
            self.elapsed_nanos,
            delta_nanos,
        );
        self.elapsed_nanos = elapsed;
        fired
    }
}

} // verus!
