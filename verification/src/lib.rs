//! A desktop pet simulation: discrete behaviors, a timed random transition
//! policy, and a per-frame physics pipeline, all with machine-checked contracts.
//!
//! Each frame a pet goes through a fixed sequence: the pickup controller looks
//! at the pointer, the transition timer may mutate the behavior track, the
//! integrator turns the active behaviors into displacement, gravity pulls, and
//! containment brings the pet back into the window. [`frame::frame`] runs the
//! sequence; [`pet`] holds one function per step; [`model`] says in
//! mathematical terms what each step does; [`laws`] proves what follows.
//!
//! All lengths are fixed-point, in millionths of a pixel (see [`units`]), and
//! time is in nanoseconds. A caller turns window sizes, pointer samples and
//! frame times into these before a frame and turns positions back after.

pub mod clock;
mod dice;
pub mod display;
pub mod frame;
pub mod laws;
pub mod model;
pub mod pet;
pub mod state;
pub mod track;
pub mod units;
