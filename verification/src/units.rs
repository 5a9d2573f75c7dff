//! Fixed-point coordinates.
//!
//! Every length in this crate is a whole number of units, one millionth of a
//! logical pixel each. Positions use a top-left origin with `y` growing
//! downward.

use vstd::prelude::*;

verus! {

/// Number of units in one logical pixel.
pub const UNITS_PER_PIXEL: i64 = 1_000_000;

/// Largest magnitude accepted for a coordinate handed to the simulation from
/// outside: a pointer sample, a window dimension, a pet's size.
pub const COORD_MAX: i64 = 1_000_000_000_000_000_000;

/// Largest magnitude of a pet's position from which every single step of the
/// pipeline can still be taken without leaving the range of `i64`.
pub const POSITION_MAX: i64 = 4_000_000_000_000_000_000;

/// A point or an extent in the plane, as its mathematical value.
pub struct Vector {
    pub x: int,
    pub y: int,
}

/// A point or an extent in the plane, in units.
#[derive(Clone, Copy, PartialEq, Eq, Debug, Structural)]
pub struct Point {
    pub x: i64,
    pub y: i64,
}

impl View for Point {
    type V = Vector;

    open spec fn view(&self) -> Vector {
        Vector { x: self.x as int, y: self.y as int }
    }
}

/// Whether `v` lies within `limit` of zero.
pub open spec fn within(v: int, limit: int) -> bool {
    -limit <= v <= limit
}

impl Point {
    /// Both coordinates are acceptable as an outside input.
    pub open spec fn in_reach(self) -> bool {
        within(self.x as int, COORD_MAX as int) && within(self.y as int, COORD_MAX as int)
    }

    /// Both coordinates leave room for any single step of the pipeline.
    pub open spec fn has_headroom(self) -> bool {
        within(self.x as int, POSITION_MAX as int) && within(self.y as int, POSITION_MAX as int)
    }

    /// The point at `x` and `y` whole pixels; `None` when a coordinate would
    /// leave the accepted input range.
    pub fn from_pixels(x: i64, y: i64) -> (p: Option<Point>)
        ensures
            p is Some <==> within(x * UNITS_PER_PIXEL, COORD_MAX as int) && within(
                y * UNITS_PER_PIXEL,
                COORD_MAX as int,
            ),
            p matches Some(q) ==> q@ == (Vector {
                x: x * UNITS_PER_PIXEL,
                y: y * UNITS_PER_PIXEL,
            }),
    {
        let limit: i64 = COORD_MAX / UNITS_PER_PIXEL;
        if -limit <= x && x <= limit && -limit <= y && y <= limit {
            Some(Point { x: x * UNITS_PER_PIXEL, y: y * UNITS_PER_PIXEL })
        } else {
            None
        }
    }

    /// Runtime form of [`Point::in_reach`].
    pub fn is_in_reach(&self) -> (b: bool)
        ensures
            b == self.in_reach(),
    {
        -COORD_MAX <= self.x && self.x <= COORD_MAX && -COORD_MAX <= self.y && self.y <= COORD_MAX
    }

    /// Runtime form of [`Point::has_headroom`].
    pub fn is_roomy(&self) -> (b: bool)
        ensures
            b == self.has_headroom(),
    {
        -POSITION_MAX <= self.x && self.x <= POSITION_MAX && -POSITION_MAX <= self.y && self.y
            <= POSITION_MAX
    }
}

/// The visible window rectangle `[0, 0]`–`[width, height]`.
#[derive(Clone, Copy, PartialEq, Eq, Debug, Structural)]
pub struct Arena {
    pub width: i64,
    pub height: i64,
}

impl Arena {
    /// Both dimensions are acceptable as an outside input.
    pub open spec fn in_reach(self) -> bool {
        within(self.width as int, COORD_MAX as int) && within(self.height as int, COORD_MAX as int)
    }

    /// Runtime form of [`Arena::in_reach`].
    pub fn is_in_reach(&self) -> (b: bool)
        ensures
            b == self.in_reach(),
    {
        -COORD_MAX <= self.width && self.width <= COORD_MAX && -COORD_MAX <= self.height
            && self.height <= COORD_MAX
    }
}

} // verus!
