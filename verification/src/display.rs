//! Where a pet's image is shown: it trails the pet's position, covering a
//! fixed part of the remaining distance each frame.

use crate::units::{Point, Vector};
use vstd::prelude::*;

verus! {

/// Each frame the image covers one part in this many of the distance to the
/// pet.
pub const EASING: i64 = 10;

/// One coordinate of the image after a frame: a tenth of the way from
/// `shown` to `target`, rounded toward `shown`.
pub open spec fn eased(shown: int, target: int) -> int {
    if target >= shown {
        shown + (target - shown) / (EASING as int)
    } else {
        shown - (shown - target) / (EASING as int)
    }
}

/// An eased coordinate lies between where the image was and where the pet
/// is, and is strictly closer to the pet whenever the distance is at least
/// [`EASING`] units.
pub proof fn lemma_eased_approaches(shown: int, target: int)
    ensures
        shown <= target ==> shown <= eased(shown, target) <= target,
        target <= shown ==> target <= eased(shown, target) <= shown,
        target - shown >= EASING ==> eased(shown, target) > shown,
        shown - target >= EASING ==> eased(shown, target) < shown,
{
}

fn ease_coordinate(shown: i64, target: i64) -> (r: i64)
    ensures
        r == eased(shown as int, target as int),
{
    proof {
        lemma_eased_approaches(shown as int, target as int);
    }
    let step: i128 = if target >= shown {
        (target as i128 - shown as i128) / (EASING as i128)
    } else {
        (shown as i128 - target as i128) / (EASING as i128)
    };
    if target >= shown {
        (shown as i128 + step) as i64
    } else {
        (shown as i128 - step) as i64
    }
}

/// Where the image is shown after a frame, given where it was shown before
/// and where the pet is. An image that was not placed yet appears on the
/// pet.
pub fn ease_toward(shown: Option<Point>, target: Point) -> (r: Point)
    ensures
        r@ == match shown {
            Some(s) => Vector {
                x: eased(s.x as int, target.x as int),
                y: eased(s.y as int, target.y as int),
            },
            None => target@,
        },
{
    match shown {
        Some(s) => Point { x: ease_coordinate(s.x, target.x), y: ease_coordinate(s.y, target.y) },
        None => target,
    }
}

} // verus!
