//! Fixed-point units shared by the analog parts of the library.

use vstd::prelude::*;

verus! {

/// One full stick deflection, or a fully pressed trigger, in fixed-point units.
pub const UNIT: i32 = 1_000_000;

/// Half a turn in thousandths of a degree.
pub const HALF_TURN: i32 = 180_000;

/// A full turn in thousandths of a degree.
pub const FULL_TURN: i32 = 360_000;

/// The value `v` limited to the interval from `lo` to `hi`: brought up to
/// `lo` if it is below, else down to `hi` if it is above.
pub open spec fn clamp_spec(v: int, lo: int, hi: int) -> int {
    if v < lo {
        lo
    } else if v > hi {
        hi
    } else {
        v
    }
}

/// Limits `v` to the interval from `lo` to `hi`. Where the interval is not
/// empty the result lies in it.
pub fn clamp_i32(v: i32, lo: i32, hi: i32) -> (r: i32)
    ensures
        r == clamp_spec(v as int, lo as int, hi as int),
        lo <= hi ==> lo <= r <= hi,
{
    if v < lo {
        lo
    } else if v > hi {
        hi
    } else {
        v
    }
}

} // verus!
