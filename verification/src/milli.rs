//! Fixed-point sensor readings.
//!
//! The sidecar reports temperatures, powers, clocks and loads as decimal
//! numbers with at most three fraction digits.  The library stores such a
//! reading exactly as a signed count of thousandths, so that parsing and
//! merging are loss-free and free of rounding questions.

use vstd::prelude::*;

verus! {

/// A decimal sensor reading, held as a count of thousandths of a unit.
///
/// `Milli(65_000)` is the reading `65.0`; `Milli(35_500)` is `35.5`.
#[derive(Clone, Copy, Debug, PartialEq, Eq, Structural)]
pub struct Milli(pub i64);

impl Milli {
    /// The reading as a mathematical number of thousandths.
    pub open spec fn view(self) -> int {
        self.0 as int
    }

    /// The whole number `n`, as a reading (`n.000`).
    pub fn from_int(n: i64) -> (r: Milli)
        requires
            -9_000_000_000_000_000 <= n <= 9_000_000_000_000_000,
        ensures
            r@ == n * 1000,
    {
        Milli(n * 1000)
    }

    /// The reading that holds exactly `t` thousandths.
    pub fn from_thousandths(t: i64) -> (r: Milli)
        ensures
            r@ == t,
    {
        Milli(t)
    }

    /// The count of thousandths.
    pub fn thousandths(self) -> (t: i64)
        ensures
            t == self@,
    {
        self.0
    }

    /// The reading truncated toward zero to a whole number of units, then
    /// clamped into `u32` (negative readings give `0`).  This is how a
    /// reading is narrowed into a baseline field that holds a plain `u32`.
    pub fn to_u32_truncated(self) -> (r: u32)
        ensures
            r == spec_milli_to_u32(self@),
    {
        if self.0 <= 0 {
            0
        } else {
            let units: i64 = self.0 / 1000;
            if units > u32::MAX as i64 {
                u32::MAX
            } else {
                units as u32
            }
        }
    }
}

/// Truncation of a count of thousandths toward zero into a `u32` unit count.
pub open spec fn spec_milli_to_u32(t: int) -> u32 {
    if t <= 0 {
        0
    } else if t / 1000 > u32::MAX {
        u32::MAX
    } else {
        (t / 1000) as u32
    }
}

} // verus!
