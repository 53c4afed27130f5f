use vstd::prelude::*;

verus! {

/// Simulation time, in milliseconds since the start of the game session.
///
/// All timing in the effect engine (cast times, tick boundaries, expiries)
/// is expressed in whole milliseconds, which is more than fine-grained
/// enough for a simulation that advances a few dozen times per second.
#[derive(Clone, Copy, PartialEq, Eq, Structural, Debug)]
pub struct ElapsedTime(pub u32);

/// Remaining-time fractions are reported in thousandths (0 = just started,
/// 1000 = fully elapsed).
pub const FRACTION_UNIT: u64 = 1000;

pub const MILLIS_PER_SECOND: u32 = 1000;

/// Fraction of the interval `[start, until]` that has elapsed at `now`,
/// in thousandths. An empty or inverted interval counts as fully elapsed;
/// a `now` before `start` counts as not started; a `now` past `until`
/// yields a value above `FRACTION_UNIT`.
pub open spec fn fraction_elapsed_permille(
    now: ElapsedTime,
    start: ElapsedTime,
    until: ElapsedTime,
) -> int {
    if until.0 <= start.0 {
        1000
    } else if now.0 <= start.0 {
        0
    } else {
        ((now.0 - start.0) * 1000) / (until.0 - start.0)
    }
}

impl ElapsedTime {
    pub fn is_earlier_than(self, other: ElapsedTime) -> (r: bool)
        ensures
            r == (self.0 < other.0),
    {
        self.0 < other.0
    }

    pub fn is_later_than(self, other: ElapsedTime) -> (r: bool)
        ensures
            r == (self.0 > other.0),
    {
        self.0 > other.0
    }

    pub fn max(self, other: ElapsedTime) -> (r: ElapsedTime)
        ensures
            r.0 == if self.0 >= other.0 { self.0 } else { other.0 },
    {
        if self.0 >= other.0 {
            self
        } else {
            other
        }
    }

    pub fn add_seconds(self, seconds: u32) -> (r: ElapsedTime)
        requires
            self.0 + seconds * MILLIS_PER_SECOND <= u32::MAX,
        ensures
            r.0 == self.0 + seconds * MILLIS_PER_SECOND,
    {
        ElapsedTime(self.0 + seconds * MILLIS_PER_SECOND)
    }

    /// How far `self` lies into the interval `[start, until]`, in
    /// thousandths of the interval's length.
    pub fn percentage_between(self, start: ElapsedTime, until: ElapsedTime) -> (r: u64)
        ensures
            r == fraction_elapsed_permille(self, start, until),
    {
        if until.0 <= start.0 {
            1000
        } else if self.0 <= start.0 {
            0
        } else {
            let num: u64 = ((self.0 - start.0) as u64) * 1000;
            num / ((until.0 - start.0) as u64)
        }
    }
}

} // verus!
