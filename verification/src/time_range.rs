//! Absolute time ranges over a niche-free time integer, plus a fixed-point
//! variant for sub-integer precision.

use vstd::prelude::*;

verus! {

/// An `i64` that can never be `i64::MIN`, so that the minimum value stays
/// available as a sentinel elsewhere.
#[derive(Clone, Copy, Debug, PartialEq, Eq, Hash)]
pub struct NonMinI64 {
    value: i64,
}

impl View for NonMinI64 {
    type V = int;

    closed spec fn view(&self) -> int {
        self.value as int
    }
}

/// Truncating midpoint of two integers, rounding towards zero.
pub open spec fn spec_midpoint(a: int, b: int) -> int {
    if a + b >= 0 {
        (a + b) / 2
    } else {
        -((-(a + b)) / 2)
    }
}

impl NonMinI64 {
    #[verifier::type_invariant]
    closed spec fn type_inv(self) -> bool {
        self.value != i64::MIN
    }

    /// Converts an `i64`, clamping `i64::MIN` to the smallest valid value.
    pub fn saturating_from_i64(value: i64) -> (r: Self)
        ensures
            r@ == if value == i64::MIN {
                i64::MIN + 1
            } else {
                value as int
            },
    {
        if value == i64::MIN {
            Self { value: i64::MIN + 1 }
        } else {
            Self { value }
        }
    }

    /// The wrapped value; never `i64::MIN`.
    pub fn get(&self) -> (r: i64)
        ensures
            r as int == self@,
            i64::MIN < self@ <= i64::MAX,
    {
        proof {
            use_type_invariant(self);
        }
        self.value
    }

    /// The smallest value this type can hold.
    pub fn min_value() -> (r: Self)
        ensures
            r@ == i64::MIN + 1,
    {
        Self { value: i64::MIN + 1 }
    }

    /// The largest value this type can hold.
    pub fn max_value() -> (r: Self)
        ensures
            r@ == i64::MAX as int,
    {
        Self { value: i64::MAX }
    }

    /// Midpoint of `self` and `other`, rounding towards zero.
    pub fn midpoint(&self, other: Self) -> (r: Self)
        ensures
            r@ == spec_midpoint(self@, other@),
    {
        proof {
            use_type_invariant(self);
            use_type_invariant(&other);
        }
        let sum: i128 = self.value as i128 + other.value as i128;
        let mid: i128 = if sum >= 0 {
            sum.checked_div_euclid(2).unwrap()
        } else {
            -((-sum).checked_div_euclid(2).unwrap())
        };
        Self { value: mid as i64 }
    }
}

/// An absolute, inclusive time range whose bounds can never be `i64::MIN`.
#[derive(Clone, Copy, Debug, PartialEq, Eq, Hash)]
pub struct AbsoluteTimeRange {
    pub min: NonMinI64,
    pub max: NonMinI64,
}

impl AbsoluteTimeRange {
    /// Creates a new temporal range, saturating each bound away from
    /// `i64::MIN`.
    pub fn new(min: i64, max: i64) -> (r: Self)
        ensures
            r.min@ == if min == i64::MIN {
                i64::MIN + 1
            } else {
                min as int
            },
            r.max@ == if max == i64::MIN {
                i64::MIN + 1
            } else {
                max as int
            },
    {
        Self {
            min: NonMinI64::saturating_from_i64(min),
            max: NonMinI64::saturating_from_i64(max),
        }
    }

    /// Creates a range directly from already-validated bounds.
    pub fn from_non_min(min: NonMinI64, max: NonMinI64) -> (r: Self)
        ensures
            r.min == min,
            r.max == max,
    {
        Self { min, max }
    }

    /// Creates a point range (`min == max`).
    pub fn point(time: i64) -> (r: Self)
        ensures
            r.min == r.max,
            r.min@ == if time == i64::MIN {
                i64::MIN + 1
            } else {
                time as int
            },
    {
        let time = NonMinI64::saturating_from_i64(time);
        Self { min: time, max: time }
    }

    /// The lower bound.
    pub fn min(&self) -> (r: NonMinI64)
        ensures
            r == self.min,
    {
        self.min
    }

    /// The upper bound.
    pub fn max(&self) -> (r: NonMinI64)
        ensures
            r == self.max,
    {
        self.max
    }

    /// Overwrites the start bound of the range.
    pub fn set_min(&mut self, time: i64)
        ensures
            final(self).min@ == if time == i64::MIN {
                i64::MIN + 1
            } else {
                time as int
            },
            final(self).max == old(self).max,
    {
        self.min = NonMinI64::saturating_from_i64(time);
    }

    /// Overwrites the end bound of the range.
    pub fn set_max(&mut self, time: i64)
        ensures
            final(self).max@ == if time == i64::MIN {
                i64::MIN + 1
            } else {
                time as int
            },
            final(self).min == old(self).min,
    {
        self.max = NonMinI64::saturating_from_i64(time);
    }

    /// The amount of time or sequences covered by this range.
    pub fn abs_length(&self) -> (r: u64)
        ensures
            r as int == if self.min@ >= self.max@ {
                self.min@ - self.max@
            } else {
                self.max@ - self.min@
            },
    {
        let a: i128 = self.min.get() as i128;
        let b: i128 = self.max.get() as i128;
        let d: i128 = if a >= b {
            a - b
        } else {
            b - a
        };
        d as u64
    }

    /// The midpoint of the range, rounding towards zero.
    pub fn center(&self) -> (r: NonMinI64)
        ensures
            r@ == spec_midpoint(self.min@, self.max@),
    {
        self.min.midpoint(self.max)
    }

    /// Is `time` inside the (inclusive) range?
    pub fn contains(&self, time: NonMinI64) -> (r: bool)
        ensures
            r == (self.min@ <= time@ <= self.max@),
    {
        self.min.get() <= time.get() && time.get() <= self.max.get()
    }

    /// Does this range fully contain the other?
    pub fn contains_range(&self, other: Self) -> (r: bool)
        ensures
            r == (self.min@ <= other.min@ && other.max@ <= self.max@),
    {
        self.min.get() <= other.min.get() && other.max.get() <= self.max.get()
    }

    /// Do the two (inclusive) ranges overlap in at least one point?
    pub fn intersects(&self, other: Self) -> (r: bool)
        ensures
            r == (self.min@ <= other.max@ && self.max@ >= other.min@),
    {
        self.min.get() <= other.max.get() && self.max.get() >= other.min.get()
    }

    /// The overlap of the two ranges, if there is one.
    pub fn intersection(&self, other: Self) -> (r: Option<Self>)
        ensures
            r is Some <==> (self.min@ <= other.max@ && self.max@ >= other.min@),
            r matches Some(s) ==> {
                &&& s.min@ == if self.min@ >= other.min@ {
                    self.min@
                } else {
                    other.min@
                }
                &&& s.max@ == if self.max@ <= other.max@ {
                    self.max@
                } else {
                    other.max@
                }
            },
    {
        if self.intersects(other) {
            let min = if self.min.get() >= other.min.get() {
                self.min
            } else {
                other.min
            };
            let max = if self.max.get() <= other.max.get() {
                self.max
            } else {
                other.max
            };
            Some(Self { min, max })
        } else {
            None
        }
    }

    /// The smallest range containing both ranges.
    pub fn union(&self, other: Self) -> (r: Self)
        ensures
            r.min@ == if self.min@ <= other.min@ {
                self.min@
            } else {
                other.min@
            },
            r.max@ == if self.max@ >= other.max@ {
                self.max@
            } else {
                other.max@
            },
    {
        let min = if self.min.get() <= other.min.get() {
            self.min
        } else {
            other.min
        };
        let max = if self.max.get() >= other.max.get() {
            self.max
        } else {
            other.max
        };
        Self { min, max }
    }
}

/// One bound of a time range that may be given relative to a cursor.
#[derive(Clone, Copy, Debug, PartialEq, Eq, Structural)]
pub enum TimeRangeBoundary {
    /// An offset from the current cursor position.
    CursorRelative(i64),
    /// A fixed point in time.
    Absolute(i64),
    /// The boundary extends as far as there is time at all.
    Infinite,
}

/// A time range whose bounds may be relative to a cursor; resolving it
/// against a cursor yields an `AbsoluteTimeRange`.
#[derive(Clone, Copy, Debug, PartialEq, Eq, Structural)]
pub struct RelativeTimeRange {
    pub start: TimeRangeBoundary,
    pub end: TimeRangeBoundary,
}

/// An `i64` sum clamped into the `i64` range.
pub open spec fn saturating_add_i64(a: int, b: int) -> int {
    if a + b < i64::MIN {
        i64::MIN as int
    } else if a + b > i64::MAX {
        i64::MAX as int
    } else {
        a + b
    }
}

/// Where a range starts whose start boundary is resolved against `cursor`:
/// an infinite start reaches back to the earliest time.
pub open spec fn spec_start_boundary_time(boundary: TimeRangeBoundary, cursor: int) -> int {
    match boundary {
        TimeRangeBoundary::CursorRelative(offset) => saturating_add_i64(cursor, offset as int),
        TimeRangeBoundary::Absolute(time) => time as int,
        TimeRangeBoundary::Infinite => i64::MIN as int,
    }
}

/// Where a range ends whose end boundary is resolved against `cursor`: an
/// infinite end reaches to the latest time.
pub open spec fn spec_end_boundary_time(boundary: TimeRangeBoundary, cursor: int) -> int {
    match boundary {
        TimeRangeBoundary::CursorRelative(offset) => saturating_add_i64(cursor, offset as int),
        TimeRangeBoundary::Absolute(time) => time as int,
        TimeRangeBoundary::Infinite => i64::MAX as int,
    }
}

/// Adds two machine integers, clamping into the representable range.
fn saturating_add_exec(a: i64, b: i64) -> (r: i64)
    ensures
        r as int == saturating_add_i64(a as int, b as int),
{
    let sum: i128 = a as i128 + b as i128;
    if sum < i64::MIN as i128 {
        i64::MIN
    } else if sum > i64::MAX as i128 {
        i64::MAX
    } else {
        sum as i64
    }
}

impl TimeRangeBoundary {
    /// Resolves this boundary as the start of a range.
    pub fn start_boundary_time(&self, cursor: i64) -> (r: i64)
        ensures
            r as int == spec_start_boundary_time(*self, cursor as int),
    {
        match self {
            TimeRangeBoundary::CursorRelative(offset) => saturating_add_exec(cursor, *offset),
            TimeRangeBoundary::Absolute(time) => *time,
            TimeRangeBoundary::Infinite => i64::MIN,
        }
    }

    /// Resolves this boundary as the end of a range.
    pub fn end_boundary_time(&self, cursor: i64) -> (r: i64)
        ensures
            r as int == spec_end_boundary_time(*self, cursor as int),
    {
        match self {
            TimeRangeBoundary::CursorRelative(offset) => saturating_add_exec(cursor, *offset),
            TimeRangeBoundary::Absolute(time) => *time,
            TimeRangeBoundary::Infinite => i64::MAX,
        }
    }
}

impl AbsoluteTimeRange {
    /// Resolves a possibly cursor-relative range against a cursor. The
    /// resolved bounds are swapped if they come out in the wrong order, so
    /// the result always has `min` at or before `max`.
    pub fn from_relative_time_range(range: &RelativeTimeRange, cursor: i64) -> (r: Self)
        ensures
            ({
                let a = spec_start_boundary_time(range.start, cursor as int);
                let b = spec_end_boundary_time(range.end, cursor as int);
                let lo = if a <= b {
                    a
                } else {
                    b
                };
                let hi = if a <= b {
                    b
                } else {
                    a
                };
                r.min@ == saturate_non_min(lo) && r.max@ == saturate_non_min(hi)
            }),
    {
        let mut min = range.start.start_boundary_time(cursor);
        let mut max = range.end.end_boundary_time(cursor);

        if min > max {
            let swapped = min;
            min = max;
            max = swapped;
        }

        Self::new(min, max)
    }
}

/// Number of fixed-point fractional steps per time unit: `2^32`.
pub const TIME_REAL_SCALE: i64 = 4294967296;

/// A time value with sub-unit precision: a fixed-point number counting
/// `1 / 2^32` fractions of a time unit.
#[derive(Clone, Copy, Debug, PartialEq, Eq, Hash)]
pub struct TimeReal {
    count: i128,
}

impl View for TimeReal {
    type V = int;

    closed spec fn view(&self) -> int {
        self.count as int
    }
}

impl TimeReal {
    /// The fixed-point count stays within the scaled `i64` range, so sums and
    /// differences of two values always fit in an `i128`.
    pub open spec fn wf(self) -> bool {
        i64::MIN * (TIME_REAL_SCALE as int) <= self@ <= i64::MAX * (TIME_REAL_SCALE as int)
    }

    /// The time unit count this value stands for, times `2^32`.
    pub fn fixed_count(&self) -> (r: i128)
        ensures
            r as int == self@,
    {
        self.count
    }

    /// Converts a whole number of time units.
    pub fn from_i64(value: i64) -> (r: Self)
        ensures
            r@ == value * (TIME_REAL_SCALE as int),
            r.wf(),
    {
        proof {
            vstd::arithmetic::mul::lemma_mul_inequality(
                i64::MIN as int,
                value as int,
                TIME_REAL_SCALE as int,
            );
            vstd::arithmetic::mul::lemma_mul_inequality(
                value as int,
                i64::MAX as int,
                TIME_REAL_SCALE as int,
            );
        }
        Self { count: value as i128 * TIME_REAL_SCALE as i128 }
    }

    /// Builds a value directly from a fixed-point count.
    pub fn from_fixed_count(count: i128) -> (r: Self)
        requires
            i64::MIN * (TIME_REAL_SCALE as int) <= count <= i64::MAX * (TIME_REAL_SCALE as int),
        ensures
            r@ == count as int,
            r.wf(),
    {
        Self { count }
    }

    /// Is this the same point in time as `other`?
    pub fn eq_time(&self, other: Self) -> (r: bool)
        ensures
            r == (self@ == other@),
    {
        self.count == other.count
    }

    /// Is this point in time at or before `other`?
    pub fn le_time(&self, other: Self) -> (r: bool)
        ensures
            r == (self@ <= other@),
    {
        self.count <= other.count
    }

    /// The difference `self - other`.
    pub fn sub(&self, other: Self) -> (r: Self)
        requires
            self.wf(),
            other.wf(),
        ensures
            r@ == self@ - other@,
    {
        Self { count: self.count - other.count }
    }

    /// Midpoint of `self` and `other`, rounding towards zero.
    pub fn midpoint(&self, other: Self) -> (r: Self)
        requires
            self.wf(),
            other.wf(),
        ensures
            r@ == spec_midpoint(self@, other@),
            r.wf(),
    {
        let sum: i128 = self.count + other.count;
        let mid: i128 = if sum >= 0 {
            sum.checked_div_euclid(2).unwrap()
        } else {
            -((-sum).checked_div_euclid(2).unwrap())
        };
        Self { count: mid }
    }

    /// The largest whole time unit at or below this value.
    pub fn floor(&self) -> (r: i64)
        requires
            self.wf(),
        ensures
            r as int == self@ / (TIME_REAL_SCALE as int),
    {
        proof {
            vstd::arithmetic::div_mod::lemma_div_is_ordered(
                i64::MIN * (TIME_REAL_SCALE as int),
                self@,
                TIME_REAL_SCALE as int,
            );
            vstd::arithmetic::div_mod::lemma_div_is_ordered(
                self@,
                i64::MAX * (TIME_REAL_SCALE as int),
                TIME_REAL_SCALE as int,
            );
            vstd::arithmetic::div_mod::lemma_div_multiples_vanish(
                i64::MIN as int,
                TIME_REAL_SCALE as int,
            );
            vstd::arithmetic::div_mod::lemma_div_multiples_vanish(
                i64::MAX as int,
                TIME_REAL_SCALE as int,
            );
        }
        let q: i128 = self.count.checked_div_euclid(TIME_REAL_SCALE as i128).unwrap();
        q as i64
    }

    /// The smallest whole time unit at or above this value.
    pub fn ceil(&self) -> (r: i64)
        requires
            self.wf(),
        ensures
            r as int == -((-self@) / (TIME_REAL_SCALE as int)),
    {
        proof {
            vstd::arithmetic::div_mod::lemma_div_is_ordered(
                -(i64::MAX * (TIME_REAL_SCALE as int)),
                -self@,
                TIME_REAL_SCALE as int,
            );
            vstd::arithmetic::div_mod::lemma_div_is_ordered(
                -self@,
                -(i64::MIN * (TIME_REAL_SCALE as int)),
                TIME_REAL_SCALE as int,
            );
            vstd::arithmetic::div_mod::lemma_div_multiples_vanish(
                -(i64::MIN as int),
                TIME_REAL_SCALE as int,
            );
            vstd::arithmetic::div_mod::lemma_div_multiples_vanish(
                -(i64::MAX as int),
                TIME_REAL_SCALE as int,
            );
        }
        let q: i128 = (-self.count).checked_div_euclid(TIME_REAL_SCALE as i128).unwrap();
        let r: i128 = -q;
        r as i64
    }
}

/// Like `AbsoluteTimeRange`, but using `TimeReal` for improved precision.
#[derive(Clone, Copy, Debug, PartialEq, Eq, Hash)]
pub struct AbsoluteTimeRangeF {
    pub min: TimeReal,
    pub max: TimeReal,
}

impl AbsoluteTimeRangeF {
    /// Both bounds stay within the scaled `i64` range.
    pub open spec fn wf(self) -> bool {
        self.min.wf() && self.max.wf()
    }

    /// Creates a new range from two bounds.
    pub fn new(min: TimeReal, max: TimeReal) -> (r: Self)
        ensures
            r.min == min,
            r.max == max,
    {
        Self { min, max }
    }

    /// Creates a point range (`min == max`).
    pub fn point(value: TimeReal) -> (r: Self)
        ensures
            r.min == value,
            r.max == value,
    {
        Self { min: value, max: value }
    }

    /// Is `value` inside the (inclusive) range?
    pub fn contains(&self, value: TimeReal) -> (r: bool)
        ensures
            r == (self.min@ <= value@ <= self.max@),
    {
        self.min.le_time(value) && value.le_time(self.max)
    }

    /// Returns the point in the center of the range, rounding towards zero.
    pub fn center(&self) -> (r: TimeReal)
        requires
            self.wf(),
        ensures
            r@ == spec_midpoint(self.min@, self.max@),
    {
        self.min.midpoint(self.max)
    }

    /// Does the range cover no time at all?
    pub fn is_empty(&self) -> (r: bool)
        ensures
            r == (self.min@ == self.max@),
    {
        self.min.eq_time(self.max)
    }

    /// The amount of time covered by this range.
    pub fn length(&self) -> (r: TimeReal)
        requires
            self.wf(),
        ensures
            r@ == self.max@ - self.min@,
    {
        self.max.sub(self.min)
    }

    /// Converts to an integer range by rounding the start down and the end
    /// up.
    pub fn to_int(self) -> (r: AbsoluteTimeRange)
        requires
            self.wf(),
        ensures
            r.min@ == saturate_non_min(self.min@ / (TIME_REAL_SCALE as int)),
            r.max@ == saturate_non_min(-((-self.max@) / (TIME_REAL_SCALE as int))),
    {
        AbsoluteTimeRange::new(self.min.floor(), self.max.ceil())
    }

    /// The fixed-point counterpart of an integer range.
    pub fn from_range(range: AbsoluteTimeRange) -> (r: Self)
        ensures
            r.min@ == range.min@ * (TIME_REAL_SCALE as int),
            r.max@ == range.max@ * (TIME_REAL_SCALE as int),
            r.wf(),
    {
        Self {
            min: TimeReal::from_i64(range.min.get()),
            max: TimeReal::from_i64(range.max.get()),
        }
    }
}

/// What `NonMinI64::saturating_from_i64` does to an arbitrary integer.
pub open spec fn saturate_non_min(v: int) -> int {
    if v <= i64::MIN {
        i64::MIN + 1
    } else if v > i64::MAX {
        i64::MAX as int
    } else {
        v
    }
}

} // verus!
