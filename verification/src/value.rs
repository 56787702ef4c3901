//! Fixed-point scalars and closed ranges over them.
//!
//! Every control value and parameter value of this library is a signed
//! fixed-point number with sixteen fractional bits, held in an `i64`.

use vstd::prelude::*;

verus! {

/// The fixed-point scalar that stands for the number one.
pub const ONE: i64 = 65536;

/// The fixed-point scalar that stands for the whole number `whole`.
pub fn from_int(whole: i32) -> (scalar: i64)
    ensures
        scalar == whole * ONE,
{
    let wide: i64 = whole as i64;
    wide * ONE
}

/// A closed, non-empty interval `[min, max]` of scalars.
#[derive(Clone, Copy, Debug, PartialEq, Eq)]
pub struct ValueRange {
    min: i64,
    max: i64,
}

impl ValueRange {
    #[verifier::type_invariant]
    spec fn inv(&self) -> bool {
        self.min <= self.max
    }

    /// The lower bound, in contracts.
    pub closed spec fn lo(&self) -> i64 {
        self.min
    }

    /// The upper bound, in contracts.
    pub closed spec fn hi(&self) -> i64 {
        self.max
    }

    /// Whether `v` lies in the interval, in contracts.
    pub open spec fn holds(&self, v: i64) -> bool {
        self.lo() <= v <= self.hi()
    }

    /// The interval `[min, max]`, or nothing where `min` exceeds `max`.
    pub fn new(min: i64, max: i64) -> (range: Option<ValueRange>)
        ensures
            range.is_some() == (min <= max),
            range matches Some(r) ==> r.lo() == min && r.hi() == max,
    {
        if min <= max {
            Some(ValueRange { min, max })
        } else {
            None
        }
    }

    /// The lower bound.
    pub fn min(&self) -> (m: i64)
        ensures
            m == self.lo(),
            m <= self.hi(),
    {
        proof {
            use_type_invariant(self);
        }
        self.min
    }

    /// The upper bound.
    pub fn max(&self) -> (m: i64)
        ensures
            m == self.hi(),
            self.lo() <= m,
    {
        proof {
            use_type_invariant(self);
        }
        self.max
    }

    /// Whether `v` lies in the interval.
    pub fn contains(&self, v: i64) -> (inside: bool)
        ensures
            inside == self.holds(v),
    {
        self.min <= v && v <= self.max
    }

    /// The scalar of the interval that is nearest to `v`.
    pub fn clamp(&self, v: i64) -> (nearest: i64)
        ensures
            nearest == clamp_to(v, self.lo(), self.hi()),
            self.holds(nearest),
    {
        proof {
            use_type_invariant(self);
        }
        if v < self.min {
            self.min
        } else if v > self.max {
            self.max
        } else {
            v
        }
    }
}

/// The scalar of `[lo, hi]` that is nearest to `v`.
pub open spec fn clamp_to(v: i64, lo: i64, hi: i64) -> i64 {
    if v < lo {
        lo
    } else if v > hi {
        hi
    } else {
        v
    }
}

} // verus!
