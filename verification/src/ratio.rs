//! Exact fractions, for the quantities that are no whole numbers: a phase in turns, an amplitude
//! relative to full scale, the frequency of a channel in hertz.

use vstd::prelude::*;

verus! {

/// The fraction `num / den`. A ratio whose denominator is zero stands for no number: nothing
/// lies within any distance of it, and it is out of every range.
#[derive(Clone, Copy, Debug)]
pub struct Ratio {
    pub num: i128,
    pub den: u64,
}

impl Ratio {
    /// The ratio `num / den`.
    pub fn new(num: i128, den: u64) -> (r: Ratio)
        ensures
            r == (Ratio { num, den }),
    {
        Ratio { num, den }
    }

    /// Whether the ratio stands for a number.
    pub open spec fn is_number(self) -> bool {
        self.den > 0
    }

    /// Whether both ratios are numbers, and the same number.
    pub open spec fn same_number(self, other: Ratio) -> bool {
        &&& self.is_number()
        &&& other.is_number()
        &&& self.num * other.den == other.num * self.den
    }

    /// Whether the ratio is a number and `low <= self <= high`, for whole numbers `low` and
    /// `high`.
    pub open spec fn between(self, low: int, high: int) -> bool {
        &&& self.is_number()
        &&& low * self.den <= self.num
        &&& self.num <= high * self.den
    }

    /// The largest whole number that is not above `self * scale`, for a ratio that is a number.
    pub open spec fn floor_scaled(self, scale: int) -> int {
        (self.num * scale) / (self.den as int)
    }

    /// Whether all three ratios are numbers and `self` differs from `other` by less than `bound`.
    pub open spec fn within(self, other: Ratio, bound: Ratio) -> bool {
        let diff = self.num * other.den - other.num * self.den;
        let scale = self.den * other.den;
        &&& self.is_number()
        &&& other.is_number()
        &&& bound.is_number()
        &&& diff * bound.den < bound.num * scale
        &&& -diff * bound.den < bound.num * scale
    }
}

} // verus!
