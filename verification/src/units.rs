//! Fixed-point quantities.
//!
//! Temperatures, percentages and power draw are carried as integer counts of
//! thousandths, and factors as exact fractions, so that every comparison and
//! every rounding step is exact.

use vstd::prelude::*;

verus! {

/// A temperature in thousandths of a degree Celsius.
#[derive(Debug, Clone, Copy, PartialEq, Eq, Hash, Structural)]
pub struct Celsius {
    /// Thousandths of a degree.
    pub millis: i32,
}

impl Celsius {
    /// A temperature given in thousandths of a degree.
    #[must_use]
    pub fn from_millis(millis: i32) -> (t: Celsius)
        ensures
            t.millis == millis,
    {
        Celsius { millis }
    }

    /// A temperature given in whole degrees.
    #[must_use]
    pub fn from_degrees(degrees: i16) -> (t: Celsius)
        ensures
            t.millis == degrees * 1000,
    {
        let wide: i32 = degrees as i32;
        Celsius { millis: wide * 1000 }
    }

    /// Whether `self` is strictly hotter than `other`.
    pub open spec fn spec_above(&self, other: Celsius) -> bool {
        self.millis > other.millis
    }

    /// Whether `self` is strictly hotter than `other`.
    #[must_use]
    pub fn above(&self, other: Celsius) -> (hotter: bool)
        ensures
            hotter == self.spec_above(other),
    {
        self.millis > other.millis
    }
}

/// A percentage in thousandths of a percent.
#[derive(Debug, Clone, Copy, PartialEq, Eq, Hash, Structural)]
pub struct Percent {
    /// Thousandths of a percent.
    pub millis: u64,
}

impl Percent {
    /// A percentage given in thousandths of a percent.
    #[must_use]
    pub fn from_millis(millis: u64) -> (p: Percent)
        ensures
            p.millis == millis,
    {
        Percent { millis }
    }

    /// `part` as a share of `whole`, rounded down to a thousandth of a
    /// percent and capped at the largest representable value.
    pub open spec fn spec_share(part: u64, whole: u64) -> nat
        recommends
            whole > 0,
    {
        let exact: int = (part * 100_000) / (whole as int);
        if exact > u64::MAX {
            u64::MAX as nat
        } else {
            exact as nat
        }
    }

    /// `part` as a share of `whole`.
    #[must_use]
    pub fn share(part: u64, whole: u64) -> (p: Percent)
        requires
            whole > 0,
        ensures
            p.millis == Self::spec_share(part, whole),
    {
        let scaled: u128 = (part as u128) * 100_000u128;
        let exact: u128 = scaled / (whole as u128);
        if exact > u64::MAX as u128 {
            Percent { millis: u64::MAX }
        } else {
            Percent { millis: exact as u64 }
        }
    }
}

/// A power draw in thousandths of a watt.
#[derive(Debug, Clone, Copy, PartialEq, Eq, Hash, Structural)]
pub struct Watts {
    /// Thousandths of a watt.
    pub millis: u32,
}

impl Watts {
    /// A power draw given in thousandths of a watt.
    #[must_use]
    pub fn from_millis(millis: u32) -> (w: Watts)
        ensures
            w.millis == millis,
    {
        Watts { millis }
    }
}

/// An exact non-negative fraction `num / den`.
#[derive(Debug, Clone, Copy, PartialEq, Eq, Hash, Structural)]
pub struct Ratio {
    /// Numerator.
    pub num: u64,
    /// Denominator; zero makes the fraction meaningless.
    pub den: u64,
}

impl Ratio {
    /// The fraction `num / den`.
    #[must_use]
    pub fn new(num: u64, den: u64) -> (r: Ratio)
        ensures
            r.num == num,
            r.den == den,
    {
        Ratio { num, den }
    }

    /// `amount` multiplied by the fraction, rounded down and capped at
    /// `u64::MAX`.
    pub open spec fn spec_apply(&self, amount: u64) -> nat
        recommends
            self.den > 0,
    {
        let exact: int = (amount * self.num) / (self.den as int);
        if exact > u64::MAX {
            u64::MAX as nat
        } else {
            exact as nat
        }
    }

    /// `amount` multiplied by the fraction, rounded down.
    #[must_use]
    pub fn apply(&self, amount: u64) -> (scaled: u64)
        requires
            self.den > 0,
        ensures
            scaled == self.spec_apply(amount),
    {
        assert(amount * self.num <= u64::MAX * u64::MAX) by (nonlinear_arith)
            requires
                amount <= u64::MAX,
                self.num <= u64::MAX,
        ;
        let product: u128 = (amount as u128) * (self.num as u128);
        let exact: u128 = product / (self.den as u128);
        if exact > u64::MAX as u128 {
            u64::MAX
        } else {
            exact as u64
        }
    }
}

} // verus!
