//! Exact fixed-point decimals for prices, quantities and timestamps.

use vstd::prelude::*;

verus! {

/// How many units make up the number one: a decimal has eight fractional digits.
pub const UNITS_PER_WHOLE: u64 = 100_000_000;

/// Numerator of the discount applied to a reference price (99.5%).
pub const DISCOUNT_NUMERATOR: u64 = 995;

/// Denominator of the discount applied to a reference price.
pub const DISCOUNT_DENOMINATOR: u64 = 1000;

/// A non-negative decimal number, held as a count of hundred-millionths.
///
/// `Decimal { units: 995_000_000 }` stands for 9.95.
#[derive(Clone, Copy, Debug, PartialEq, Eq, Structural)]
pub struct Decimal {
    pub units: u64,
}

impl Decimal {
    /// This decimal reduced by half a percent, rounded down to a whole unit.
    pub open spec fn discounted_spec(self) -> Decimal {
        Decimal {
            units: (self.units as nat * DISCOUNT_NUMERATOR as nat / DISCOUNT_DENOMINATOR as nat) as u64,
        }
    }

    /// Whether this decimal is strictly smaller than `other`.
    pub open spec fn below_spec(self, other: Decimal) -> bool {
        self.units < other.units
    }

    /// Builds the decimal that stands for `units` hundred-millionths.
    pub fn from_units(units: u64) -> (d: Decimal)
        ensures
            d.units == units,
    {
        Decimal { units }
    }

    /// Strict comparison: equal decimals are not below one another.
    pub fn below(self, other: Decimal) -> (b: bool)
        ensures
            b == self.below_spec(other),
    {
        self.units < other.units
    }

    /// Takes half a percent off, rounding down. The result never exceeds `self`.
    pub fn discounted(self) -> (d: Decimal)
        ensures
            d == self.discounted_spec(),
            d.units as nat == self.units as nat * 995 / 1000,
            d.units <= self.units,
    {
        let wide: u128 = self.units as u128 * DISCOUNT_NUMERATOR as u128;
        let reduced: u128 = wide / DISCOUNT_DENOMINATOR as u128;
        assert(reduced <= self.units) by (nonlinear_arith)
            requires
                reduced == (self.units as nat * 995) / 1000,
        ;
        Decimal { units: reduced as u64 }
    }
}

} // verus!
