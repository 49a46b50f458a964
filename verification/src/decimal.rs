//! Exact fixed-point amounts used for prices and payment balances.

use vstd::prelude::*;

verus! {

/// Number of attos in one whole unit: amounts carry 18 decimal places.
pub const ATTOS_PER_UNIT: i128 = 1_000_000_000_000_000_000;

/// An exact signed fixed-point amount, stored as a count of attos
/// (units of 10^-18). All arithmetic is exact: nothing is rounded or
/// truncated, and overflow is ruled out by preconditions.
#[derive(Clone, Copy, PartialEq, Eq, Structural, Debug)]
pub struct Decimal {
    attos: i128,
}

/// Every amount fits the machine representation: its count of attos
/// lies within the `i128` range.
pub broadcast proof fn lemma_attos_in_range(d: Decimal)
    ensures
        i128::MIN <= #[trigger] d.attos() <= i128::MAX,
{
}

impl Decimal {
    /// The amount as a mathematical count of attos.
    pub closed spec fn attos(self) -> int {
        self.attos as int
    }

    pub fn from_attos(attos: i128) -> (r: Decimal)
        ensures
            r.attos() == attos as int,
    {
        Decimal { attos }
    }

    /// The amount of `units` whole units. Any `u64` count of units fits.
    pub fn from_units(units: u64) -> (r: Decimal)
        ensures
            r.attos() == units as int * ATTOS_PER_UNIT as int,
    {
        proof {
            assert(units as int * ATTOS_PER_UNIT as int
                <= u64::MAX as int * ATTOS_PER_UNIT as int) by (nonlinear_arith)
                requires
                    units <= u64::MAX,
            ;
            assert(units as int * ATTOS_PER_UNIT as int >= 0) by (nonlinear_arith)
                requires
                    units >= 0,
            ;
        }
        Decimal { attos: (units as i128) * ATTOS_PER_UNIT }
    }

    pub fn zero() -> (r: Decimal)
        ensures
            r.attos() == 0,
    {
        Decimal { attos: 0 }
    }

    pub fn to_attos(&self) -> (r: i128)
        ensures
            r as int == self.attos(),
    {
        self.attos
    }

    pub fn is_negative(&self) -> (r: bool)
        ensures
            r <==> self.attos() < 0,
    {
        self.attos < 0
    }

    pub fn ge(&self, other: &Decimal) -> (r: bool)
        ensures
            r <==> self.attos() >= other.attos(),
    {
        self.attos >= other.attos
    }

    /// Exact product with a small unit count.
    pub fn times_u16(&self, n: u16) -> (r: Decimal)
        requires
            i128::MIN <= self.attos() * n,
            self.attos() * n <= i128::MAX,
        ensures
            r.attos() == self.attos() * n,
    {
        Decimal { attos: self.attos * (n as i128) }
    }

    /// Exact sum.
    pub fn plus(&self, other: &Decimal) -> (r: Decimal)
        requires
            i128::MIN <= self.attos() + other.attos(),
            self.attos() + other.attos() <= i128::MAX,
        ensures
            r.attos() == self.attos() + other.attos(),
    {
        Decimal { attos: self.attos + other.attos }
    }

    /// Exact difference.
    pub fn minus(&self, other: &Decimal) -> (r: Decimal)
        requires
            i128::MIN <= self.attos() - other.attos(),
            self.attos() - other.attos() <= i128::MAX,
        ensures
            r.attos() == self.attos() - other.attos(),
    {
        Decimal { attos: self.attos - other.attos }
    }
}

} // verus!
