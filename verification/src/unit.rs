/*!
The dimensional-algebra primitives: a [`Unit`] of measurement given by the
exponents of the seven SI base units, and the [`UnitsNotEqual`] error carrying
two conflicting units.
*/

use vstd::prelude::*;

verus! {

/// Bound on the base-unit exponents of a well-formed [`Unit`].
///
/// Exponents that arrive from outside the library are 32-bit integers, so
/// every well-formed unit has all exponents within `[-EXPONENT_BOUND,
/// EXPONENT_BOUND]`. The fields are stored as `i64` so that products and
/// quotients of well-formed units can always be represented exactly.
pub const EXPONENT_BOUND: i64 = 0x8000_0000;

/// A unit of measurement in the SI system, written as the exponents of the
/// seven base units. Two quantities are unit-compatible exactly when all
/// seven exponents are equal. Multiplying units adds exponents, dividing
/// subtracts them, and raising to an integer power scales them.
#[derive(Debug, Clone, Copy, PartialEq, Eq, Hash, Structural)]
pub struct Unit {
    /// Exponent for the SI base unit of time.
    pub second: i64,
    /// Exponent for the SI base unit of length.
    pub meter: i64,
    /// Exponent for the SI base unit of mass.
    pub kilogram: i64,
    /// Exponent for the SI base unit of electrical current.
    pub ampere: i64,
    /// Exponent for the SI base unit of temperature.
    pub kelvin: i64,
    /// Exponent for the SI base unit of amount of substance.
    pub mol: i64,
    /// Exponent for the SI base unit of luminous intensity.
    pub candela: i64,
}

impl Unit {
    /// A unit is well formed when each exponent is small enough that unit
    /// arithmetic cannot overflow the 64-bit fields. Every unit built from
    /// 32-bit exponents satisfies this.
    pub open spec fn wf(self) -> bool {
        &&& -EXPONENT_BOUND <= self.second <= EXPONENT_BOUND
        &&& -EXPONENT_BOUND <= self.meter <= EXPONENT_BOUND
        &&& -EXPONENT_BOUND <= self.kilogram <= EXPONENT_BOUND
        &&& -EXPONENT_BOUND <= self.ampere <= EXPONENT_BOUND
        &&& -EXPONENT_BOUND <= self.kelvin <= EXPONENT_BOUND
        &&& -EXPONENT_BOUND <= self.mol <= EXPONENT_BOUND
        &&& -EXPONENT_BOUND <= self.candela <= EXPONENT_BOUND
    }

    /// The dimensionless unit: all exponents are zero.
    pub open spec fn spec_dimensionless() -> Unit {
        Unit { second: 0, meter: 0, kilogram: 0, ampere: 0, kelvin: 0, mol: 0, candela: 0 }
    }

    /// The product of two units: exponents are added field by field.
    pub open spec fn spec_mul(self, other: Unit) -> Unit {
        Unit {
            second: (self.second + other.second) as i64,
            meter: (self.meter + other.meter) as i64,
            kilogram: (self.kilogram + other.kilogram) as i64,
            ampere: (self.ampere + other.ampere) as i64,
            kelvin: (self.kelvin + other.kelvin) as i64,
            mol: (self.mol + other.mol) as i64,
            candela: (self.candela + other.candela) as i64,
        }
    }

    /// The quotient of two units: exponents are subtracted field by field.
    pub open spec fn spec_div(self, other: Unit) -> Unit {
        Unit {
            second: (self.second - other.second) as i64,
            meter: (self.meter - other.meter) as i64,
            kilogram: (self.kilogram - other.kilogram) as i64,
            ampere: (self.ampere - other.ampere) as i64,
            kelvin: (self.kelvin - other.kelvin) as i64,
            mol: (self.mol - other.mol) as i64,
            candela: (self.candela - other.candela) as i64,
        }
    }

    /// A unit raised to an integer power: exponents are scaled field by field.
    pub open spec fn spec_powi(self, n: int) -> Unit {
        Unit {
            second: (self.second * n) as i64,
            meter: (self.meter * n) as i64,
            kilogram: (self.kilogram * n) as i64,
            ampere: (self.ampere * n) as i64,
            kelvin: (self.kelvin * n) as i64,
            mol: (self.mol * n) as i64,
            candela: (self.candela * n) as i64,
        }
    }

    /// Returns the dimensionless unit.
    pub fn dimensionless() -> (r: Unit)
        ensures
            r == Unit::spec_dimensionless(),
            r.wf(),
    {
        Unit { second: 0, meter: 0, kilogram: 0, ampere: 0, kelvin: 0, mol: 0, candela: 0 }
    }

    /// Returns whether the unit is dimensionless, that is, whether all seven
    /// exponents are zero.
    pub fn is_dimensionless(&self) -> (r: bool)
        ensures
            r == (*self == Unit::spec_dimensionless()),
    {
        self.second == 0 && self.meter == 0 && self.kilogram == 0 && self.ampere == 0
            && self.kelvin == 0 && self.mol == 0 && self.candela == 0
    }

    /// Multiplies two units by adding their exponents.
    pub fn mul(self, other: Unit) -> (r: Unit)
        requires
            self.wf(),
            other.wf(),
        ensures
            r == self.spec_mul(other),
    {
        Unit {
            second: self.second + other.second,
            meter: self.meter + other.meter,
            kilogram: self.kilogram + other.kilogram,
            ampere: self.ampere + other.ampere,
            kelvin: self.kelvin + other.kelvin,
            mol: self.mol + other.mol,
            candela: self.candela + other.candela,
        }
    }

    /// Divides two units by subtracting the exponents of `other` from those
    /// of `self`.
    pub fn div(self, other: Unit) -> (r: Unit)
        requires
            self.wf(),
            other.wf(),
        ensures
            r == self.spec_div(other),
    {
        Unit {
            second: self.second - other.second,
            meter: self.meter - other.meter,
            kilogram: self.kilogram - other.kilogram,
            ampere: self.ampere - other.ampere,
            kelvin: self.kelvin - other.kelvin,
            mol: self.mol - other.mol,
            candela: self.candela - other.candela,
        }
    }

    /// Raises the unit to the integer power `n` by scaling every exponent.
    pub fn powi(self, n: i64) -> (r: Unit)
        requires
            self.wf(),
            -EXPONENT_BOUND <= n <= EXPONENT_BOUND,
        ensures
            r == self.spec_powi(n as int),
    {
        proof {
            lemma_scaled_exponent_bounded(self.second as int, n as int);
            lemma_scaled_exponent_bounded(self.meter as int, n as int);
            lemma_scaled_exponent_bounded(self.kilogram as int, n as int);
            lemma_scaled_exponent_bounded(self.ampere as int, n as int);
            lemma_scaled_exponent_bounded(self.kelvin as int, n as int);
            lemma_scaled_exponent_bounded(self.mol as int, n as int);
            lemma_scaled_exponent_bounded(self.candela as int, n as int);
        }
        Unit {
            second: self.second * n,
            meter: self.meter * n,
            kilogram: self.kilogram * n,
            ampere: self.ampere * n,
            kelvin: self.kelvin * n,
            mol: self.mol * n,
            candela: self.candela * n,
        }
    }
}

/// A bounded exponent scaled by a bounded factor stays well within the
/// 64-bit range.
proof fn lemma_scaled_exponent_bounded(e: int, n: int)
    requires
        -EXPONENT_BOUND <= e <= EXPONENT_BOUND,
        -EXPONENT_BOUND <= n <= EXPONENT_BOUND,
    ensures
        -EXPONENT_BOUND * EXPONENT_BOUND <= e * n <= EXPONENT_BOUND * EXPONENT_BOUND,
{
    assert(-EXPONENT_BOUND * EXPONENT_BOUND <= e * n <= EXPONENT_BOUND * EXPONENT_BOUND)
        by (nonlinear_arith)
        requires
            -EXPONENT_BOUND <= e <= EXPONENT_BOUND,
            -EXPONENT_BOUND <= n <= EXPONENT_BOUND,
    ;
}

/// The error raised whenever two units that are required to match do not.
/// The first field is the unit that was expected, the second the unit that
/// was actually found.
#[derive(Debug, Clone, Copy, PartialEq, Eq, Structural)]
pub struct UnitsNotEqual(pub Unit, pub Unit);

} // verus!
