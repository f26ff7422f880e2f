/*!
A unary [`Polynomial`] quantity function.
*/

use vstd::prelude::*;

use crate::quantity::{Quantity, Scalar};
use crate::unit::{Unit, UnitsNotEqual, EXPONENT_BOUND};
use crate::{filter_unary_function, first_match, Evaluation};

verus! {

/// A polynomial defined via its coefficients:
///
/// `y = sum of a_n * x^(N - 1 - n)`,
///
/// where `N` is the length of the coefficient vector. For example, the
/// vector `[a, b, c, d]` is evaluated in Horner form as
///
/// `a*x^3 + b*x^2 + c*x + d`.
///
/// The influencing factor `x` is the input whose unit equals
/// `d.unit / c.unit`, and the output unit is that of the last coefficient
/// `d`. Every other coefficient must match this convention, taking the
/// power of `x` into account; this is checked at construction. The
/// influencing-factor unit and the value returned when no input matches are
/// derived once at construction and cached.
#[derive(Debug, Clone, PartialEq)]
pub struct Polynomial {
    /// The coefficients, highest power of `x` first.
    pub coefficients: Vec<Quantity>,
    /// Cached at construction: the unit an influencing factor must have to
    /// be used as `x`.
    pub influencing_factor_unit: Unit,
    /// Cached at construction: the value returned when no influencing
    /// factor matches — the last coefficient, or a dimensionless zero for
    /// an empty polynomial.
    pub default_value: Quantity,
}

impl Polynomial {
    /// The unit an influencing factor must have to be used as `x`: the
    /// quotient of the last two coefficients' units, or the dimensionless
    /// unit when the polynomial has fewer than two coefficients.
    pub open spec fn spec_influence_unit(coeffs: Seq<Quantity>) -> Unit {
        if coeffs.len() > 1 {
            coeffs[coeffs.len() - 1].unit.spec_div(coeffs[coeffs.len() - 2].unit)
        } else {
            Unit::spec_dimensionless()
        }
    }

    /// The value returned when no influencing factor matches: the value of
    /// the polynomial at `x = 0`, which is its last coefficient, or a
    /// dimensionless zero for an empty polynomial.
    pub open spec fn spec_default_value(coeffs: Seq<Quantity>) -> Quantity {
        if coeffs.len() > 0 {
            coeffs[coeffs.len() - 1]
        } else {
            Quantity { value: Scalar::spec_zero(), unit: Unit::spec_dimensionless() }
        }
    }

    /// The construction check for the coefficient at distance `k` from the
    /// end: its unit times the `k`th power of the influencing-factor unit
    /// must equal the unit of the last coefficient.
    pub open spec fn coeff_consistent_at(coeffs: Seq<Quantity>, k: int) -> bool {
        coeffs[coeffs.len() - 1 - k].unit.spec_mul(Self::spec_influence_unit(coeffs).spec_powi(k))
            == coeffs[coeffs.len() - 1].unit
    }

    /// The whole construction check. It quantifies over the distances
    /// `1 <= k < len` only, so polynomials with zero or one coefficient
    /// trivially pass.
    pub open spec fn units_consistent(coeffs: Seq<Quantity>) -> bool {
        forall|k: int| 1 <= k < coeffs.len() ==> Self::coeff_consistent_at(coeffs, k)
    }

    /// The error reported for the coefficient at distance `k` from the end:
    /// the expected unit of the last coefficient against the unit the
    /// coefficient actually amounts to.
    pub open spec fn spec_mismatch_error(coeffs: Seq<Quantity>, k: int) -> UnitsNotEqual {
        UnitsNotEqual(
            coeffs[coeffs.len() - 1].unit,
            coeffs[coeffs.len() - 1 - k].unit.spec_mul(
                Self::spec_influence_unit(coeffs).spec_powi(k),
            ),
        )
    }

    /// A polynomial is well formed when its coefficients are, their number
    /// is bounded, its units are consistent, and the two cached fields hold
    /// what construction derives.
    pub open spec fn wf(self) -> bool {
        &&& forall|i: int|
            0 <= i < self.coefficients@.len() ==> (#[trigger] self.coefficients@[i]).wf()
        &&& self.coefficients@.len() <= EXPONENT_BOUND
        &&& Self::units_consistent(self.coefficients@)
        &&& self.influencing_factor_unit == Self::spec_influence_unit(self.coefficients@)
        &&& self.default_value == Self::spec_default_value(self.coefficients@)
    }

    /// Creates a new polynomial. Succeeds exactly when the coefficients'
    /// units are consistent; fails with an error naming the expected and
    /// the actual unit of the first offending coefficient, scanning from
    /// the end of the vector, otherwise.
    pub fn new(coefficients: Vec<Quantity>) -> (r: Result<Polynomial, UnitsNotEqual>)
        requires
            forall|i: int| 0 <= i < coefficients@.len() ==> (#[trigger] coefficients@[i]).wf(),
            coefficients@.len() <= EXPONENT_BOUND,
        ensures
            r is Ok <==> Self::units_consistent(coefficients@),
            r matches Ok(p) ==> p == (Polynomial {
                influencing_factor_unit: Self::spec_influence_unit(coefficients@),
                default_value: Self::spec_default_value(coefficients@),
                coefficients,
            }) && p.wf(),
            r matches Err(e) ==> exists|k: int|
                1 <= k < coefficients@.len() && !#[trigger] Self::coeff_consistent_at(
                    coefficients@,
                    k,
                ) && (forall|j: int|
                    1 <= j < k ==> Self::coeff_consistent_at(coefficients@, j)) && e
                    == Self::spec_mismatch_error(coefficients@, k),
    {
        let ghost s = coefficients@;
        let l = coefficients.len();
        if l == 0 {
            return Ok(
                Polynomial {
                    coefficients,
                    influencing_factor_unit: Unit::dimensionless(),
                    default_value: Quantity::new(Scalar::zero(), Unit::dimensionless()),
                },
            );
        }
        let last = coefficients[l - 1];
        let influencing_factor_unit = if l > 1 {
            last.unit.div(coefficients[l - 2].unit)
        } else {
            Unit::dimensionless()
        };
        let ghost ifu = Self::spec_influence_unit(s);
        let mut k: usize = 1;
        while k < l
            invariant
                1 <= k <= l,
                l == s.len() <= EXPONENT_BOUND,
                s == coefficients@,
                forall|i: int| 0 <= i < s.len() ==> (#[trigger] s[i]).wf(),
                last == s[l - 1],
                influencing_factor_unit == ifu,
                ifu == Self::spec_influence_unit(s),
                forall|j: int| 1 <= j < k ==> Self::coeff_consistent_at(s, j),
            decreases l - k,
        {
            let c = coefficients[l - 1 - k];
            proof {
                lemma_scaled_unit_in_range(c.unit.second as int, ifu.second as int, k as int);
                lemma_scaled_unit_in_range(c.unit.meter as int, ifu.meter as int, k as int);
                lemma_scaled_unit_in_range(c.unit.kilogram as int, ifu.kilogram as int, k as int);
                lemma_scaled_unit_in_range(c.unit.ampere as int, ifu.ampere as int, k as int);
                lemma_scaled_unit_in_range(c.unit.kelvin as int, ifu.kelvin as int, k as int);
                lemma_scaled_unit_in_range(c.unit.mol as int, ifu.mol as int, k as int);
                lemma_scaled_unit_in_range(c.unit.candela as int, ifu.candela as int, k as int);
            }
            let scaled = Unit {
                second: c.unit.second + influencing_factor_unit.second * (k as i64),
                meter: c.unit.meter + influencing_factor_unit.meter * (k as i64),
                kilogram: c.unit.kilogram + influencing_factor_unit.kilogram * (k as i64),
                ampere: c.unit.ampere + influencing_factor_unit.ampere * (k as i64),
                kelvin: c.unit.kelvin + influencing_factor_unit.kelvin * (k as i64),
                mol: c.unit.mol + influencing_factor_unit.mol * (k as i64),
                candela: c.unit.candela + influencing_factor_unit.candela * (k as i64),
            };
            proof {
                assert(scaled == s[l - 1 - k].unit.spec_mul(ifu.spec_powi(k as int)));
            }
            if scaled != last.unit {
                proof {
                    assert(!Self::coeff_consistent_at(s, k as int));
                }
                return Err(UnitsNotEqual(last.unit, scaled));
            }
            k = k + 1;
        }
        Ok(Polynomial { coefficients, influencing_factor_unit, default_value: last })
    }

    /// Returns the coefficients, highest power of `x` first.
    pub fn coefficients(&self) -> (r: &[Quantity])
        ensures
            r@ == self.coefficients@,
    {
        self.coefficients.as_slice()
    }

    /// Returns the unit of the quantity which influences this function. If
    /// none of the influencing factors in an evaluation has this unit, `x`
    /// is taken to be absent and the cached default value is returned.
    pub fn influencing_factor_unit(&self) -> (r: Unit)
        ensures
            r == self.influencing_factor_unit,
    {
        self.influencing_factor_unit
    }

    /// Returns the unit of every value this function returns: the unit of
    /// the last coefficient, or the dimensionless unit for an empty
    /// polynomial.
    pub fn output_unit(&self) -> (r: Unit)
        ensures
            r == self.default_value.unit,
    {
        self.default_value.unit
    }

    /// The unit-level part of evaluating this function on
    /// `influencing_factors`: the first factor whose unit is the cached
    /// influencing-factor unit is selected for the Horner magnitude
    /// formula; when none matches, the result is exactly the cached
    /// default value — the value of the polynomial at `x = 0`.
    pub fn evaluate(&self, influencing_factors: &[Quantity]) -> (r: Evaluation)
        ensures
            (match first_match(influencing_factors@, self.influencing_factor_unit) {
                Some(x) => r == Evaluation::Apply(x),
                None => r == Evaluation::Value(self.default_value),
            }),
            (forall|j: int|
                0 <= j < influencing_factors@.len() ==> influencing_factors@[j].unit
                    != self.influencing_factor_unit) ==> r == Evaluation::Value(
                self.default_value,
            ),
            r matches Evaluation::Apply(x) ==> x.unit == self.influencing_factor_unit
                && influencing_factors@.contains(x),
    {
        proof {
            crate::lemma_first_match(influencing_factors@, self.influencing_factor_unit);
        }
        match filter_unary_function(influencing_factors, self.influencing_factor_unit) {
            Some(x) => Evaluation::Apply(x),
            None => Evaluation::Value(self.default_value),
        }
    }
}

/// A well-formed coefficient exponent plus a bounded multiple of a derived
/// influencing-factor exponent stays within the 64-bit range.
proof fn lemma_scaled_unit_in_range(c: int, e: int, k: int)
    requires
        -0x8000_0000 <= c <= 0x8000_0000,
        -0x1_0000_0000 <= e <= 0x1_0000_0000,
        0 <= k < 0x8000_0000,
    ensures
        -0x8000_0000_0000_0000 <= c + e * k <= 0x7fff_ffff_ffff_ffff,
        -0x8000_0000_0000_0000 <= e * k <= 0x7fff_ffff_ffff_ffff,
{
    assert(-0x7fff_ffff_0000_0000 <= e * k <= 0x7fff_ffff_0000_0000) by (nonlinear_arith)
        requires
            -0x1_0000_0000 <= e <= 0x1_0000_0000,
            0 <= k < 0x8000_0000,
    ;
}

} // verus!
