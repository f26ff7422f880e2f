/*!
A unary [`FirstOrderTaylor`] quantity function.
*/

use vstd::prelude::*;

use crate::quantity::Quantity;
use crate::unit::{Unit, UnitsNotEqual};
use crate::{filter_unary_function, first_match, Evaluation};

verus! {

/// A first-order Taylor expansion around `expansion_point`:
///
/// `y = base_value * (1 + slope * (x - expansion_point))`
///
/// An example is the linear approximation of the temperature dependency of
/// an electrical resistivity, `rho(T) = rho0 * (1 + alpha * (T - T0))`.
///
/// The influencing factor `x` is the input whose unit equals the unit of
/// `expansion_point`; the output unit is that of `base_value`. For the
/// formula to be dimensionally consistent, the correction term
/// `slope * (x - expansion_point)` must be dimensionless, so construction
/// checks that `slope.unit * expansion_point.unit` is the dimensionless
/// unit. When no influencing factor matches, `x` is taken to be absent and
/// `base_value` is returned.
#[derive(Debug, Clone, Copy, PartialEq, Eq, Structural)]
pub struct FirstOrderTaylor {
    /// The value of the function at `x = expansion_point`.
    pub base_value: Quantity,
    /// The relative slope of the correction term.
    pub slope: Quantity,
    /// The point the expansion is taken around.
    pub expansion_point: Quantity,
}

impl FirstOrderTaylor {
    /// A Taylor expansion is well formed when all three coefficients are
    /// and the correction term is dimensionless.
    pub open spec fn wf(self) -> bool {
        &&& self.base_value.wf()
        &&& self.slope.wf()
        &&& self.expansion_point.wf()
        &&& Self::units_consistent(self.base_value, self.slope, self.expansion_point)
    }

    /// The construction check: `slope * (x - expansion_point)` must be
    /// dimensionless, which, since `x` has the unit of `expansion_point`,
    /// means that `expansion_point.unit * slope.unit` is dimensionless.
    pub open spec fn units_consistent(
        base_value: Quantity,
        slope: Quantity,
        expansion_point: Quantity,
    ) -> bool {
        expansion_point.unit.spec_mul(slope.unit) == Unit::spec_dimensionless()
    }

    /// The unit an influencing factor must have to be used as `x`.
    pub open spec fn spec_influencing_factor_unit(self) -> Unit {
        self.expansion_point.unit
    }

    /// The unit of every value this function returns.
    pub open spec fn spec_output_unit(self) -> Unit {
        self.base_value.unit
    }

    /// Creates a new first-order Taylor expansion. Succeeds exactly when
    /// `expansion_point.unit * slope.unit` is dimensionless; fails with an
    /// error carrying the dimensionless unit and the offending product
    /// otherwise.
    pub fn new(base_value: Quantity, slope: Quantity, expansion_point: Quantity) -> (r: Result<
        FirstOrderTaylor,
        UnitsNotEqual,
    >)
        requires
            base_value.wf(),
            slope.wf(),
            expansion_point.wf(),
        ensures
            r is Ok <==> Self::units_consistent(base_value, slope, expansion_point),
            r matches Ok(f) ==> f == (FirstOrderTaylor { base_value, slope, expansion_point }),
            r matches Err(e) ==> e == (UnitsNotEqual(
                Unit::spec_dimensionless(),
                expansion_point.unit.spec_mul(slope.unit),
            )),
    {
        let expected = Unit::dimensionless();
        let found = expansion_point.unit.mul(slope.unit);
        if expected == found {
            Ok(FirstOrderTaylor { base_value, slope, expansion_point })
        } else {
            Err(UnitsNotEqual(expected, found))
        }
    }

    /// Returns the `base_value`.
    pub fn base_value(&self) -> (r: &Quantity)
        ensures
            r == self.base_value,
    {
        &self.base_value
    }

    /// Returns the `expansion_point`.
    pub fn expansion_point(&self) -> (r: &Quantity)
        ensures
            r == self.expansion_point,
    {
        &self.expansion_point
    }

    /// Returns the `slope`.
    pub fn slope(&self) -> (r: &Quantity)
        ensures
            r == self.slope,
    {
        &self.slope
    }

    /// Returns the unit of the quantity which influences this function: the
    /// unit of `expansion_point`. If none of the influencing factors in an
    /// evaluation has this unit, `x` is taken to be absent and `base_value`
    /// is returned.
    pub fn influencing_factor_unit(&self) -> (r: &Unit)
        ensures
            r == self.expansion_point.unit,
    {
        &self.expansion_point.unit
    }

    /// Returns the unit of every value this function returns: the unit of
    /// `base_value`.
    pub fn output_unit(&self) -> (r: Unit)
        ensures
            r == self.spec_output_unit(),
    {
        self.base_value.unit
    }

    /// The unit-level part of evaluating this function on
    /// `influencing_factors`: the first factor whose unit is the unit of
    /// `expansion_point` is selected for the magnitude formula
    /// `base_value * (1 + slope * (x - expansion_point))`; when none
    /// matches, the result is exactly `base_value`, the value at an absent
    /// `x`.
    pub fn evaluate(&self, influencing_factors: &[Quantity]) -> (r: Evaluation)
        ensures
            (match first_match(influencing_factors@, self.spec_influencing_factor_unit()) {
                Some(x) => r == Evaluation::Apply(x),
                None => r == Evaluation::Value(self.base_value),
            }),
            (forall|j: int|
                0 <= j < influencing_factors@.len() ==> influencing_factors@[j].unit
                    != self.spec_influencing_factor_unit()) ==> r == Evaluation::Value(
                self.base_value,
            ),
            r matches Evaluation::Apply(x) ==> x.unit == self.spec_influencing_factor_unit()
                && influencing_factors@.contains(x),
    {
        proof {
            crate::lemma_first_match(influencing_factors@, self.spec_influencing_factor_unit());
        }
        match filter_unary_function(influencing_factors, self.expansion_point.unit) {
            Some(x) => Evaluation::Apply(x),
            None => Evaluation::Value(self.base_value),
        }
    }
}

} // verus!
