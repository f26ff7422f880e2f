/*!
A unary [`Linear`] quantity function.
*/

use vstd::prelude::*;

use crate::quantity::Quantity;
use crate::unit::Unit;
use crate::{filter_unary_function, first_match, Evaluation};

verus! {

/// A linear function defined via its `slope` and `base_value`:
///
/// `y = slope * x + base_value`
///
/// The influencing factor `x` is the input whose unit equals
/// `base_value.unit / slope.unit`; with that choice every evaluation is
/// dimensionally consistent, so construction never fails. When no
/// influencing factor matches, `x` is taken to be absent and `base_value`
/// — the value at `x = 0` — is returned.
#[derive(Debug, Clone, Copy, PartialEq, Eq, Structural)]
pub struct Linear {
    /// The slope of the function.
    pub slope: Quantity,
    /// The value of the function at `x = 0`.
    pub base_value: Quantity,
}

impl Linear {
    /// A linear function is well formed when both coefficients are.
    pub open spec fn wf(self) -> bool {
        self.slope.wf() && self.base_value.wf()
    }

    /// The unit an influencing factor must have to be used as `x`.
    pub open spec fn spec_influencing_factor_unit(self) -> Unit {
        self.base_value.unit.spec_div(self.slope.unit)
    }

    /// The unit of every value this function returns.
    pub open spec fn spec_output_unit(self) -> Unit {
        self.base_value.unit
    }

    /// Creates a new linear function. Any two coefficients are dimensionally
    /// consistent, so construction is total.
    pub fn new(slope: Quantity, base_value: Quantity) -> (r: Linear)
        ensures
            r == (Linear { slope, base_value }),
    {
        Linear { slope, base_value }
    }

    /// Returns the `base_value`.
    pub fn base_value(&self) -> (r: &Quantity)
        ensures
            r == self.base_value,
    {
        &self.base_value
    }

    /// Returns the `slope`.
    pub fn slope(&self) -> (r: &Quantity)
        ensures
            r == self.slope,
    {
        &self.slope
    }

    /// Returns the unit of the quantity which influences this function:
    /// `base_value.unit / slope.unit`. If none of the influencing factors
    /// in an evaluation has this unit, `x` is taken to be absent and
    /// `base_value` is returned.
    pub fn influencing_factor_unit(&self) -> (r: Unit)
        requires
            self.wf(),
        ensures
            r == self.spec_influencing_factor_unit(),
    {
        self.base_value.unit.div(self.slope.unit)
    }

    /// Returns the unit of every value this function returns: the unit of
    /// `base_value`.
    pub fn output_unit(&self) -> (r: Unit)
        ensures
            r == self.spec_output_unit(),
    {
        self.base_value.unit
    }

    /// The unit-level part of evaluating this function on
    /// `influencing_factors`: the first factor whose unit is the
    /// influencing-factor unit is selected for the magnitude formula
    /// `slope * x + base_value`; when none matches, the result is exactly
    /// `base_value`, the value at `x = 0`.
    pub fn evaluate(&self, influencing_factors: &[Quantity]) -> (r: Evaluation)
        requires
            self.wf(),
        ensures
            (match first_match(influencing_factors@, self.spec_influencing_factor_unit()) {
                Some(x) => r == Evaluation::Apply(x),
                None => r == Evaluation::Value(self.base_value),
            }),
            (forall|j: int|
                0 <= j < influencing_factors@.len() ==> influencing_factors@[j].unit
                    != self.spec_influencing_factor_unit()) ==> r == Evaluation::Value(
                self.base_value,
            ),
            r matches Evaluation::Apply(x) ==> x.unit == self.spec_influencing_factor_unit()
                && influencing_factors@.contains(x),
    {
        proof {
            crate::lemma_first_match(influencing_factors@, self.spec_influencing_factor_unit());
        }
        match filter_unary_function(influencing_factors, self.influencing_factor_unit()) {
            Some(x) => Evaluation::Apply(x),
            None => Evaluation::Value(self.base_value),
        }
    }
}

} // verus!
