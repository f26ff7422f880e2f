/*!
A unary [`Exponential`] quantity function, built as a sum of exponential
terms.
*/

use vstd::prelude::*;

use crate::quantity::Quantity;
use crate::unit::{Unit, UnitsNotEqual};
use crate::{filter_unary_function, first_match, Evaluation};

verus! {

/// An exponential term `amplitude * exp(exponent * x)` which is used to
/// build an [`Exponential`] function.
#[derive(Debug, Clone, Copy, PartialEq, Eq, Structural)]
pub struct ExpTerm {
    /// Amplitude of the term.
    pub amplitude: Quantity,
    /// Exponent of the term.
    pub exponent: Quantity,
}

impl ExpTerm {
    /// A term is well formed when both of its coefficients are.
    pub open spec fn wf(self) -> bool {
        self.amplitude.wf() && self.exponent.wf()
    }
}

/// An exponential function defined as a sum of [`ExpTerm`]:
///
/// `y = sum of a_n * exp(k_n * x)`
///
/// where `a` is [`ExpTerm::amplitude`] and `k` is [`ExpTerm::exponent`] of
/// the respective term. The influencing factor `x` is the input whose unit
/// is the inverse of the exponent unit, and the output unit is the
/// amplitude unit. All terms must therefore agree on both units; this is
/// checked at construction, pair by adjacent pair, so a function with zero
/// or one term has no check to fail. Both derived units are cached at
/// construction. When no influencing factor matches, `x` is taken to be
/// absent and the sum of the amplitudes — the value at `x = 0` — is
/// returned.
#[derive(Debug, Clone, PartialEq)]
pub struct Exponential {
    /// The exponential terms the function sums over.
    pub terms: Vec<ExpTerm>,
    /// Cached at construction: the unit of every value this function
    /// returns.
    pub output_unit: Unit,
    /// Cached at construction: the unit an influencing factor must have to
    /// be used as `x`.
    pub influencing_factor_unit: Unit,
}

impl Exponential {
    /// The unit an influencing factor must have to be used as `x`: the
    /// inverse of the first term's exponent unit, or the dimensionless unit
    /// when there are no terms.
    pub open spec fn spec_influence_unit(terms: Seq<ExpTerm>) -> Unit {
        if terms.len() > 0 {
            terms[0].exponent.unit.spec_powi(-1)
        } else {
            Unit::spec_dimensionless()
        }
    }

    /// The unit of every value this function returns: the first term's
    /// amplitude unit, or the dimensionless unit when there are no terms.
    pub open spec fn spec_output_unit(terms: Seq<ExpTerm>) -> Unit {
        if terms.len() > 0 {
            terms[0].amplitude.unit
        } else {
            Unit::spec_dimensionless()
        }
    }

    /// The construction check for the adjacent pair at `i`: both terms must
    /// agree on the amplitude unit and on the exponent unit.
    pub open spec fn pair_consistent_at(terms: Seq<ExpTerm>, i: int) -> bool {
        terms[i].amplitude.unit == terms[i + 1].amplitude.unit && terms[i].exponent.unit
            == terms[i + 1].exponent.unit
    }

    /// The whole construction check. It quantifies over adjacent pairs
    /// only, so a function with zero or one term trivially passes.
    pub open spec fn units_consistent(terms: Seq<ExpTerm>) -> bool {
        forall|i: int| 0 <= i < terms.len() - 1 ==> Self::pair_consistent_at(terms, i)
    }

    /// The error reported for the first inconsistent adjacent pair at `i`:
    /// the two amplitude units when those differ, else the two exponent
    /// units.
    pub open spec fn spec_mismatch_error(terms: Seq<ExpTerm>, i: int) -> UnitsNotEqual {
        if terms[i].amplitude.unit != terms[i + 1].amplitude.unit {
            UnitsNotEqual(terms[i].amplitude.unit, terms[i + 1].amplitude.unit)
        } else {
            UnitsNotEqual(terms[i].exponent.unit, terms[i + 1].exponent.unit)
        }
    }

    /// An exponential function is well formed when its terms are, their
    /// units are consistent, and the two cached fields hold what
    /// construction derives.
    pub open spec fn wf(self) -> bool {
        &&& forall|i: int| 0 <= i < self.terms@.len() ==> (#[trigger] self.terms@[i]).wf()
        &&& Self::units_consistent(self.terms@)
        &&& self.output_unit == Self::spec_output_unit(self.terms@)
        &&& self.influencing_factor_unit == Self::spec_influence_unit(self.terms@)
    }

    /// Adjacent agreement chains to global agreement: when the pairwise
    /// construction check holds, every term's amplitude has the common
    /// output unit, and the inverse of every term's exponent unit is the
    /// common influencing-factor unit — not only the first term's.
    pub proof fn lemma_consistent_terms_agree(terms: Seq<ExpTerm>)
        requires
            Self::units_consistent(terms),
        ensures
            forall|i: int|
                0 <= i < terms.len() ==> (#[trigger] terms[i]).amplitude.unit
                    == Self::spec_output_unit(terms),
            forall|i: int|
                0 <= i < terms.len() ==> (#[trigger] terms[i]).exponent.unit.spec_powi(-1)
                    == Self::spec_influence_unit(terms),
    {
        assert forall|i: int| 0 <= i < terms.len() implies (#[trigger] terms[i]).amplitude.unit
            == Self::spec_output_unit(terms) && terms[i].exponent.unit == terms[0].exponent.unit by {
            Self::lemma_term_agrees_with_first(terms, i);
        }
    }

    /// Walks the chain of adjacent agreements down to the first term.
    proof fn lemma_term_agrees_with_first(terms: Seq<ExpTerm>, i: int)
        requires
            Self::units_consistent(terms),
            0 <= i < terms.len(),
        ensures
            terms[i].amplitude.unit == terms[0].amplitude.unit,
            terms[i].exponent.unit == terms[0].exponent.unit,
        decreases i,
    {
        if i > 0 {
            Self::lemma_term_agrees_with_first(terms, i - 1);
            assert(Self::pair_consistent_at(terms, i - 1));
        }
    }

    /// Creates a new exponential function. Succeeds exactly when all terms
    /// agree on the amplitude unit and on the exponent unit; fails with an
    /// error naming the two units of the first disagreeing adjacent pair —
    /// the amplitude units when those differ, else the exponent units —
    /// otherwise.
    pub fn new(terms: Vec<ExpTerm>) -> (r: Result<Exponential, UnitsNotEqual>)
        requires
            forall|i: int| 0 <= i < terms@.len() ==> (#[trigger] terms@[i]).wf(),
        ensures
            r is Ok <==> Self::units_consistent(terms@),
            r matches Ok(f) ==> f == (Exponential {
                output_unit: Self::spec_output_unit(terms@),
                influencing_factor_unit: Self::spec_influence_unit(terms@),
                terms,
            }) && f.wf(),
            r matches Err(e) ==> exists|i: int|
                0 <= i < terms@.len() - 1 && !#[trigger] Self::pair_consistent_at(terms@, i) && (
                forall|j: int| 0 <= j < i ==> Self::pair_consistent_at(terms@, j)) && e
                    == Self::spec_mismatch_error(terms@, i),
    {
        let ghost s = terms@;
        let l = terms.len();
        if l == 0 {
            return Ok(
                Exponential {
                    terms,
                    output_unit: Unit::dimensionless(),
                    influencing_factor_unit: Unit::dimensionless(),
                },
            );
        }
        let influencing_factor_unit = terms[0].exponent.unit.powi(-1);
        let output_unit = terms[0].amplitude.unit;
        let mut i: usize = 0;
        while i + 1 < l
            invariant
                0 <= i <= l - 1,
                l == s.len(),
                s == terms@,
                forall|j: int| 0 <= j < i ==> Self::pair_consistent_at(s, j),
            decreases l - i,
        {
            let t1 = terms[i];
            let t2 = terms[i + 1];
            if t1.amplitude.unit != t2.amplitude.unit {
                proof {
                    assert(!Self::pair_consistent_at(s, i as int));
                    assert(Self::spec_mismatch_error(s, i as int) == (UnitsNotEqual(
                        t1.amplitude.unit,
                        t2.amplitude.unit,
                    )));
                }
                return Err(UnitsNotEqual(t1.amplitude.unit, t2.amplitude.unit));
            }
            if t1.exponent.unit != t2.exponent.unit {
                proof {
                    assert(!Self::pair_consistent_at(s, i as int));
                    assert(Self::spec_mismatch_error(s, i as int) == (UnitsNotEqual(
                        t1.exponent.unit,
                        t2.exponent.unit,
                    )));
                }
                return Err(UnitsNotEqual(t1.exponent.unit, t2.exponent.unit));
            }
            i = i + 1;
        }
        Ok(Exponential { terms, output_unit, influencing_factor_unit })
    }

    /// Returns the exponential terms the function sums over.
    pub fn terms(&self) -> (r: &[ExpTerm])
        ensures
            r@ == self.terms@,
    {
        self.terms.as_slice()
    }

    /// Returns the unit of the quantity which influences this function. If
    /// none of the influencing factors in an evaluation has this unit, `x`
    /// is taken to be absent and the sum of the amplitudes is returned.
    pub fn influencing_factor_unit(&self) -> (r: Unit)
        ensures
            r == self.influencing_factor_unit,
    {
        self.influencing_factor_unit
    }

    /// Returns the unit of every value this function returns: the common
    /// amplitude unit, or the dimensionless unit for a function with no
    /// terms.
    pub fn output_unit(&self) -> (r: Unit)
        ensures
            r == self.output_unit,
    {
        self.output_unit
    }

    /// The unit-level part of evaluating this function on
    /// `influencing_factors`: the first factor whose unit is the cached
    /// influencing-factor unit is selected for the magnitude formula that
    /// sums `amplitude * exp(exponent * x)` over the terms; when none
    /// matches, the sum of the amplitudes — the value at `x = 0` — remains
    /// to be computed.
    pub fn evaluate(&self, influencing_factors: &[Quantity]) -> (r: Evaluation)
        ensures
            (match first_match(influencing_factors@, self.influencing_factor_unit) {
                Some(x) => r == Evaluation::Apply(x),
                None => r == Evaluation::ApplyDefault,
            }),
            (forall|j: int|
                0 <= j < influencing_factors@.len() ==> influencing_factors@[j].unit
                    != self.influencing_factor_unit) ==> r == Evaluation::ApplyDefault,
            r matches Evaluation::Apply(x) ==> x.unit == self.influencing_factor_unit
                && influencing_factors@.contains(x),
    {
        proof {
            crate::lemma_first_match(influencing_factors@, self.influencing_factor_unit);
        }
        match filter_unary_function(influencing_factors, self.influencing_factor_unit) {
            Some(x) => Evaluation::Apply(x),
            None => Evaluation::ApplyDefault,
        }
    }
}

} // verus!
