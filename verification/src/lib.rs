/*!
Physical quantities whose value may depend on other quantities.

A *quantity function* maps a list of influencing factors — dimensional
values supplied at evaluation time — to one dimensional value, with the
caller-enforced invariant that its output unit is the same for every input.
This crate provides the dimensional core of that abstraction:

- the unit algebra over SI base-unit exponents ([`unit::Unit`]);
- dimensional values with opaque magnitudes ([`quantity::Quantity`]);
- the influence matcher that selects the first influencing factor of a
  required unit ([`filter_unary_function`]);
- a library of unary quantity functions — linear, polynomial, first-order
  Taylor and sum-of-exponentials — each deriving its influencing-factor
  unit and output unit from its coefficients and validating their
  dimensional consistency at construction ([`unary`]);
- the one-time output-unit self-test used when a quantity function is
  wrapped for a statically typed result kind ([`check_output_unit`]).

Magnitudes are IEEE-754 double bit patterns that the library moves but never
interprets; the embedding layer performs the scalar arithmetic that an
evaluation plan ([`Evaluation`]) asks for.
*/

use vstd::prelude::*;

pub mod quantity;
pub mod unary;
pub mod unit;

use crate::quantity::{Quantity, Scalar};
use crate::unit::{Unit, UnitsNotEqual};

verus! {

/// The first element of `factors` whose unit equals `match_for`, if any.
///
/// This is the meaning of the influence matcher: the list is scanned in
/// order and the first match wins; duplicates are never merged.
pub open spec fn first_match(factors: Seq<Quantity>, match_for: Unit) -> Option<Quantity>
    decreases factors.len(),
{
    if factors.len() == 0 {
        None
    } else if factors[0].unit == match_for {
        Some(factors[0])
    } else {
        first_match(factors.drop_first(), match_for)
    }
}

/// The influence matcher never invents a value: it returns `None` exactly
/// when no element matches; what it returns is an element of the list and
/// has the requested unit; and it is the matching element of least index —
/// if several elements match, the first in list order is used.
pub proof fn lemma_first_match(factors: Seq<Quantity>, match_for: Unit)
    ensures
        (first_match(factors, match_for) is None) <==> (forall|j: int|
            0 <= j < factors.len() ==> factors[j].unit != match_for),
        first_match(factors, match_for) matches Some(q) ==> q.unit == match_for
            && factors.contains(q),
        forall|i: int|
            (0 <= i < factors.len() && factors[i].unit == match_for && (forall|j: int|
                0 <= j < i ==> factors[j].unit != match_for)) ==> first_match(factors, match_for)
                == Some(factors[i]),
    decreases factors.len(),
{
    if factors.len() > 0 && factors[0].unit != match_for {
        let tail = factors.drop_first();
        lemma_first_match(tail, match_for);
        assert(forall|j: int| 0 <= j < tail.len() ==> tail[j] == factors[j + 1]);
        if first_match(factors, match_for) is None {
            assert forall|j: int| 0 <= j < factors.len() implies factors[j].unit != match_for by {
                if j >= 1 {
                    assert(tail[j - 1] == factors[j]);
                }
            }
        }
        assert forall|i: int|
            (0 <= i < factors.len() && factors[i].unit == match_for && (forall|j: int|
                0 <= j < i ==> factors[j].unit != match_for)) implies first_match(
            factors,
            match_for,
        ) == Some(factors[i]) by {
            assert(factors[0].unit != match_for);
            assert(i >= 1);
            assert(tail[i - 1] == factors[i]);
            assert(forall|j: int| 0 <= j < i - 1 ==> tail[j] == factors[j + 1]);
        }
    }
}

/// Scans `influencing_factors` in list order for the first value whose unit
/// equals `match_for`. Returns a copy of that value, or `None` when no
/// value matches; the caller then evaluates its function at the matched
/// input, or falls back to its value at zero.
pub fn filter_unary_function(influencing_factors: &[Quantity], match_for: Unit) -> (r: Option<
    Quantity,
>)
    ensures
        r == first_match(influencing_factors@, match_for),
{
    let ghost all = influencing_factors@;
    proof {
        assert(all.skip(0) =~= all);
    }
    let mut i: usize = 0;
    while i < influencing_factors.len()
        invariant
            0 <= i <= all.len(),
            all == influencing_factors@,
            first_match(all, match_for) == first_match(all.skip(i as int), match_for),
        decreases all.len() - i,
    {
        proof {
            assert(all.skip(i as int)[0] == all[i as int]);
        }
        if influencing_factors[i].unit == match_for {
            return Some(influencing_factors[i]);
        }
        proof {
            assert(all.skip(i as int).drop_first() =~= all.skip(i as int + 1));
        }
        i = i + 1;
    }
    proof {
        assert(all.skip(i as int) =~= Seq::<Quantity>::empty());
    }
    None
}

/// What remains to be done after the unit-level part of an evaluation.
///
/// The unary quantity functions decide everything that is about units —
/// which influencing factor is used, and what the result is whenever no
/// magnitude arithmetic is needed — and hand the rest back as one of these
/// three outcomes.
#[derive(Debug, Clone, Copy, PartialEq, Eq, Structural)]
pub enum Evaluation {
    /// The evaluation is finished and this is its result.
    Value(Quantity),
    /// The function's magnitude formula must be applied to this matched
    /// influencing factor; the result carries the function's output unit.
    Apply(Quantity),
    /// No influencing factor matched and the fallback value itself takes
    /// magnitude arithmetic (the sum of a sum-of-exponentials' amplitudes);
    /// the result carries the function's output unit.
    ApplyDefault,
}

/// The one-time self-test run when a quantity function is wrapped for a
/// statically typed result kind: the unit obtained by sampling the function
/// (`actual`) must equal the unit declared by the result kind (`expected`).
/// Succeeds exactly when the two are equal; fails with an error carrying
/// both units otherwise.
pub fn check_output_unit(expected: Unit, actual: Unit) -> (r: Result<(), UnitsNotEqual>)
    ensures
        r is Ok <==> actual == expected,
        r matches Err(e) ==> e == (UnitsNotEqual(expected, actual)),
{
    if actual == expected {
        Ok(())
    } else {
        Err(UnitsNotEqual(expected, actual))
    }
}

/// A statically typed quantity kind: a type that stands for values of one
/// fixed unit and can be built from any dimensional value of that unit.
///
/// The conversion contract is the heart of the wrapper design: building a
/// `Self` from a [`Quantity`] succeeds exactly when the quantity's unit is
/// the declared unit, so a conversion that was checked once is infallible
/// ever after — see [`convert_checked`].
pub trait IsQuantity: Sized + Clone {
    /// The unit every value of this kind is measured in.
    spec fn declared_unit() -> Unit;

    /// The value of this kind that a dimensional value of the declared unit
    /// stands for.
    spec fn from_quantity(q: Quantity) -> Self;

    /// Returns the unit this kind declares.
    fn unit_from_type() -> (u: Unit)
        ensures
            u == Self::declared_unit(),
    ;

    /// Converts a dimensional value into this kind. Succeeds exactly when
    /// the value's unit is the declared unit.
    fn try_from_quantity(q: &Quantity) -> (r: Option<Self>)
        ensures
            r is Some <==> q.unit == Self::declared_unit(),
            r matches Some(v) ==> v == Self::from_quantity(*q),
    ;
}

impl IsQuantity for Scalar {
    /// A bare scalar stands for a dimensionless quantity.
    open spec fn declared_unit() -> Unit {
        Unit::spec_dimensionless()
    }

    open spec fn from_quantity(q: Quantity) -> Scalar {
        q.value
    }

    fn unit_from_type() -> (u: Unit)
        ensures
            u == Unit::spec_dimensionless(),
    {
        Unit::dimensionless()
    }

    fn try_from_quantity(q: &Quantity) -> (r: Option<Scalar>) {
        if q.unit.is_dimensionless() {
            Some(q.value)
        } else {
            None
        }
    }
}

/// The infallible-by-contract conversion used on every call of a wrapped
/// quantity function: once the value's unit is known to be the kind's
/// declared unit, the conversion cannot fail. A caller that cannot
/// establish the premise must test it first and treat a failure as a defect
/// of the quantity function, not of its input.
pub fn convert_checked<T: IsQuantity>(q: &Quantity) -> (r: T)
    requires
        q.unit == T::declared_unit(),
    ensures
        r == T::from_quantity(*q),
{
    match T::try_from_quantity(q) {
        Some(v) => v,
        None => vstd::pervasive::unreached(),
    }
}

} // verus!
