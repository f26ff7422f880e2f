//! Tests for the dimensional core: the unit algebra, the influence
//! matcher, the output-unit self-test, the statically typed conversion and
//! the construction errors of the unary functions.

use var_quantity::quantity::{Quantity, Scalar};
use var_quantity::unary::exponential::{ExpTerm, Exponential};
use var_quantity::unary::linear::Linear;
use var_quantity::unary::polynomial::Polynomial;
use var_quantity::unit::{Unit, UnitsNotEqual};
use var_quantity::{check_output_unit, convert_checked, filter_unary_function, Evaluation, IsQuantity};

fn scalar(v: f64) -> Scalar {
    Scalar { bits: v.to_bits() }
}

fn val(s: Scalar) -> f64 {
    f64::from_bits(s.bits)
}

fn dimensionless() -> Unit {
    Unit { second: 0, meter: 0, kilogram: 0, ampere: 0, kelvin: 0, mol: 0, candela: 0 }
}

fn qty(v: f64, u: Unit) -> Quantity {
    Quantity { value: scalar(v), unit: u }
}

fn kelvin() -> Unit {
    Unit { second: 0, meter: 0, kilogram: 0, ampere: 0, kelvin: 1, mol: 0, candela: 0 }
}

fn current() -> Unit {
    Unit { second: 0, meter: 0, kilogram: 0, ampere: 1, kelvin: 0, mol: 0, candela: 0 }
}

fn power() -> Unit {
    Unit { second: -3, meter: 2, kilogram: 1, ampere: 0, kelvin: 0, mol: 0, candela: 0 }
}

fn voltage() -> Unit {
    Unit { second: -3, meter: 2, kilogram: 1, ampere: -1, kelvin: 0, mol: 0, candela: 0 }
}

fn meters(exponent: i64) -> Unit {
    Unit { second: 0, meter: exponent, kilogram: 0, ampere: 0, kelvin: 0, mol: 0, candela: 0 }
}

#[test]
fn test_unit_algebra() {
    // Multiplication adds exponents: a voltage times a current is a power.
    assert_eq!(voltage().mul(current()), power());
    // Division subtracts them: a power divided by a voltage is a current.
    assert_eq!(power().div(voltage()), current());
    // Integer powers scale them.
    let u = Unit { second: 0, meter: 1, kilogram: 0, ampere: 2, kelvin: 0, mol: -2, candela: 0 };
    assert_eq!(
        u.powi(2),
        Unit { second: 0, meter: 2, kilogram: 0, ampere: 4, kelvin: 0, mol: -4, candela: 0 }
    );
    // The dimensionless unit is the neutral element.
    assert_eq!(Unit::dimensionless(), dimensionless());
    assert_eq!(power().mul(Unit::dimensionless()), power());
    assert!(Unit::dimensionless().is_dimensionless());
    assert!(!power().is_dimensionless());
}

#[test]
fn test_filter_first_match_wins() {
    // Two entries match the target unit; the first in list order is used,
    // duplicates are not merged.
    let factors =
        [qty(1.0, kelvin()), qty(2.0, current()), qty(3.0, current()), qty(4.0, kelvin())];
    let r = filter_unary_function(&factors, current()).unwrap();
    assert_eq!(val(r.value), 2.0);
    assert_eq!(r.unit, current());
}

#[test]
fn test_filter_no_match() {
    // No entry of the target unit: the matcher reports that, both for an
    // empty list and for a list of unrelated units.
    assert!(filter_unary_function(&[], current()).is_none());
    let unrelated = [qty(1.0, kelvin()), qty(2.0, power())];
    assert!(filter_unary_function(&unrelated, current()).is_none());
}

#[test]
fn test_check_output_unit() {
    // The self-test succeeds exactly when the sampled output unit equals
    // the declared one, and otherwise names both.
    assert!(check_output_unit(power(), power()).is_ok());
    assert_eq!(
        check_output_unit(power(), voltage()).unwrap_err(),
        UnitsNotEqual(power(), voltage())
    );
}

#[test]
fn test_scalar_is_quantity() {
    // A bare scalar declares the dimensionless unit.
    assert_eq!(Scalar::unit_from_type(), dimensionless());
    // Conversion succeeds exactly for dimensionless quantities and hands
    // the magnitude through unchanged.
    let q = qty(2.5, dimensionless());
    assert_eq!(val(Scalar::try_from_quantity(&q).unwrap()), 2.5);
    assert!(Scalar::try_from_quantity(&qty(2.5, kelvin())).is_none());
    // Once the unit is known to match, the conversion is infallible.
    let s: Scalar = convert_checked(&q);
    assert_eq!(val(s), 2.5);
}

#[test]
fn test_linear_dimension_derivation() {
    // The influencing-factor unit is base/slope and the output unit is
    // that of the base value.
    let fun = Linear::new(qty(2.0, voltage()), qty(0.5, power()));
    assert_eq!(fun.influencing_factor_unit(), current());
    assert_eq!(fun.output_unit(), power());
}

#[test]
fn test_polynomial_empty_and_single() {
    // Zero coefficients: the consistency check is trivially satisfied, the
    // influencing-factor unit defaults to dimensionless and the default
    // value is a dimensionless zero.
    let fun = Polynomial::new(vec![]).unwrap();
    assert_eq!(fun.influencing_factor_unit(), dimensionless());
    assert_eq!(fun.output_unit(), dimensionless());
    match fun.evaluate(&[]) {
        Evaluation::Value(v) => {
            assert_eq!(val(v.value), 0.0);
            assert_eq!(v.unit, dimensionless());
        }
        _ => panic!("an empty polynomial evaluates to its default value"),
    }

    // A single coefficient: no pairwise check exists, so any unit passes.
    let fun = Polynomial::new(vec![qty(4.0, power())]).unwrap();
    assert_eq!(fun.influencing_factor_unit(), dimensionless());
    assert_eq!(fun.output_unit(), power());
}

#[test]
fn test_polynomial_mismatch_error_names_units() {
    // Coefficients standing for a volume polynomial, with the second
    // coefficient off by one length power: the error names the expected
    // unit (that of the last coefficient) and the unit the offending
    // coefficient amounts to.
    let r = Polynomial::new(vec![
        qty(1.0, dimensionless()),
        qty(2.0, dimensionless()),
        qty(3.0, meters(2)),
        qty(4.0, meters(3)),
    ]);
    assert_eq!(r.unwrap_err(), UnitsNotEqual(meters(3), meters(2)));
}

#[test]
fn test_exponential_trivial_and_mismatch_errors() {
    // Zero or one term: no pairwise check exists.
    let fun = Exponential::new(vec![]).unwrap();
    assert_eq!(fun.influencing_factor_unit(), dimensionless());
    assert_eq!(fun.output_unit(), dimensionless());
    let term = ExpTerm { amplitude: qty(1.0, power()), exponent: qty(1.0, current()) };
    let fun = Exponential::new(vec![term]).unwrap();
    assert_eq!(fun.influencing_factor_unit(), current().powi(-1));
    assert_eq!(fun.output_unit(), power());

    // An amplitude mismatch names the two amplitude units.
    let term_a = ExpTerm { amplitude: qty(1.0, power()), exponent: qty(1.0, current()) };
    let term_b = ExpTerm { amplitude: qty(1.0, voltage()), exponent: qty(1.0, current()) };
    let r = Exponential::new(vec![term_a, term_b]);
    assert_eq!(r.unwrap_err(), UnitsNotEqual(power(), voltage()));

    // An exponent mismatch names the two exponent units.
    let term_c = ExpTerm { amplitude: qty(1.0, power()), exponent: qty(1.0, kelvin()) };
    let r = Exponential::new(vec![term_a, term_c]);
    assert_eq!(r.unwrap_err(), UnitsNotEqual(current(), kelvin()));
}

#[test]
fn test_evaluation_plans_are_exact() {
    // The unit-level evaluation selects exactly the first matching factor.
    let fun = Linear::new(qty(2.0, voltage()), qty(0.5, power()));
    let factors = [qty(7.0, kelvin()), qty(1.0, current()), qty(9.0, current())];
    match fun.evaluate(&factors) {
        Evaluation::Apply(x) => {
            assert_eq!(val(x.value), 1.0);
            assert_eq!(x.unit, current());
        }
        _ => panic!("a matching factor must be selected"),
    }
    // And falls back to the base value when nothing matches.
    match fun.evaluate(&[qty(7.0, kelvin())]) {
        Evaluation::Value(v) => assert_eq!(val(v.value), 0.5),
        _ => panic!("without a match the base value is returned"),
    }
}

#[test]
fn test_no_match_fallback() {
    // For every function kind, an input list without a value of the
    // influencing-factor unit — empty or made of unrelated units — yields
    // exactly the value at an absent `x`.
    let unrelated = [qty(1.0, kelvin()), qty(2.0, voltage())];

    // Linear: the base value.
    let lin = Linear::new(qty(2.0, voltage()), qty(0.5, power()));
    for factors in [&[] as &[_], &unrelated] {
        match lin.evaluate(factors) {
            Evaluation::Value(v) => {
                assert_eq!(val(v.value), 0.5);
                assert_eq!(v.unit, power());
            }
            _ => panic!("no factor of unit ampere is present"),
        }
    }

    // Polynomial: the last coefficient.
    let poly =
        Polynomial::new(vec![qty(-1.0, meters(1)), qty(3.0, meters(2)), qty(2.0, meters(3))])
            .unwrap();
    for factors in [&[] as &[_], &unrelated] {
        match poly.evaluate(factors) {
            Evaluation::Value(v) => {
                assert_eq!(val(v.value), 2.0);
                assert_eq!(v.unit, meters(3));
            }
            _ => panic!("no factor of unit meter is present"),
        }
    }

    // First-order Taylor: the base value.
    let taylor = var_quantity::unary::first_order_taylor::FirstOrderTaylor::new(
        qty(2.5, power()),
        qty(2.0, current().powi(-1)),
        qty(0.5, current()),
    )
    .unwrap();
    for factors in [&[] as &[_], &unrelated] {
        match taylor.evaluate(factors) {
            Evaluation::Value(v) => {
                assert_eq!(val(v.value), 2.5);
                assert_eq!(v.unit, power());
            }
            _ => panic!("no factor of unit ampere is present"),
        }
    }

    // Sum of exponentials: the sum of the amplitudes remains to be
    // computed, which at an absent `x` is the value of the function.
    let exp = Exponential::new(vec![
        ExpTerm { amplitude: qty(2.0, power()), exponent: qty(2.0, current().powi(-1)) },
        ExpTerm { amplitude: qty(-3.0, power()), exponent: qty(0.0, current().powi(-1)) },
    ])
    .unwrap();
    for factors in [&[] as &[_], &unrelated] {
        match exp.evaluate(factors) {
            Evaluation::ApplyDefault => {}
            _ => panic!("no factor of unit ampere is present"),
        }
    }
}
