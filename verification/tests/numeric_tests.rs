use rustilox::numeric::add_f;
use rustilox::numeric::sub_f;
use rustilox::numeric::mul_f;
use rustilox::numeric::div_f;
use rustilox::numeric::neg_f;
use rustilox::numeric::eq_f;
use rustilox::numeric::cmp_f;
use std::cmp::Ordering;

fn interesting_values() -> Vec<f64> {
    vec![
        0.0,
        -0.0,
        1.0,
        -1.0,
        0.5,
        2.0,
        3.0,
        1.2,
        3.4,
        5.6,
        -5.6,
        0.1,
        0.2,
        1.0 / 3.0,
        1e10,
        -1e10,
        1e-10,
        1e300,
        -1e300,
        1e-300,
        5e-324,
        -5e-324,
        1e-320,
        f64::MAX,
        f64::MIN,
        f64::MIN_POSITIVE,
        f64::INFINITY,
        f64::NEG_INFINITY,
        f64::EPSILON,
        1.0 + f64::EPSILON,
        4503599627370495.5,
        9007199254740992.0,
        123456789.123456789,
    ]
}

fn check(op_name: &str, mine: u64, native: f64) {
    if native.is_nan() {
        assert!(
            f64::from_bits(mine).is_nan(),
            "{}: expected NaN, got {:?}",
            op_name,
            f64::from_bits(mine)
        );
    } else {
        assert_eq!(
            mine,
            native.to_bits(),
            "{}: got {:?}, expected {:?}",
            op_name,
            f64::from_bits(mine),
            native
        );
    }
}

#[test]
fn addition_matches_hardware() {
    for &a in &interesting_values() {
        for &b in &interesting_values() {
            check("add", add_f(a.to_bits(), b.to_bits()), a + b);
        }
    }
}

#[test]
fn subtraction_matches_hardware() {
    for &a in &interesting_values() {
        for &b in &interesting_values() {
            check("sub", sub_f(a.to_bits(), b.to_bits()), a - b);
        }
    }
}

#[test]
fn multiplication_matches_hardware() {
    for &a in &interesting_values() {
        for &b in &interesting_values() {
            check("mul", mul_f(a.to_bits(), b.to_bits()), a * b);
        }
    }
}

#[test]
fn division_matches_hardware() {
    for &a in &interesting_values() {
        for &b in &interesting_values() {
            check("div", div_f(a.to_bits(), b.to_bits()), a / b);
        }
    }
}

#[test]
fn negation_and_nan_propagation() {
    for &a in &interesting_values() {
        check("neg", neg_f(a.to_bits()), -a);
    }
    let nan = f64::NAN.to_bits();
    assert!(f64::from_bits(add_f(nan, 1.0f64.to_bits())).is_nan());
    assert!(f64::from_bits(mul_f(1.0f64.to_bits(), nan)).is_nan());
    assert!(f64::from_bits(add_f(
        f64::INFINITY.to_bits(),
        f64::NEG_INFINITY.to_bits()
    ))
    .is_nan());
    assert!(f64::from_bits(mul_f(f64::INFINITY.to_bits(), 0.0f64.to_bits())).is_nan());
    assert!(f64::from_bits(div_f(0.0f64.to_bits(), 0.0f64.to_bits())).is_nan());
    assert!(f64::from_bits(div_f(
        f64::INFINITY.to_bits(),
        f64::INFINITY.to_bits()
    ))
    .is_nan());
}

#[test]
fn equality_and_ordering_match_hardware() {
    let mut values = interesting_values();
    values.push(f64::NAN);
    for &a in &values {
        for &b in &values {
            assert_eq!(eq_f(a.to_bits(), b.to_bits()), a == b, "eq {:?} {:?}", a, b);
            let expected: Option<Ordering> = a.partial_cmp(&b);
            assert_eq!(cmp_f(a.to_bits(), b.to_bits()), expected, "cmp {:?} {:?}", a, b);
        }
    }
}

#[test]
fn rounding_ties_go_to_even() {
    let a = 1.0f64;
    let ulp_half = f64::EPSILON / 2.0;
    check("tie", add_f(a.to_bits(), ulp_half.to_bits()), a + ulp_half);
    let b = 1.0f64 + f64::EPSILON;
    check("tie-up", add_f(b.to_bits(), ulp_half.to_bits()), b + ulp_half);
}
