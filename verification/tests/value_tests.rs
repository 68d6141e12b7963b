use rustilox::Value;

#[test]
fn same_equality() {
    assert_eq!(Value::_Natural(42), Value::_Natural(42));
    assert_ne!(Value::_Natural(-1), Value::_Natural(1));
    assert_eq!(Value::Real(4.2f64.to_bits()), Value::Real(4.2f64.to_bits()));
    assert_eq!(Value::Nil, Value::Nil);
    assert_eq!(Value::Boolean(true), Value::Boolean(true));
    assert_ne!(Value::Boolean(true), Value::Boolean(false));
}

#[test]
fn diff_equality() {
    assert_ne!(Value::_Natural(1), Value::Real(1.0f64.to_bits()));
}

#[test]
fn same_partial_ord() {
    assert!(Value::Real(4.2f64.to_bits()) > Value::Real(1.5f64.to_bits()));
    assert!(Value::Boolean(true) > Value::Boolean(false));
}

#[test]
#[should_panic]
fn diff_partial_ord_panics() {
    assert!(Value::Real(4.2f64.to_bits()) > Value::Boolean(false));
}

#[test]
fn ieee_equality_on_values() {
    let nan = (0.0f64 / 0.0f64).to_bits();
    assert_ne!(Value::Real(nan), Value::Real(nan));
    assert_eq!(Value::Real(0.0f64.to_bits()), Value::Real((-0.0f64).to_bits()));
}

#[test]
fn value_arithmetic_matches_variants() {
    let a = Value::Real(1.5f64.to_bits());
    let b = Value::Real(2.5f64.to_bits());
    assert_eq!(a.add(b), Some(Value::Real(4.0f64.to_bits())));
    assert_eq!(a.add(Value::Boolean(true)), None);
    assert_eq!(Value::Nil.add(Value::Nil), None);
    assert_eq!(Value::Boolean(true).not(), Some(Value::Boolean(false)));
    assert_eq!(Value::Nil.not(), None);
    assert_eq!(b.neg(), Some(Value::Real((-2.5f64).to_bits())));
    assert_eq!(Value::Boolean(false).neg(), None);
    assert_eq!(Value::_Natural(7).add(Value::_Natural(5)), Some(Value::_Natural(12)));
    assert_eq!(Value::_Natural(7).div(Value::_Natural(-2)), Some(Value::_Natural(-3)));
}

#[test]
fn value_rendering() {
    assert_eq!(Value::Nil.render(), "Nil");
    assert_eq!(Value::Boolean(true).render(), "true");
    assert_eq!(Value::Boolean(false).render(), "false");
    assert_eq!(Value::_Natural(-40).render(), "-40");
    assert_eq!(
        Value::Real(1.2f64.to_bits()).render(),
        format!("0x{:016X}", 1.2f64.to_bits())
    );
}
