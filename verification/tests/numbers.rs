use rustlisp::number::{
    compute, number_eq, number_gt, number_is_nan, number_is_zero, number_lt, ArithOp, INFINITY,
    ONE, SIGN, ZERO,
};

fn samples() -> Vec<f64> {
    vec![
        0.0,
        -0.0,
        1.0,
        -1.0,
        0.5,
        -0.5,
        2.0,
        1e-320,
        -1e-320,
        f64::MIN_POSITIVE,
        f64::MAX,
        f64::MIN,
        f64::EPSILON,
        1.0 + f64::EPSILON,
        f64::INFINITY,
        f64::NEG_INFINITY,
        f64::NAN,
        -f64::NAN,
        f64::from_bits(0x7FF0_0000_0000_0001),
        f64::from_bits(0xFFFF_FFFF_FFFF_FFFF),
        3.141592653589793,
        -1234567.875,
    ]
}

#[test]
fn constants_are_the_patterns_of_zero_and_one() {
    assert_eq!(ZERO, 0.0f64.to_bits());
    assert_eq!(ONE, 1.0f64.to_bits());
    assert_eq!(SIGN, (-0.0f64).to_bits());
    assert_eq!(INFINITY, f64::INFINITY.to_bits());
}

#[test]
fn equality_agrees_with_the_doubles() {
    for a in samples() {
        for b in samples() {
            assert_eq!(number_eq(a.to_bits(), b.to_bits()), a == b, "{} == {}", a, b);
        }
    }
}

#[test]
fn order_agrees_with_the_doubles() {
    for a in samples() {
        for b in samples() {
            assert_eq!(number_lt(a.to_bits(), b.to_bits()), a < b, "{} < {}", a, b);
            assert_eq!(number_gt(a.to_bits(), b.to_bits()), a > b, "{} > {}", a, b);
        }
    }
}

#[test]
fn zero_test_agrees_with_the_doubles() {
    for a in samples() {
        assert_eq!(number_is_zero(a.to_bits()), a == 0.0, "{}", a);
    }
}

#[test]
fn nan_test_agrees_with_the_doubles() {
    for a in samples() {
        assert_eq!(number_is_nan(a.to_bits()), a.is_nan(), "{}", a);
    }
}

#[test]
fn comparisons_on_given_patterns() {
    assert!(number_eq(0, SIGN));
    assert!(!number_lt(SIGN, 0));
    assert!(!number_lt(0, SIGN));
    assert!(number_lt(SIGN + 1, SIGN));
    assert!(number_lt(0, 1));
    assert!(number_gt(ONE, ZERO));
    assert!(!number_eq(INFINITY + 1, INFINITY + 1));
    assert!(number_eq(INFINITY, INFINITY));
    assert!(number_lt(SIGN + INFINITY, INFINITY));
}

fn arith(op: ArithOp, a: u64, b: u64) -> u64 {
    let (x, y) = (f64::from_bits(a), f64::from_bits(b));
    let r = match op {
        ArithOp::Add => x + y,
        ArithOp::Sub => x - y,
        ArithOp::Mul => x * y,
        ArithOp::Div => x / y,
    };
    r.to_bits()
}

#[test]
fn compute_asks_the_host() {
    let bits = |x: f64| x.to_bits();
    assert_eq!(compute(&arith, ArithOp::Add, bits(1.5), bits(2.0)), bits(3.5));
    assert_eq!(compute(&arith, ArithOp::Sub, bits(1.5), bits(2.0)), bits(-0.5));
    assert_eq!(compute(&arith, ArithOp::Mul, bits(1.5), bits(2.0)), bits(3.0));
    assert_eq!(compute(&arith, ArithOp::Div, bits(1.5), bits(2.0)), bits(0.75));
    let left = |_: ArithOp, a: u64, _: u64| a;
    assert_eq!(compute(&left, ArithOp::Div, 11, 22), 11);
}
