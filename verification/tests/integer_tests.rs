//! Unit tests of the signed fixed-point type and the configuration
//! validators.

use margined_engine::error::EngineError;
use margined_engine::integer::{scaled_mul_div, Integer, MAX_AMOUNT};
use margined_engine::types::{validate_margin_ratios, validate_ratio};

#[test]
fn constructors_are_canonical() {
    assert_eq!(Integer::zero(), Integer { negative: false, value: 0 });
    // negative zero does not exist
    assert_eq!(Integer::new_negative(0), Integer { negative: false, value: 0 });
    assert_eq!(Integer::new_negative(3), Integer { negative: true, value: 3 });
    assert_eq!(Integer::new_positive(3), Integer { negative: false, value: 3 });
}

#[test]
fn signed_addition_is_exact() {
    let a = Integer::new_positive(5);
    let b = Integer::new_negative(7);
    assert_eq!(a.checked_add(b).unwrap(), Integer { negative: true, value: 2 });
    assert_eq!(b.checked_add(a).unwrap(), Integer { negative: true, value: 2 });
    assert_eq!(a.checked_add(a).unwrap(), Integer { negative: false, value: 10 });
    // opposite values cancel to canonical zero
    assert_eq!(
        a.checked_add(Integer::new_negative(5)).unwrap(),
        Integer { negative: false, value: 0 }
    );
}

#[test]
fn addition_overflow_fails_loudly() {
    let big = Integer::new_positive(u128::MAX);
    assert!(big.checked_add(Integer::new_positive(1)).is_none());
    // opposite signs can never overflow
    assert!(big.checked_add(Integer::new_negative(u128::MAX)).is_some());
}

#[test]
fn subtraction_and_sign_inversion() {
    let a = Integer::new_positive(5);
    assert_eq!(a.checked_sub(Integer::new_positive(8)).unwrap(), Integer::new_negative(3));
    assert_eq!(Integer::new_negative(4).invert_sign(), Integer::new_positive(4));
    assert_eq!(Integer::zero().invert_sign(), Integer::zero());
}

#[test]
fn multiplication_tracks_signs() {
    let a = Integer::new_negative(6);
    let b = Integer::new_positive(7);
    assert_eq!(a.checked_mul(b).unwrap(), Integer { negative: true, value: 42 });
    assert_eq!(a.checked_mul(a).unwrap(), Integer { negative: false, value: 36 });
    assert_eq!(a.checked_mul(Integer::zero()).unwrap(), Integer::zero());
    assert!(Integer::new_positive(u128::MAX).checked_mul(Integer::new_positive(2)).is_none());
}

#[test]
fn division_truncates_toward_zero() {
    let a = Integer::new_negative(7);
    let b = Integer::new_positive(2);
    assert_eq!(a.checked_div(b).unwrap(), Integer { negative: true, value: 3 });
    assert_eq!(a.invert_sign().checked_div(b).unwrap(), Integer { negative: false, value: 3 });
    assert!(a.checked_div(Integer::zero()).is_none());
}

#[test]
fn comparisons_follow_the_number_line() {
    let neg = Integer::new_negative(5);
    let small = Integer::new_negative(2);
    let zero = Integer::zero();
    let pos = Integer::new_positive(2);
    assert!(neg.lt(&small));
    assert!(small.lt(&zero));
    assert!(zero.lt(&pos));
    assert!(pos.gt(&neg));
    assert!(neg.le(&neg));
    assert!(pos.ge(&pos));
    assert!(!pos.lt(&neg));
}

#[test]
fn predicates_respect_the_sign() {
    assert!(Integer::new_negative(1).is_negative());
    assert!(!Integer::zero().is_negative());
    assert!(Integer::zero().is_zero());
    assert!(Integer::new_positive(1).is_positive());
    assert!(!Integer::new_negative(1).is_positive());
}

#[test]
fn scaled_multiplication_divides_once() {
    assert_eq!(scaled_mul_div(25, 10, 5), 50);
    assert_eq!(scaled_mul_div(7, 3, 2), 10);
}

#[test]
fn max_amount_squares_within_range() {
    // the engine's range guarantee: the product of any two in-range
    // amounts fits a u128
    let a = Integer::new_positive(MAX_AMOUNT);
    assert!(a.checked_mul(a).is_some());
}

#[test]
fn ratio_validators() {
    assert!(validate_ratio(5, 10).is_ok());
    assert!(validate_ratio(10, 10).is_ok());
    assert_eq!(validate_ratio(11, 10).unwrap_err(), EngineError::InvalidRatio);
    assert!(validate_margin_ratios(10, 5).is_ok());
    assert_eq!(validate_margin_ratios(5, 10).unwrap_err(), EngineError::InvalidRatio);
}
