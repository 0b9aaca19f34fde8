//! Exact results and error classification of the checked operations
//! across types, including the signed edge cases.

use safe_math::{safe_add, safe_div, safe_mul, safe_rem, safe_sub, SafeMathError, SafeMathOps};

#[test]
fn add_scenarios() {
    assert_eq!(safe_add(10u8, 20u8), Ok(30u8));
    assert_eq!(safe_add(255u8, 1u8), Err(SafeMathError::Overflow));
    assert_eq!(safe_add(250u8, 5u8), Ok(255u8));
    assert_eq!(safe_add(i8::MAX, 1i8), Err(SafeMathError::Overflow));
    assert_eq!(safe_add(-100i8, -28i8), Ok(-128i8));
    assert_eq!(safe_add(i8::MIN, -1i8), Err(SafeMathError::Overflow));
    assert_eq!(safe_add(u128::MAX, 1u128), Err(SafeMathError::Overflow));
}

#[test]
fn sub_scenarios() {
    assert_eq!(safe_sub(30u8, 10u8), Ok(20u8));
    assert_eq!(safe_sub(10u8, 20u8), Err(SafeMathError::Overflow));
    assert_eq!(safe_sub(0u64, 1u64), Err(SafeMathError::Overflow));
    assert_eq!(safe_sub(i32::MIN, 1i32), Err(SafeMathError::Overflow));
    assert_eq!(safe_sub(-1i32, i32::MAX), Ok(i32::MIN));
}

#[test]
fn mul_scenarios() {
    assert_eq!(safe_mul(5u8, 6u8), Ok(30u8));
    assert_eq!(safe_mul(16u8, 16u8), Err(SafeMathError::Overflow));
    assert_eq!(safe_mul(-2i16, 100i16), Ok(-200i16));
    assert_eq!(safe_mul(i16::MIN, -1i16), Err(SafeMathError::Overflow));
}

#[test]
fn div_scenarios() {
    assert_eq!(safe_div(30u8, 6u8), Ok(5u8));
    assert_eq!(safe_div(10u8, 0u8), Err(SafeMathError::DivisionByZero));
    assert_eq!(safe_div(i32::MIN, -1i32), Err(SafeMathError::Overflow));
    assert_eq!(safe_div(0i32, 5i32), Ok(0i32));
    // Truncation toward zero on negative operands.
    assert_eq!(safe_div(-7i32, 2i32), Ok(-3i32));
    assert_eq!(safe_div(7i32, -2i32), Ok(-3i32));
    assert_eq!(safe_div(-7i32, -2i32), Ok(3i32));
}

#[test]
fn rem_scenarios() {
    assert_eq!(safe_rem(17u8, 7u8), Ok(3u8));
    assert_eq!(safe_rem(10i8, 3i8), Ok(1i8));
    assert_eq!(safe_rem(10u8, 0u8), Err(SafeMathError::DivisionByZero));
    assert_eq!(safe_rem(i64::MIN, -1i64), Err(SafeMathError::Overflow));
    // The remainder takes the sign of the left operand.
    assert_eq!(safe_rem(-10i8, 3i8), Ok(-1i8));
    assert_eq!(safe_rem(10i8, -3i8), Ok(1i8));
    assert_eq!(safe_rem(-10i8, -3i8), Ok(-1i8));
}

#[test]
fn bundled_capability_matches_single_ones() {
    assert_eq!(<u8 as SafeMathOps>::safe_add(10u8, 20u8), Ok(30u8));
    assert_eq!(<u8 as SafeMathOps>::safe_sub(10u8, 20u8), Err(SafeMathError::Overflow));
    assert_eq!(<i32 as SafeMathOps>::safe_div(i32::MIN, -1), Err(SafeMathError::Overflow));
    assert_eq!(<i32 as SafeMathOps>::safe_mul(7, -6), Ok(-42));
    assert_eq!(<u16 as SafeMathOps>::safe_rem(0u16, 0u16), Err(SafeMathError::DivisionByZero));
}

#[test]
fn error_messages() {
    assert_eq!(SafeMathError::Overflow.message(), "arithmetic overflow");
    assert_eq!(SafeMathError::DivisionByZero.message(), "division by zero");
    assert_eq!(SafeMathError::InfiniteOrNaN.message(), "infinite or NaN value");
    assert_eq!(SafeMathError::NotImplemented.message(), "operation not implemented");
}
