//! Capability implementations for the built-in integer types, and the
//! free checked-operation functions.
//!
//! Every built-in integer type gets the five single-operation
//! capabilities, each proved against [`checked_op`], the shared
//! mathematical account of checked arithmetic: the exact result on
//! success, `Overflow` when the result does not fit the type,
//! `DivisionByZero` for a zero divisor, and `Overflow` for the signed
//! edge case (the type's minimum with a divisor of `-1`). A bundled
//! [`SafeMathOps`] implementation covers any type that has all five.
//! The free functions `safe_add` through `safe_rem` are the canonical
//! names that rewritten expressions call.

use vstd::prelude::*;

use crate::arith::{checked_op, lemma_mul_nonneg, lemma_trunc_ops_nonneg, OpKind};
use crate::error::SafeMathError;
use crate::ops::{SafeAdd, SafeDiv, SafeMathOps, SafeMul, SafeRem, SafeSub};

verus! {

/// Marker restricting the built-in capability implementations to an
/// internally closed set of types.
pub trait Sealed {
}

impl Sealed for u8 {

}

impl Sealed for u16 {

}

impl Sealed for u32 {

}

impl Sealed for u64 {

}

impl Sealed for u128 {

}

impl Sealed for usize {

}

impl Sealed for i8 {

}

impl Sealed for i16 {

}

impl Sealed for i32 {

}

impl Sealed for i64 {

}

impl Sealed for i128 {

}

impl Sealed for isize {

}

/// Marker for the sealed types whose addition is checked.
pub trait IsSafeAdd: Sealed {
}

/// Marker for the sealed types whose subtraction is checked.
pub trait IsSafeSub: Sealed {
}

/// Marker for the sealed types whose multiplication is checked.
pub trait IsSafeMul: Sealed {
}

/// Marker for the sealed types whose division is checked.
pub trait IsSafeDiv: Sealed {
}

/// Marker for the sealed types whose remainder is checked.
pub trait IsSafeRem: Sealed {
}

impl<T: Sealed> IsSafeAdd for T {

}

impl<T: Sealed> IsSafeSub for T {

}

impl<T: Sealed> IsSafeMul for T {

}

impl<T: Sealed> IsSafeDiv for T {

}

impl<T: Sealed> IsSafeRem for T {

}

/// Performs safe addition with overflow checking.
///
/// This is the canonical checked-call name for `+`: a rewritten
/// arithmetic expression `a + b` becomes `safe_add(a, b)` immediately
/// unwrapped with propagate-on-error semantics. The free functions go
/// through the bundled capability, so they serve every type that has
/// it — the built-in integer types and derived user types alike.
pub fn safe_add<T: SafeMathOps>(a: T, b: T) -> (r: Result<T, SafeMathError>)
    ensures
        r == a.spec_safe_add(b),
{
    a.safe_add(b)
}

/// Performs safe subtraction with underflow checking.
///
/// The canonical checked-call name for `-`.
pub fn safe_sub<T: SafeMathOps>(a: T, b: T) -> (r: Result<T, SafeMathError>)
    ensures
        r == a.spec_safe_sub(b),
{
    a.safe_sub(b)
}

/// Performs safe multiplication with overflow checking.
///
/// The canonical checked-call name for `*`.
pub fn safe_mul<T: SafeMathOps>(a: T, b: T) -> (r: Result<T, SafeMathError>)
    ensures
        r == a.spec_safe_mul(b),
{
    a.safe_mul(b)
}

/// Performs safe division with division-by-zero checking.
///
/// The canonical checked-call name for `/`.
pub fn safe_div<T: SafeMathOps>(a: T, b: T) -> (r: Result<T, SafeMathError>)
    ensures
        r == a.spec_safe_div(b),
{
    a.safe_div(b)
}

/// Performs safe remainder with division-by-zero checking.
///
/// The canonical checked-call name for `%`.
pub fn safe_rem<T: SafeMathOps>(a: T, b: T) -> (r: Result<T, SafeMathError>)
    ensures
        r == a.spec_safe_rem(b),
{
    a.safe_rem(b)
}

impl<T: SafeAdd + SafeSub + SafeMul + SafeDiv + SafeRem> SafeMathOps for T {
    open spec fn spec_safe_add(self, rhs: T) -> Result<T, SafeMathError> {
        SafeAdd::spec_safe_add(self, rhs)
    }

    open spec fn spec_safe_sub(self, rhs: T) -> Result<T, SafeMathError> {
        SafeSub::spec_safe_sub(self, rhs)
    }

    open spec fn spec_safe_mul(self, rhs: T) -> Result<T, SafeMathError> {
        SafeMul::spec_safe_mul(self, rhs)
    }

    open spec fn spec_safe_div(self, rhs: T) -> Result<T, SafeMathError> {
        SafeDiv::spec_safe_div(self, rhs)
    }

    open spec fn spec_safe_rem(self, rhs: T) -> Result<T, SafeMathError> {
        SafeRem::spec_safe_rem(self, rhs)
    }

    fn safe_add(self, rhs: T) -> (r: Result<T, SafeMathError>) {
        SafeAdd::safe_add(self, rhs)
    }

    fn safe_sub(self, rhs: T) -> (r: Result<T, SafeMathError>) {
        SafeSub::safe_sub(self, rhs)
    }

    fn safe_mul(self, rhs: T) -> (r: Result<T, SafeMathError>) {
        SafeMul::safe_mul(self, rhs)
    }

    fn safe_div(self, rhs: T) -> (r: Result<T, SafeMathError>) {
        SafeDiv::safe_div(self, rhs)
    }

    fn safe_rem(self, rhs: T) -> (r: Result<T, SafeMathError>) {
        SafeRem::safe_rem(self, rhs)
    }
}

impl SafeAdd for u8 {
    open spec fn spec_safe_add(self, rhs: u8) -> Result<u8, SafeMathError> {
        match checked_op(OpKind::Add, self as int, rhs as int, 0, u8::MAX as int) {
            Ok(v) => Ok(v as u8),
            Err(e) => Err(e),
        }
    }

    fn safe_add(self, rhs: u8) -> (r: Result<u8, SafeMathError>) {
        match self.checked_add(rhs) {
            Some(v) => Ok(v),
            None => Err(SafeMathError::Overflow),
        }
    }
}

impl SafeSub for u8 {
    open spec fn spec_safe_sub(self, rhs: u8) -> Result<u8, SafeMathError> {
        match checked_op(OpKind::Sub, self as int, rhs as int, 0, u8::MAX as int) {
            Ok(v) => Ok(v as u8),
            Err(e) => Err(e),
        }
    }

    fn safe_sub(self, rhs: u8) -> (r: Result<u8, SafeMathError>) {
        match self.checked_sub(rhs) {
            Some(v) => Ok(v),
            None => Err(SafeMathError::Overflow),
        }
    }
}

impl SafeMul for u8 {
    open spec fn spec_safe_mul(self, rhs: u8) -> Result<u8, SafeMathError> {
        match checked_op(OpKind::Mul, self as int, rhs as int, 0, u8::MAX as int) {
            Ok(v) => Ok(v as u8),
            Err(e) => Err(e),
        }
    }

    fn safe_mul(self, rhs: u8) -> (r: Result<u8, SafeMathError>) {
        proof {
            lemma_mul_nonneg(self as int, rhs as int);
        }
        match self.checked_mul(rhs) {
            Some(v) => Ok(v),
            None => Err(SafeMathError::Overflow),
        }
    }
}

impl SafeDiv for u8 {
    open spec fn spec_safe_div(self, rhs: u8) -> Result<u8, SafeMathError> {
        match checked_op(OpKind::Div, self as int, rhs as int, 0, u8::MAX as int) {
            Ok(v) => Ok(v as u8),
            Err(e) => Err(e),
        }
    }

    fn safe_div(self, rhs: u8) -> (r: Result<u8, SafeMathError>) {
        proof {
            if rhs != 0 {
                lemma_trunc_ops_nonneg(self as int, rhs as int);
            }
        }
        match self.checked_div(rhs) {
            Some(v) => Ok(v),
            None => Err(SafeMathError::DivisionByZero),
        }
    }
}

impl SafeRem for u8 {
    open spec fn spec_safe_rem(self, rhs: u8) -> Result<u8, SafeMathError> {
        match checked_op(OpKind::Rem, self as int, rhs as int, 0, u8::MAX as int) {
            Ok(v) => Ok(v as u8),
            Err(e) => Err(e),
        }
    }

    fn safe_rem(self, rhs: u8) -> (r: Result<u8, SafeMathError>) {
        proof {
            if rhs != 0 {
                lemma_trunc_ops_nonneg(self as int, rhs as int);
            }
        }
        match self.checked_rem(rhs) {
            Some(v) => Ok(v),
            None => Err(SafeMathError::DivisionByZero),
        }
    }
}

impl SafeAdd for u16 {
    open spec fn spec_safe_add(self, rhs: u16) -> Result<u16, SafeMathError> {
        match checked_op(OpKind::Add, self as int, rhs as int, 0, u16::MAX as int) {
            Ok(v) => Ok(v as u16),
            Err(e) => Err(e),
        }
    }

    fn safe_add(self, rhs: u16) -> (r: Result<u16, SafeMathError>) {
        match self.checked_add(rhs) {
            Some(v) => Ok(v),
            None => Err(SafeMathError::Overflow),
        }
    }
}

impl SafeSub for u16 {
    open spec fn spec_safe_sub(self, rhs: u16) -> Result<u16, SafeMathError> {
        match checked_op(OpKind::Sub, self as int, rhs as int, 0, u16::MAX as int) {
            Ok(v) => Ok(v as u16),
            Err(e) => Err(e),
        }
    }

    fn safe_sub(self, rhs: u16) -> (r: Result<u16, SafeMathError>) {
        match self.checked_sub(rhs) {
            Some(v) => Ok(v),
            None => Err(SafeMathError::Overflow),
        }
    }
}

impl SafeMul for u16 {
    open spec fn spec_safe_mul(self, rhs: u16) -> Result<u16, SafeMathError> {
        match checked_op(OpKind::Mul, self as int, rhs as int, 0, u16::MAX as int) {
            Ok(v) => Ok(v as u16),
            Err(e) => Err(e),
        }
    }

    fn safe_mul(self, rhs: u16) -> (r: Result<u16, SafeMathError>) {
        proof {
            lemma_mul_nonneg(self as int, rhs as int);
        }
        match self.checked_mul(rhs) {
            Some(v) => Ok(v),
            None => Err(SafeMathError::Overflow),
        }
    }
}

impl SafeDiv for u16 {
    open spec fn spec_safe_div(self, rhs: u16) -> Result<u16, SafeMathError> {
        match checked_op(OpKind::Div, self as int, rhs as int, 0, u16::MAX as int) {
            Ok(v) => Ok(v as u16),
            Err(e) => Err(e),
        }
    }

    fn safe_div(self, rhs: u16) -> (r: Result<u16, SafeMathError>) {
        proof {
            if rhs != 0 {
                lemma_trunc_ops_nonneg(self as int, rhs as int);
            }
        }
        match self.checked_div(rhs) {
            Some(v) => Ok(v),
            None => Err(SafeMathError::DivisionByZero),
        }
    }
}

impl SafeRem for u16 {
    open spec fn spec_safe_rem(self, rhs: u16) -> Result<u16, SafeMathError> {
        match checked_op(OpKind::Rem, self as int, rhs as int, 0, u16::MAX as int) {
            Ok(v) => Ok(v as u16),
            Err(e) => Err(e),
        }
    }

    fn safe_rem(self, rhs: u16) -> (r: Result<u16, SafeMathError>) {
        proof {
            if rhs != 0 {
                lemma_trunc_ops_nonneg(self as int, rhs as int);
            }
        }
        match self.checked_rem(rhs) {
            Some(v) => Ok(v),
            None => Err(SafeMathError::DivisionByZero),
        }
    }
}

impl SafeAdd for u32 {
    open spec fn spec_safe_add(self, rhs: u32) -> Result<u32, SafeMathError> {
        match checked_op(OpKind::Add, self as int, rhs as int, 0, u32::MAX as int) {
            Ok(v) => Ok(v as u32),
            Err(e) => Err(e),
        }
    }

    fn safe_add(self, rhs: u32) -> (r: Result<u32, SafeMathError>) {
        match self.checked_add(rhs) {
            Some(v) => Ok(v),
            None => Err(SafeMathError::Overflow),
        }
    }
}

impl SafeSub for u32 {
    open spec fn spec_safe_sub(self, rhs: u32) -> Result<u32, SafeMathError> {
        match checked_op(OpKind::Sub, self as int, rhs as int, 0, u32::MAX as int) {
            Ok(v) => Ok(v as u32),
            Err(e) => Err(e),
        }
    }

    fn safe_sub(self, rhs: u32) -> (r: Result<u32, SafeMathError>) {
        match self.checked_sub(rhs) {
            Some(v) => Ok(v),
            None => Err(SafeMathError::Overflow),
        }
    }
}

impl SafeMul for u32 {
    open spec fn spec_safe_mul(self, rhs: u32) -> Result<u32, SafeMathError> {
        match checked_op(OpKind::Mul, self as int, rhs as int, 0, u32::MAX as int) {
            Ok(v) => Ok(v as u32),
            Err(e) => Err(e),
        }
    }

    fn safe_mul(self, rhs: u32) -> (r: Result<u32, SafeMathError>) {
        proof {
            lemma_mul_nonneg(self as int, rhs as int);
        }
        match self.checked_mul(rhs) {
            Some(v) => Ok(v),
            None => Err(SafeMathError::Overflow),
        }
    }
}

impl SafeDiv for u32 {
    open spec fn spec_safe_div(self, rhs: u32) -> Result<u32, SafeMathError> {
        match checked_op(OpKind::Div, self as int, rhs as int, 0, u32::MAX as int) {
            Ok(v) => Ok(v as u32),
            Err(e) => Err(e),
        }
    }

    fn safe_div(self, rhs: u32) -> (r: Result<u32, SafeMathError>) {
        proof {
            if rhs != 0 {
                lemma_trunc_ops_nonneg(self as int, rhs as int);
            }
        }
        match self.checked_div(rhs) {
            Some(v) => Ok(v),
            None => Err(SafeMathError::DivisionByZero),
        }
    }
}

impl SafeRem for u32 {
    open spec fn spec_safe_rem(self, rhs: u32) -> Result<u32, SafeMathError> {
        match checked_op(OpKind::Rem, self as int, rhs as int, 0, u32::MAX as int) {
            Ok(v) => Ok(v as u32),
            Err(e) => Err(e),
        }
    }

    fn safe_rem(self, rhs: u32) -> (r: Result<u32, SafeMathError>) {
        proof {
            if rhs != 0 {
                lemma_trunc_ops_nonneg(self as int, rhs as int);
            }
        }
        match self.checked_rem(rhs) {
            Some(v) => Ok(v),
            None => Err(SafeMathError::DivisionByZero),
        }
    }
}

impl SafeAdd for u64 {
    open spec fn spec_safe_add(self, rhs: u64) -> Result<u64, SafeMathError> {
        match checked_op(OpKind::Add, self as int, rhs as int, 0, u64::MAX as int) {
            Ok(v) => Ok(v as u64),
            Err(e) => Err(e),
        }
    }

    fn safe_add(self, rhs: u64) -> (r: Result<u64, SafeMathError>) {
        match self.checked_add(rhs) {
            Some(v) => Ok(v),
            None => Err(SafeMathError::Overflow),
        }
    }
}

impl SafeSub for u64 {
    open spec fn spec_safe_sub(self, rhs: u64) -> Result<u64, SafeMathError> {
        match checked_op(OpKind::Sub, self as int, rhs as int, 0, u64::MAX as int) {
            Ok(v) => Ok(v as u64),
            Err(e) => Err(e),
        }
    }

    fn safe_sub(self, rhs: u64) -> (r: Result<u64, SafeMathError>) {
        match self.checked_sub(rhs) {
            Some(v) => Ok(v),
            None => Err(SafeMathError::Overflow),
        }
    }
}

impl SafeMul for u64 {
    open spec fn spec_safe_mul(self, rhs: u64) -> Result<u64, SafeMathError> {
        match checked_op(OpKind::Mul, self as int, rhs as int, 0, u64::MAX as int) {
            Ok(v) => Ok(v as u64),
            Err(e) => Err(e),
        }
    }

    fn safe_mul(self, rhs: u64) -> (r: Result<u64, SafeMathError>) {
        proof {
            lemma_mul_nonneg(self as int, rhs as int);
        }
        match self.checked_mul(rhs) {
            Some(v) => Ok(v),
            None => Err(SafeMathError::Overflow),
        }
    }
}

impl SafeDiv for u64 {
    open spec fn spec_safe_div(self, rhs: u64) -> Result<u64, SafeMathError> {
        match checked_op(OpKind::Div, self as int, rhs as int, 0, u64::MAX as int) {
            Ok(v) => Ok(v as u64),
            Err(e) => Err(e),
        }
    }

    fn safe_div(self, rhs: u64) -> (r: Result<u64, SafeMathError>) {
        proof {
            if rhs != 0 {
                lemma_trunc_ops_nonneg(self as int, rhs as int);
            }
        }
        match self.checked_div(rhs) {
            Some(v) => Ok(v),
            None => Err(SafeMathError::DivisionByZero),
        }
    }
}

impl SafeRem for u64 {
    open spec fn spec_safe_rem(self, rhs: u64) -> Result<u64, SafeMathError> {
        match checked_op(OpKind::Rem, self as int, rhs as int, 0, u64::MAX as int) {
            Ok(v) => Ok(v as u64),
            Err(e) => Err(e),
        }
    }

    fn safe_rem(self, rhs: u64) -> (r: Result<u64, SafeMathError>) {
        proof {
            if rhs != 0 {
                lemma_trunc_ops_nonneg(self as int, rhs as int);
            }
        }
        match self.checked_rem(rhs) {
            Some(v) => Ok(v),
            None => Err(SafeMathError::DivisionByZero),
        }
    }
}

impl SafeAdd for u128 {
    open spec fn spec_safe_add(self, rhs: u128) -> Result<u128, SafeMathError> {
        match checked_op(OpKind::Add, self as int, rhs as int, 0, u128::MAX as int) {
            Ok(v) => Ok(v as u128),
            Err(e) => Err(e),
        }
    }

    fn safe_add(self, rhs: u128) -> (r: Result<u128, SafeMathError>) {
        match self.checked_add(rhs) {
            Some(v) => Ok(v),
            None => Err(SafeMathError::Overflow),
        }
    }
}

impl SafeSub for u128 {
    open spec fn spec_safe_sub(self, rhs: u128) -> Result<u128, SafeMathError> {
        match checked_op(OpKind::Sub, self as int, rhs as int, 0, u128::MAX as int) {
            Ok(v) => Ok(v as u128),
            Err(e) => Err(e),
        }
    }

    fn safe_sub(self, rhs: u128) -> (r: Result<u128, SafeMathError>) {
        match self.checked_sub(rhs) {
            Some(v) => Ok(v),
            None => Err(SafeMathError::Overflow),
        }
    }
}

impl SafeMul for u128 {
    open spec fn spec_safe_mul(self, rhs: u128) -> Result<u128, SafeMathError> {
        match checked_op(OpKind::Mul, self as int, rhs as int, 0, u128::MAX as int) {
            Ok(v) => Ok(v as u128),
            Err(e) => Err(e),
        }
    }

    fn safe_mul(self, rhs: u128) -> (r: Result<u128, SafeMathError>) {
        proof {
            lemma_mul_nonneg(self as int, rhs as int);
        }
        match self.checked_mul(rhs) {
            Some(v) => Ok(v),
            None => Err(SafeMathError::Overflow),
        }
    }
}

impl SafeDiv for u128 {
    open spec fn spec_safe_div(self, rhs: u128) -> Result<u128, SafeMathError> {
        match checked_op(OpKind::Div, self as int, rhs as int, 0, u128::MAX as int) {
            Ok(v) => Ok(v as u128),
            Err(e) => Err(e),
        }
    }

    fn safe_div(self, rhs: u128) -> (r: Result<u128, SafeMathError>) {
        proof {
            if rhs != 0 {
                lemma_trunc_ops_nonneg(self as int, rhs as int);
            }
        }
        match self.checked_div(rhs) {
            Some(v) => Ok(v),
            None => Err(SafeMathError::DivisionByZero),
        }
    }
}

impl SafeRem for u128 {
    open spec fn spec_safe_rem(self, rhs: u128) -> Result<u128, SafeMathError> {
        match checked_op(OpKind::Rem, self as int, rhs as int, 0, u128::MAX as int) {
            Ok(v) => Ok(v as u128),
            Err(e) => Err(e),
        }
    }

    fn safe_rem(self, rhs: u128) -> (r: Result<u128, SafeMathError>) {
        proof {
            if rhs != 0 {
                lemma_trunc_ops_nonneg(self as int, rhs as int);
            }
        }
        match self.checked_rem(rhs) {
            Some(v) => Ok(v),
            None => Err(SafeMathError::DivisionByZero),
        }
    }
}

impl SafeAdd for usize {
    open spec fn spec_safe_add(self, rhs: usize) -> Result<usize, SafeMathError> {
        match checked_op(OpKind::Add, self as int, rhs as int, 0, usize::MAX as int) {
            Ok(v) => Ok(v as usize),
            Err(e) => Err(e),
        }
    }

    fn safe_add(self, rhs: usize) -> (r: Result<usize, SafeMathError>) {
        match self.checked_add(rhs) {
            Some(v) => Ok(v),
            None => Err(SafeMathError::Overflow),
        }
    }
}

impl SafeSub for usize {
    open spec fn spec_safe_sub(self, rhs: usize) -> Result<usize, SafeMathError> {
        match checked_op(OpKind::Sub, self as int, rhs as int, 0, usize::MAX as int) {
            Ok(v) => Ok(v as usize),
            Err(e) => Err(e),
        }
    }

    fn safe_sub(self, rhs: usize) -> (r: Result<usize, SafeMathError>) {
        match self.checked_sub(rhs) {
            Some(v) => Ok(v),
            None => Err(SafeMathError::Overflow),
        }
    }
}

impl SafeMul for usize {
    open spec fn spec_safe_mul(self, rhs: usize) -> Result<usize, SafeMathError> {
        match checked_op(OpKind::Mul, self as int, rhs as int, 0, usize::MAX as int) {
            Ok(v) => Ok(v as usize),
            Err(e) => Err(e),
        }
    }

    fn safe_mul(self, rhs: usize) -> (r: Result<usize, SafeMathError>) {
        proof {
            lemma_mul_nonneg(self as int, rhs as int);
        }
        match self.checked_mul(rhs) {
            Some(v) => Ok(v),
            None => Err(SafeMathError::Overflow),
        }
    }
}

impl SafeDiv for usize {
    open spec fn spec_safe_div(self, rhs: usize) -> Result<usize, SafeMathError> {
        match checked_op(OpKind::Div, self as int, rhs as int, 0, usize::MAX as int) {
            Ok(v) => Ok(v as usize),
            Err(e) => Err(e),
        }
    }

    fn safe_div(self, rhs: usize) -> (r: Result<usize, SafeMathError>) {
        proof {
            if rhs != 0 {
                lemma_trunc_ops_nonneg(self as int, rhs as int);
            }
        }
        match self.checked_div(rhs) {
            Some(v) => Ok(v),
            None => Err(SafeMathError::DivisionByZero),
        }
    }
}

impl SafeRem for usize {
    open spec fn spec_safe_rem(self, rhs: usize) -> Result<usize, SafeMathError> {
        match checked_op(OpKind::Rem, self as int, rhs as int, 0, usize::MAX as int) {
            Ok(v) => Ok(v as usize),
            Err(e) => Err(e),
        }
    }

    fn safe_rem(self, rhs: usize) -> (r: Result<usize, SafeMathError>) {
        proof {
            if rhs != 0 {
                lemma_trunc_ops_nonneg(self as int, rhs as int);
            }
        }
        match self.checked_rem(rhs) {
            Some(v) => Ok(v),
            None => Err(SafeMathError::DivisionByZero),
        }
    }
}

impl SafeAdd for i8 {
    open spec fn spec_safe_add(self, rhs: i8) -> Result<i8, SafeMathError> {
        match checked_op(OpKind::Add, self as int, rhs as int, i8::MIN as int, i8::MAX as int) {
            Ok(v) => Ok(v as i8),
            Err(e) => Err(e),
        }
    }

    fn safe_add(self, rhs: i8) -> (r: Result<i8, SafeMathError>) {
        match self.checked_add(rhs) {
            Some(v) => Ok(v),
            None => Err(SafeMathError::Overflow),
        }
    }
}

impl SafeSub for i8 {
    open spec fn spec_safe_sub(self, rhs: i8) -> Result<i8, SafeMathError> {
        match checked_op(OpKind::Sub, self as int, rhs as int, i8::MIN as int, i8::MAX as int) {
            Ok(v) => Ok(v as i8),
            Err(e) => Err(e),
        }
    }

    fn safe_sub(self, rhs: i8) -> (r: Result<i8, SafeMathError>) {
        match self.checked_sub(rhs) {
            Some(v) => Ok(v),
            None => Err(SafeMathError::Overflow),
        }
    }
}

impl SafeMul for i8 {
    open spec fn spec_safe_mul(self, rhs: i8) -> Result<i8, SafeMathError> {
        match checked_op(OpKind::Mul, self as int, rhs as int, i8::MIN as int, i8::MAX as int) {
            Ok(v) => Ok(v as i8),
            Err(e) => Err(e),
        }
    }

    fn safe_mul(self, rhs: i8) -> (r: Result<i8, SafeMathError>) {
        match self.checked_mul(rhs) {
            Some(v) => Ok(v),
            None => Err(SafeMathError::Overflow),
        }
    }
}

impl SafeDiv for i8 {
    open spec fn spec_safe_div(self, rhs: i8) -> Result<i8, SafeMathError> {
        match checked_op(OpKind::Div, self as int, rhs as int, i8::MIN as int, i8::MAX as int) {
            Ok(v) => Ok(v as i8),
            Err(e) => Err(e),
        }
    }

    fn safe_div(self, rhs: i8) -> (r: Result<i8, SafeMathError>) {
        if rhs == 0 {
            Err(SafeMathError::DivisionByZero)
        } else {
            match self.checked_div(rhs) {
                Some(v) => Ok(v),
                None => Err(SafeMathError::Overflow),
            }
        }
    }
}

impl SafeRem for i8 {
    open spec fn spec_safe_rem(self, rhs: i8) -> Result<i8, SafeMathError> {
        match checked_op(OpKind::Rem, self as int, rhs as int, i8::MIN as int, i8::MAX as int) {
            Ok(v) => Ok(v as i8),
            Err(e) => Err(e),
        }
    }

    fn safe_rem(self, rhs: i8) -> (r: Result<i8, SafeMathError>) {
        if rhs == 0 {
            Err(SafeMathError::DivisionByZero)
        } else {
            match self.checked_rem(rhs) {
                Some(v) => Ok(v),
                None => Err(SafeMathError::Overflow),
            }
        }
    }
}

impl SafeAdd for i16 {
    open spec fn spec_safe_add(self, rhs: i16) -> Result<i16, SafeMathError> {
        match checked_op(OpKind::Add, self as int, rhs as int, i16::MIN as int, i16::MAX as int) {
            Ok(v) => Ok(v as i16),
            Err(e) => Err(e),
        }
    }

    fn safe_add(self, rhs: i16) -> (r: Result<i16, SafeMathError>) {
        match self.checked_add(rhs) {
            Some(v) => Ok(v),
            None => Err(SafeMathError::Overflow),
        }
    }
}

impl SafeSub for i16 {
    open spec fn spec_safe_sub(self, rhs: i16) -> Result<i16, SafeMathError> {
        match checked_op(OpKind::Sub, self as int, rhs as int, i16::MIN as int, i16::MAX as int) {
            Ok(v) => Ok(v as i16),
            Err(e) => Err(e),
        }
    }

    fn safe_sub(self, rhs: i16) -> (r: Result<i16, SafeMathError>) {
        match self.checked_sub(rhs) {
            Some(v) => Ok(v),
            None => Err(SafeMathError::Overflow),
        }
    }
}

impl SafeMul for i16 {
    open spec fn spec_safe_mul(self, rhs: i16) -> Result<i16, SafeMathError> {
        match checked_op(OpKind::Mul, self as int, rhs as int, i16::MIN as int, i16::MAX as int) {
            Ok(v) => Ok(v as i16),
            Err(e) => Err(e),
        }
    }

    fn safe_mul(self, rhs: i16) -> (r: Result<i16, SafeMathError>) {
        match self.checked_mul(rhs) {
            Some(v) => Ok(v),
            None => Err(SafeMathError::Overflow),
        }
    }
}

impl SafeDiv for i16 {
    open spec fn spec_safe_div(self, rhs: i16) -> Result<i16, SafeMathError> {
        match checked_op(OpKind::Div, self as int, rhs as int, i16::MIN as int, i16::MAX as int) {
            Ok(v) => Ok(v as i16),
            Err(e) => Err(e),
        }
    }

    fn safe_div(self, rhs: i16) -> (r: Result<i16, SafeMathError>) {
        if rhs == 0 {
            Err(SafeMathError::DivisionByZero)
        } else {
            match self.checked_div(rhs) {
                Some(v) => Ok(v),
                None => Err(SafeMathError::Overflow),
            }
        }
    }
}

impl SafeRem for i16 {
    open spec fn spec_safe_rem(self, rhs: i16) -> Result<i16, SafeMathError> {
        match checked_op(OpKind::Rem, self as int, rhs as int, i16::MIN as int, i16::MAX as int) {
            Ok(v) => Ok(v as i16),
            Err(e) => Err(e),
        }
    }

    fn safe_rem(self, rhs: i16) -> (r: Result<i16, SafeMathError>) {
        if rhs == 0 {
            Err(SafeMathError::DivisionByZero)
        } else {
            match self.checked_rem(rhs) {
                Some(v) => Ok(v),
                None => Err(SafeMathError::Overflow),
            }
        }
    }
}

impl SafeAdd for i32 {
    open spec fn spec_safe_add(self, rhs: i32) -> Result<i32, SafeMathError> {
        match checked_op(OpKind::Add, self as int, rhs as int, i32::MIN as int, i32::MAX as int) {
            Ok(v) => Ok(v as i32),
            Err(e) => Err(e),
        }
    }

    fn safe_add(self, rhs: i32) -> (r: Result<i32, SafeMathError>) {
        match self.checked_add(rhs) {
            Some(v) => Ok(v),
            None => Err(SafeMathError::Overflow),
        }
    }
}

impl SafeSub for i32 {
    open spec fn spec_safe_sub(self, rhs: i32) -> Result<i32, SafeMathError> {
        match checked_op(OpKind::Sub, self as int, rhs as int, i32::MIN as int, i32::MAX as int) {
            Ok(v) => Ok(v as i32),
            Err(e) => Err(e),
        }
    }

    fn safe_sub(self, rhs: i32) -> (r: Result<i32, SafeMathError>) {
        match self.checked_sub(rhs) {
            Some(v) => Ok(v),
            None => Err(SafeMathError::Overflow),
        }
    }
}

impl SafeMul for i32 {
    open spec fn spec_safe_mul(self, rhs: i32) -> Result<i32, SafeMathError> {
        match checked_op(OpKind::Mul, self as int, rhs as int, i32::MIN as int, i32::MAX as int) {
            Ok(v) => Ok(v as i32),
            Err(e) => Err(e),
        }
    }

    fn safe_mul(self, rhs: i32) -> (r: Result<i32, SafeMathError>) {
        match self.checked_mul(rhs) {
            Some(v) => Ok(v),
            None => Err(SafeMathError::Overflow),
        }
    }
}

impl SafeDiv for i32 {
    open spec fn spec_safe_div(self, rhs: i32) -> Result<i32, SafeMathError> {
        match checked_op(OpKind::Div, self as int, rhs as int, i32::MIN as int, i32::MAX as int) {
            Ok(v) => Ok(v as i32),
            Err(e) => Err(e),
        }
    }

    fn safe_div(self, rhs: i32) -> (r: Result<i32, SafeMathError>) {
        if rhs == 0 {
            Err(SafeMathError::DivisionByZero)
        } else {
            match self.checked_div(rhs) {
                Some(v) => Ok(v),
                None => Err(SafeMathError::Overflow),
            }
        }
    }
}

impl SafeRem for i32 {
    open spec fn spec_safe_rem(self, rhs: i32) -> Result<i32, SafeMathError> {
        match checked_op(OpKind::Rem, self as int, rhs as int, i32::MIN as int, i32::MAX as int) {
            Ok(v) => Ok(v as i32),
            Err(e) => Err(e),
        }
    }

    fn safe_rem(self, rhs: i32) -> (r: Result<i32, SafeMathError>) {
        if rhs == 0 {
            Err(SafeMathError::DivisionByZero)
        } else {
            match self.checked_rem(rhs) {
                Some(v) => Ok(v),
                None => Err(SafeMathError::Overflow),
            }
        }
    }
}

impl SafeAdd for i64 {
    open spec fn spec_safe_add(self, rhs: i64) -> Result<i64, SafeMathError> {
        match checked_op(OpKind::Add, self as int, rhs as int, i64::MIN as int, i64::MAX as int) {
            Ok(v) => Ok(v as i64),
            Err(e) => Err(e),
        }
    }

    fn safe_add(self, rhs: i64) -> (r: Result<i64, SafeMathError>) {
        match self.checked_add(rhs) {
            Some(v) => Ok(v),
            None => Err(SafeMathError::Overflow),
        }
    }
}

impl SafeSub for i64 {
    open spec fn spec_safe_sub(self, rhs: i64) -> Result<i64, SafeMathError> {
        match checked_op(OpKind::Sub, self as int, rhs as int, i64::MIN as int, i64::MAX as int) {
            Ok(v) => Ok(v as i64),
            Err(e) => Err(e),
        }
    }

    fn safe_sub(self, rhs: i64) -> (r: Result<i64, SafeMathError>) {
        match self.checked_sub(rhs) {
            Some(v) => Ok(v),
            None => Err(SafeMathError::Overflow),
        }
    }
}

impl SafeMul for i64 {
    open spec fn spec_safe_mul(self, rhs: i64) -> Result<i64, SafeMathError> {
        match checked_op(OpKind::Mul, self as int, rhs as int, i64::MIN as int, i64::MAX as int) {
            Ok(v) => Ok(v as i64),
            Err(e) => Err(e),
        }
    }

    fn safe_mul(self, rhs: i64) -> (r: Result<i64, SafeMathError>) {
        match self.checked_mul(rhs) {
            Some(v) => Ok(v),
            None => Err(SafeMathError::Overflow),
        }
    }
}

impl SafeDiv for i64 {
    open spec fn spec_safe_div(self, rhs: i64) -> Result<i64, SafeMathError> {
        match checked_op(OpKind::Div, self as int, rhs as int, i64::MIN as int, i64::MAX as int) {
            Ok(v) => Ok(v as i64),
            Err(e) => Err(e),
        }
    }

    fn safe_div(self, rhs: i64) -> (r: Result<i64, SafeMathError>) {
        if rhs == 0 {
            Err(SafeMathError::DivisionByZero)
        } else {
            match self.checked_div(rhs) {
                Some(v) => Ok(v),
                None => Err(SafeMathError::Overflow),
            }
        }
    }
}

impl SafeRem for i64 {
    open spec fn spec_safe_rem(self, rhs: i64) -> Result<i64, SafeMathError> {
        match checked_op(OpKind::Rem, self as int, rhs as int, i64::MIN as int, i64::MAX as int) {
            Ok(v) => Ok(v as i64),
            Err(e) => Err(e),
        }
    }

    fn safe_rem(self, rhs: i64) -> (r: Result<i64, SafeMathError>) {
        if rhs == 0 {
            Err(SafeMathError::DivisionByZero)
        } else {
            match self.checked_rem(rhs) {
                Some(v) => Ok(v),
                None => Err(SafeMathError::Overflow),
            }
        }
    }
}

impl SafeAdd for i128 {
    open spec fn spec_safe_add(self, rhs: i128) -> Result<i128, SafeMathError> {
        match checked_op(OpKind::Add, self as int, rhs as int, i128::MIN as int, i128::MAX as int) {
            Ok(v) => Ok(v as i128),
            Err(e) => Err(e),
        }
    }

    fn safe_add(self, rhs: i128) -> (r: Result<i128, SafeMathError>) {
        match self.checked_add(rhs) {
            Some(v) => Ok(v),
            None => Err(SafeMathError::Overflow),
        }
    }
}

impl SafeSub for i128 {
    open spec fn spec_safe_sub(self, rhs: i128) -> Result<i128, SafeMathError> {
        match checked_op(OpKind::Sub, self as int, rhs as int, i128::MIN as int, i128::MAX as int) {
            Ok(v) => Ok(v as i128),
            Err(e) => Err(e),
        }
    }

    fn safe_sub(self, rhs: i128) -> (r: Result<i128, SafeMathError>) {
        match self.checked_sub(rhs) {
            Some(v) => Ok(v),
            None => Err(SafeMathError::Overflow),
        }
    }
}

impl SafeMul for i128 {
    open spec fn spec_safe_mul(self, rhs: i128) -> Result<i128, SafeMathError> {
        match checked_op(OpKind::Mul, self as int, rhs as int, i128::MIN as int, i128::MAX as int) {
            Ok(v) => Ok(v as i128),
            Err(e) => Err(e),
        }
    }

    fn safe_mul(self, rhs: i128) -> (r: Result<i128, SafeMathError>) {
        match self.checked_mul(rhs) {
            Some(v) => Ok(v),
            None => Err(SafeMathError::Overflow),
        }
    }
}

impl SafeDiv for i128 {
    open spec fn spec_safe_div(self, rhs: i128) -> Result<i128, SafeMathError> {
        match checked_op(OpKind::Div, self as int, rhs as int, i128::MIN as int, i128::MAX as int) {
            Ok(v) => Ok(v as i128),
            Err(e) => Err(e),
        }
    }

    fn safe_div(self, rhs: i128) -> (r: Result<i128, SafeMathError>) {
        if rhs == 0 {
            Err(SafeMathError::DivisionByZero)
        } else {
            match self.checked_div(rhs) {
                Some(v) => Ok(v),
                None => Err(SafeMathError::Overflow),
            }
        }
    }
}

impl SafeRem for i128 {
    open spec fn spec_safe_rem(self, rhs: i128) -> Result<i128, SafeMathError> {
        match checked_op(OpKind::Rem, self as int, rhs as int, i128::MIN as int, i128::MAX as int) {
            Ok(v) => Ok(v as i128),
            Err(e) => Err(e),
        }
    }

    fn safe_rem(self, rhs: i128) -> (r: Result<i128, SafeMathError>) {
        if rhs == 0 {
            Err(SafeMathError::DivisionByZero)
        } else {
            match self.checked_rem(rhs) {
                Some(v) => Ok(v),
                None => Err(SafeMathError::Overflow),
            }
        }
    }
}

impl SafeAdd for isize {
    open spec fn spec_safe_add(self, rhs: isize) -> Result<isize, SafeMathError> {
        match checked_op(OpKind::Add, self as int, rhs as int, isize::MIN as int, isize::MAX as int) {
            Ok(v) => Ok(v as isize),
            Err(e) => Err(e),
        }
    }

    fn safe_add(self, rhs: isize) -> (r: Result<isize, SafeMathError>) {
        match self.checked_add(rhs) {
            Some(v) => Ok(v),
            None => Err(SafeMathError::Overflow),
        }
    }
}

impl SafeSub for isize {
    open spec fn spec_safe_sub(self, rhs: isize) -> Result<isize, SafeMathError> {
        match checked_op(OpKind::Sub, self as int, rhs as int, isize::MIN as int, isize::MAX as int) {
            Ok(v) => Ok(v as isize),
            Err(e) => Err(e),
        }
    }

    fn safe_sub(self, rhs: isize) -> (r: Result<isize, SafeMathError>) {
        match self.checked_sub(rhs) {
            Some(v) => Ok(v),
            None => Err(SafeMathError::Overflow),
        }
    }
}

impl SafeMul for isize {
    open spec fn spec_safe_mul(self, rhs: isize) -> Result<isize, SafeMathError> {
        match checked_op(OpKind::Mul, self as int, rhs as int, isize::MIN as int, isize::MAX as int) {
            Ok(v) => Ok(v as isize),
            Err(e) => Err(e),
        }
    }

    fn safe_mul(self, rhs: isize) -> (r: Result<isize, SafeMathError>) {
        match self.checked_mul(rhs) {
            Some(v) => Ok(v),
            None => Err(SafeMathError::Overflow),
        }
    }
}

impl SafeDiv for isize {
    open spec fn spec_safe_div(self, rhs: isize) -> Result<isize, SafeMathError> {
        match checked_op(OpKind::Div, self as int, rhs as int, isize::MIN as int, isize::MAX as int) {
            Ok(v) => Ok(v as isize),
            Err(e) => Err(e),
        }
    }

    fn safe_div(self, rhs: isize) -> (r: Result<isize, SafeMathError>) {
        if rhs == 0 {
            Err(SafeMathError::DivisionByZero)
        } else {
            match self.checked_div(rhs) {
                Some(v) => Ok(v),
                None => Err(SafeMathError::Overflow),
            }
        }
    }
}

impl SafeRem for isize {
    open spec fn spec_safe_rem(self, rhs: isize) -> Result<isize, SafeMathError> {
        match checked_op(OpKind::Rem, self as int, rhs as int, isize::MIN as int, isize::MAX as int) {
            Ok(v) => Ok(v as isize),
            Err(e) => Err(e),
        }
    }

    fn safe_rem(self, rhs: isize) -> (r: Result<isize, SafeMathError>) {
        if rhs == 0 {
            Err(SafeMathError::DivisionByZero)
        } else {
            match self.checked_rem(rhs) {
                Some(v) => Ok(v),
                None => Err(SafeMathError::Overflow),
            }
        }
    }
}

} // verus!
