//! The checked-arithmetic capability traits.
//!
//! Five single-operation capabilities plus the bundled [`SafeMathOps`]
//! capability that requires all five. Each method returns `Ok(result)`
//! on success and a [`SafeMathError`] on failure, never panicking and
//! never wrapping. Each implementation pins its behaviour down with a
//! specification function (`spec_safe_add` and friends), so a caller
//! knows exactly which inputs succeed and which error each failing
//! input produces.

use vstd::prelude::*;

use crate::error::SafeMathError;

verus! {

/// Safe addition with overflow checking.
pub trait SafeAdd: Sized + Copy {
    /// What `safe_add` returns for each pair of operands.
    spec fn spec_safe_add(self, rhs: Self) -> Result<Self, SafeMathError>;

    /// Performs safe addition with overflow checking.
    ///
    /// Returns `Ok(self + rhs)` if the sum is representable, and
    /// `Err(SafeMathError::Overflow)` if the addition would overflow.
    fn safe_add(self, rhs: Self) -> (r: Result<Self, SafeMathError>)
        ensures
            r == self.spec_safe_add(rhs),
    ;
}

/// Safe subtraction with underflow checking.
pub trait SafeSub: Sized + Copy {
    /// What `safe_sub` returns for each pair of operands.
    spec fn spec_safe_sub(self, rhs: Self) -> Result<Self, SafeMathError>;

    /// Performs safe subtraction with underflow checking.
    ///
    /// Returns `Ok(self - rhs)` if the difference is representable, and
    /// `Err(SafeMathError::Overflow)` if the subtraction would underflow.
    fn safe_sub(self, rhs: Self) -> (r: Result<Self, SafeMathError>)
        ensures
            r == self.spec_safe_sub(rhs),
    ;
}

/// Safe multiplication with overflow checking.
pub trait SafeMul: Sized + Copy {
    /// What `safe_mul` returns for each pair of operands.
    spec fn spec_safe_mul(self, rhs: Self) -> Result<Self, SafeMathError>;

    /// Performs safe multiplication with overflow checking.
    ///
    /// Returns `Ok(self * rhs)` if the product is representable, and
    /// `Err(SafeMathError::Overflow)` if the multiplication would
    /// overflow.
    fn safe_mul(self, rhs: Self) -> (r: Result<Self, SafeMathError>)
        ensures
            r == self.spec_safe_mul(rhs),
    ;
}

/// Safe division with division-by-zero checking.
pub trait SafeDiv: Sized + Copy {
    /// What `safe_div` returns for each pair of operands.
    spec fn spec_safe_div(self, rhs: Self) -> Result<Self, SafeMathError>;

    /// Performs safe division with division-by-zero checking.
    ///
    /// Returns `Ok(self / rhs)` when the division is valid,
    /// `Err(SafeMathError::DivisionByZero)` when `rhs` is zero, and
    /// `Err(SafeMathError::Overflow)` when the quotient is not
    /// representable (the minimum of a signed type divided by `-1`).
    fn safe_div(self, rhs: Self) -> (r: Result<Self, SafeMathError>)
        ensures
            r == self.spec_safe_div(rhs),
    ;
}

/// Safe remainder with division-by-zero checking.
pub trait SafeRem: Sized + Copy {
    /// What `safe_rem` returns for each pair of operands.
    spec fn spec_safe_rem(self, rhs: Self) -> Result<Self, SafeMathError>;

    /// Performs safe remainder with division-by-zero checking.
    ///
    /// Returns `Ok(self % rhs)` when the operation is valid,
    /// `Err(SafeMathError::DivisionByZero)` when `rhs` is zero, and
    /// `Err(SafeMathError::Overflow)` for the signed edge case (the
    /// minimum of a signed type with a divisor of `-1`).
    fn safe_rem(self, rhs: Self) -> (r: Result<Self, SafeMathError>)
        ensures
            r == self.spec_safe_rem(rhs),
    ;
}

/// Unified capability providing all five safe arithmetic operations.
///
/// This is the capability that rewritten function bodies call into, and
/// the target of derivation for user-defined types. Every type that has
/// the five single-operation capabilities has this one, with the same
/// behaviour for each method.
pub trait SafeMathOps: Sized + Copy {
    /// What `safe_add` returns for each pair of operands.
    spec fn spec_safe_add(self, rhs: Self) -> Result<Self, SafeMathError>;

    /// What `safe_sub` returns for each pair of operands.
    spec fn spec_safe_sub(self, rhs: Self) -> Result<Self, SafeMathError>;

    /// What `safe_mul` returns for each pair of operands.
    spec fn spec_safe_mul(self, rhs: Self) -> Result<Self, SafeMathError>;

    /// What `safe_div` returns for each pair of operands.
    spec fn spec_safe_div(self, rhs: Self) -> Result<Self, SafeMathError>;

    /// What `safe_rem` returns for each pair of operands.
    spec fn spec_safe_rem(self, rhs: Self) -> Result<Self, SafeMathError>;

    /// Safe addition with overflow checking.
    fn safe_add(self, rhs: Self) -> (r: Result<Self, SafeMathError>)
        ensures
            r == self.spec_safe_add(rhs),
    ;

    /// Safe subtraction with underflow checking.
    fn safe_sub(self, rhs: Self) -> (r: Result<Self, SafeMathError>)
        ensures
            r == self.spec_safe_sub(rhs),
    ;

    /// Safe multiplication with overflow checking.
    fn safe_mul(self, rhs: Self) -> (r: Result<Self, SafeMathError>)
        ensures
            r == self.spec_safe_mul(rhs),
    ;

    /// Safe division with division-by-zero checking.
    fn safe_div(self, rhs: Self) -> (r: Result<Self, SafeMathError>)
        ensures
            r == self.spec_safe_div(rhs),
    ;

    /// Safe remainder with division-by-zero checking.
    fn safe_rem(self, rhs: Self) -> (r: Result<Self, SafeMathError>)
        ensures
            r == self.spec_safe_rem(rhs),
    ;
}

} // verus!
