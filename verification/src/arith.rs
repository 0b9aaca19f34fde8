//! Operation kinds and the exact integer semantics of checked arithmetic.
//!
//! Every capability implementation for a built-in integer type, and the
//! checked-call nodes produced by the expression rewriter, share one
//! mathematical account of what a checked operation returns: the exact
//! result when it fits the type's range, and an error otherwise. This
//! module states that account once, over unbounded integers, so that the
//! per-type contracts and the rewriter's semantics agree by definition.

use vstd::prelude::*;

use vstd::arithmetic::div_mod::{lemma_fundamental_div_mod, lemma_mod_bound};

use crate::error::SafeMathError;

verus! {

/// The five arithmetic operation kinds subject to checking.
///
/// Each kind corresponds to one canonical checked operation
/// (`checked_add` through `checked_rem`) and to one capability trait.
#[derive(Debug, Clone, Copy, PartialEq, Eq, Structural)]
pub enum OpKind {
    /// Addition (`+`, `+=`).
    Add,
    /// Subtraction (`-`, `-=`).
    Sub,
    /// Multiplication (`*`, `*=`).
    Mul,
    /// Division (`/`, `/=`).
    Div,
    /// Remainder (`%`, `%=`).
    Rem,
}

/// Whether the operation kind is a division or remainder, the two kinds
/// whose right operand must not be zero.
pub open spec fn is_division(op: OpKind) -> bool {
    op == OpKind::Div || op == OpKind::Rem
}

/// Truncating division on unbounded integers: the quotient is rounded
/// toward zero, as the `/` operator of the built-in integer types does.
///
/// (In specifications, `/` on `int` is Euclidean division; the two agree
/// whenever both operands are non-negative.)
pub open spec fn trunc_div(a: int, b: int) -> int
    recommends
        b != 0,
{
    if a == 0 {
        0
    } else if a > 0 && b > 0 {
        a / b
    } else if a < 0 && b < 0 {
        (a * -1) / (b * -1)
    } else if a < 0 {
        ((a * -1) / b) * -1
    } else {
        (a / (b * -1)) * -1
    }
}

/// Truncating remainder on unbounded integers: the remainder takes the
/// sign of the left operand, as the `%` operator of the built-in integer
/// types does.
pub open spec fn trunc_rem(a: int, b: int) -> int
    recommends
        b != 0,
{
    if a == 0 {
        0
    } else if a > 0 && b > 0 {
        a % b
    } else if a < 0 && b < 0 {
        ((a * -1) % (b * -1)) * -1
    } else if a < 0 {
        ((a * -1) % b) * -1
    } else {
        a % (b * -1)
    }
}

/// Law: truncating division and remainder satisfy the division
/// identity — divisor times quotient plus remainder gives the
/// dividend — the remainder is smaller in magnitude than the divisor,
/// and a non-zero remainder takes the sign of the dividend. Together
/// these pin them down as the division that the `/` and `%` operators
/// of the built-in integer types perform.
pub proof fn lemma_trunc_div_rem(a: int, b: int)
    requires
        b != 0,
    ensures
        b * trunc_div(a, b) + trunc_rem(a, b) == a,
        b > 0 ==> -b < trunc_rem(a, b) < b,
        b < 0 ==> b < trunc_rem(a, b) < -b,
        a > 0 ==> trunc_rem(a, b) >= 0,
        a < 0 ==> trunc_rem(a, b) <= 0,
        a == 0 ==> trunc_rem(a, b) == 0,
{
    if a == 0 {
        assert(b * 0 == 0) by (nonlinear_arith);
    } else if a > 0 && b > 0 {
        lemma_fundamental_div_mod(a, b);
        lemma_mod_bound(a, b);
    } else if a < 0 && b < 0 {
        let x = a * -1;
        let d = b * -1;
        lemma_fundamental_div_mod(x, d);
        lemma_mod_bound(x, d);
        let q = x / d;
        let r = x % d;
        assert(b * q + r * -1 == a) by (nonlinear_arith)
            requires
                x == d * q + r,
                x == a * -1,
                d == b * -1,
        ;
    } else if a < 0 {
        let x = a * -1;
        lemma_fundamental_div_mod(x, b);
        lemma_mod_bound(x, b);
        let q = x / b;
        let r = x % b;
        assert(b * (q * -1) + r * -1 == a) by (nonlinear_arith)
            requires
                x == b * q + r,
                x == a * -1,
        ;
    } else {
        let d = b * -1;
        lemma_fundamental_div_mod(a, d);
        lemma_mod_bound(a, d);
        let q = a / d;
        let r = a % d;
        assert(b * (q * -1) + r == a) by (nonlinear_arith)
            requires
                a == d * q + r,
                d == b * -1,
        ;
    }
}

/// The mathematically exact result of an operation on unbounded integers.
pub open spec fn exact_op(op: OpKind, a: int, b: int) -> int
    recommends
        is_division(op) ==> b != 0,
{
    match op {
        OpKind::Add => a + b,
        OpKind::Sub => a - b,
        OpKind::Mul => a * b,
        OpKind::Div => trunc_div(a, b),
        OpKind::Rem => trunc_rem(a, b),
    }
}

/// What a checked operation returns for operands of an integer type
/// whose values span `lo ..= hi`:
///
/// - division or remainder by zero fails with `DivisionByZero`;
/// - the remainder of the type's minimum by `-1` fails with `Overflow`
///   (the signed edge case: the matching division overflows, and the
///   built-in `checked_rem` rejects the pair as well);
/// - otherwise the exact result succeeds when it lies within the range
///   and fails with `Overflow` when it does not.
pub open spec fn checked_op(op: OpKind, a: int, b: int, lo: int, hi: int) -> Result<
    int,
    SafeMathError,
> {
    if is_division(op) && b == 0 {
        Err(SafeMathError::DivisionByZero)
    } else if op == OpKind::Rem && lo < 0 && a == lo && b == -1 {
        Err(SafeMathError::Overflow)
    } else if lo <= exact_op(op, a, b) <= hi {
        Ok(exact_op(op, a, b))
    } else {
        Err(SafeMathError::Overflow)
    }
}

/// Law: for all operands of a given width and each of the five
/// operations, the checked result is the mathematically exact result
/// wrapped in success when it fits the width, and fails with `Overflow`
/// otherwise — except that division and remainder by zero fail with
/// `DivisionByZero`, and the remainder of the minimum of a signed width
/// by `-1` fails with `Overflow` even though its exact value fits.
pub proof fn lemma_checked_op_exact(op: OpKind, a: int, b: int, lo: int, hi: int)
    requires
        lo <= a <= hi,
        lo <= b <= hi,
    ensures
        is_division(op) && b == 0 ==> checked_op(op, a, b, lo, hi) == Err::<
            int,
            SafeMathError,
        >(SafeMathError::DivisionByZero),
        op == OpKind::Rem && lo < 0 && a == lo && b == -1 ==> checked_op(op, a, b, lo, hi)
            == Err::<int, SafeMathError>(SafeMathError::Overflow),
        !(is_division(op) && b == 0) && !(op == OpKind::Rem && lo < 0 && a == lo && b == -1) ==> (
        checked_op(op, a, b, lo, hi) == if lo <= exact_op(op, a, b) <= hi {
            Ok::<int, SafeMathError>(exact_op(op, a, b))
        } else {
            Err::<int, SafeMathError>(SafeMathError::Overflow)
        }),
{
}

/// For non-negative operands, truncating division and remainder agree
/// with the Euclidean `/` and `%` of specifications.
pub(crate) proof fn lemma_trunc_ops_nonneg(a: int, b: int)
    requires
        0 <= a,
        0 < b,
    ensures
        trunc_div(a, b) == a / b,
        trunc_rem(a, b) == a % b,
{
    if a == 0 {
        assert(0int / b == 0 && 0int % b == 0) by (nonlinear_arith)
            requires
                0 < b,
        ;
    }
}

/// The product of two non-negative integers is non-negative.
pub(crate) proof fn lemma_mul_nonneg(a: int, b: int)
    requires
        0 <= a,
        0 <= b,
    ensures
        0 <= a * b,
{
    assert(0 <= a * b) by (nonlinear_arith)
        requires
            0 <= a && 0 <= b,
    ;
}

} // verus!
