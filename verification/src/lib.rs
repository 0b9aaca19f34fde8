//! Checked-arithmetic building blocks with verified contracts.
//!
//! The crate has two halves. The runtime half is a family of capability
//! traits ([`SafeAdd`], [`SafeSub`], [`SafeMul`], [`SafeDiv`], [`SafeRem`]
//! and the bundled [`SafeMathOps`]) whose methods report overflow,
//! underflow and division by zero through [`SafeMathError`] instead of
//! panicking or wrapping, together with implementations for the built-in
//! integer types. The transformation half models function bodies as
//! expression trees and rewrites every arithmetic node into a
//! checked-call node with propagate-on-error semantics, evaluating the
//! target of a compound assignment exactly once; a derivation planner
//! validates an operation list for a user type and lays out the
//! generated capability implementation.

pub mod arith;
pub mod ast;
pub mod derive;
pub mod error;
pub mod impls;
pub mod ops;
pub mod rewrite;
pub mod semantics;

pub use error::SafeMathError;
pub use impls::{safe_add, safe_div, safe_mul, safe_rem, safe_sub};
pub use ops::{SafeAdd, SafeDiv, SafeMathOps, SafeMul, SafeRem, SafeSub};
