//! The failure taxonomy surfaced by checked arithmetic operations.

use vstd::prelude::*;

verus! {

/// Error returned by safe arithmetic operations.
///
/// This is the complete failure taxonomy: every checked operation in the
/// crate reports one of these variants through its `Result`.
#[derive(Debug, Clone, Copy, PartialEq, Eq, Structural)]
pub enum SafeMathError {
    /// Arithmetic overflow or underflow occurred.
    Overflow,
    /// Division or remainder operation by zero.
    DivisionByZero,
    /// Operation produced an infinite or NaN value (floating-point types).
    InfiniteOrNaN,
    /// Operation not implemented for the given type.
    ///
    /// Produced by a derived capability implementation when a method is
    /// invoked whose operation was not in the requested list.
    NotImplemented,
}

impl SafeMathError {
    /// A short human-readable description of the error.
    pub fn message(&self) -> (r: &'static str)
        ensures
            r@ == self.spec_message(),
    {
        match self {
            SafeMathError::Overflow => "arithmetic overflow",
            SafeMathError::DivisionByZero => "division by zero",
            SafeMathError::InfiniteOrNaN => "infinite or NaN value",
            SafeMathError::NotImplemented => "operation not implemented",
        }
    }

    /// The description text of each variant.
    pub open spec fn spec_message(self) -> Seq<char> {
        match self {
            SafeMathError::Overflow => "arithmetic overflow"@,
            SafeMathError::DivisionByZero => "division by zero"@,
            SafeMathError::InfiniteOrNaN => "infinite or NaN value"@,
            SafeMathError::NotImplemented => "operation not implemented"@,
        }
    }
}

impl From<SafeMathError> for () {
    /// Discards the error, so `?` can propagate a checked-operation
    /// failure into a function returning `Result<_, ()>`.
    fn from(_e: SafeMathError) -> (r: ()) {
    }
}

impl vstd::std_specs::convert::FromSpecImpl<SafeMathError> for () {
    open spec fn obeys_from_spec() -> bool {
        true
    }

    open spec fn from_spec(_e: SafeMathError) -> Self {
        ()
    }
}

} // verus!
