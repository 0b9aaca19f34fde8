//! The derivation generator: request validation and the behaviour of
//! generated methods.

use safe_math::arith::OpKind;
use safe_math::derive::{
    derived_op, plan_impl, run_derived_method, validate_request, DeriveError, DerivedImpl,
    MethodBody, OpSet, OpToken,
};
use safe_math::SafeMathError;

#[test]
fn empty_request_is_rejected() {
    let r = validate_request(&vec![]);
    assert_eq!(r, Err(DeriveError::EmptyRequest));
}

#[test]
fn duplicate_entry_is_rejected() {
    let r = validate_request(&vec![
        OpToken::Known(OpKind::Add),
        OpToken::Known(OpKind::Sub),
        OpToken::Known(OpKind::Add),
    ]);
    assert_eq!(r, Err(DeriveError::DuplicateOp { index: 2, op: OpKind::Add }));
}

#[test]
fn unknown_identifier_is_rejected() {
    let r = validate_request(&vec![OpToken::Known(OpKind::Add), OpToken::Unknown]);
    assert_eq!(r, Err(DeriveError::UnknownOp { index: 1 }));
}

#[test]
fn well_formed_request_collects_the_requested_set() {
    let r = validate_request(&vec![
        OpToken::Known(OpKind::Div),
        OpToken::Known(OpKind::Add),
        OpToken::Known(OpKind::Rem),
    ]);
    assert_eq!(r, Ok(OpSet { add: true, sub: false, mul: false, div: true, rem: true }));
}

#[test]
fn request_order_does_not_matter() {
    let one = validate_request(&vec![
        OpToken::Known(OpKind::Div),
        OpToken::Known(OpKind::Add),
        OpToken::Known(OpKind::Rem),
    ]);
    let other = validate_request(&vec![
        OpToken::Known(OpKind::Rem),
        OpToken::Known(OpKind::Div),
        OpToken::Known(OpKind::Add),
    ]);
    assert_eq!(one, other);
}

#[test]
fn plan_delegates_requested_and_stubs_the_rest() {
    let ops = OpSet { add: false, sub: true, mul: false, div: false, rem: false };
    let plan = plan_impl(&ops);
    assert_eq!(
        plan,
        DerivedImpl {
            add: MethodBody::Stub,
            sub: MethodBody::Delegate,
            mul: MethodBody::Stub,
            div: MethodBody::Stub,
            rem: MethodBody::Stub,
        }
    );
}

/// A user-defined numeric type with its own checked subtraction
/// primitive, as derivation assumes.
#[derive(Debug, Clone, Copy, PartialEq, Eq)]
struct Centi(u32);

impl Centi {
    fn checked_sub(self, rhs: Centi) -> Option<Centi> {
        self.0.checked_sub(rhs.0).map(Centi)
    }
}

#[test]
fn sub_only_derivation_stubs_other_operations() {
    let ops = validate_request(&vec![OpToken::Known(OpKind::Sub)]).unwrap();
    let plan = plan_impl(&ops);
    let a = Centi(500);
    let b = Centi(150);

    // The generated safe_sub matches the type's own checked-sub
    // primitive.
    assert_eq!(
        derived_op(&plan, OpKind::Sub, false, a.checked_sub(b)),
        Ok(Centi(350))
    );
    assert_eq!(
        derived_op(&plan, OpKind::Sub, false, b.checked_sub(a)),
        Err(SafeMathError::Overflow)
    );

    // Every other generated method fails with NotImplemented.
    assert_eq!(
        derived_op(&plan, OpKind::Add, false, Some(Centi(1))),
        Err(SafeMathError::NotImplemented)
    );
    assert_eq!(
        derived_op(&plan, OpKind::Mul, false, Some(Centi(1))),
        Err(SafeMathError::NotImplemented)
    );
    assert_eq!(
        derived_op(&plan, OpKind::Div, false, Some(Centi(1))),
        Err(SafeMathError::NotImplemented)
    );
    assert_eq!(
        derived_op(&plan, OpKind::Rem, true, None::<Centi>),
        Err(SafeMathError::NotImplemented)
    );
}

#[test]
fn delegating_division_classifies_its_failures() {
    let ops = OpSet { add: true, sub: true, mul: true, div: true, rem: true };
    let plan = plan_impl(&ops);

    // A zero divisor whose primitive returned no value.
    assert_eq!(
        derived_op(&plan, OpKind::Div, true, None::<Centi>),
        Err(SafeMathError::DivisionByZero)
    );
    assert_eq!(
        derived_op(&plan, OpKind::Rem, true, None::<Centi>),
        Err(SafeMathError::DivisionByZero)
    );
    // A non-zero divisor whose primitive returned no value overflowed.
    assert_eq!(
        derived_op(&plan, OpKind::Div, false, None::<Centi>),
        Err(SafeMathError::Overflow)
    );
    // A non-division operation without a value overflowed, whatever
    // the divisor flag says.
    assert_eq!(
        run_derived_method(MethodBody::Delegate, OpKind::Add, true, None::<Centi>),
        Err(SafeMathError::Overflow)
    );
    // Success hands the primitive's value through.
    assert_eq!(
        derived_op(&plan, OpKind::Mul, false, Some(Centi(21))),
        Ok(Centi(21))
    );
}
