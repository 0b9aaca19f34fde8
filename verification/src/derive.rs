//! The derivation generator: validating a capability request and
//! laying out the generated implementation.
//!
//! A user type opts into the capability set by declaring the list of
//! operations it supports. Validation happens at generation time, as a
//! static diagnostic, and accepts exactly the well-formed requests:
//! non-empty, duplicate-free, and restricted to the known operation
//! identifiers. For an accepted request, the generator lays out one
//! method per operation: a requested method delegates to the type's own
//! checked primitive, an unrequested one is a stub that always fails
//! with `NotImplemented`. The run-time behaviour of a generated method
//! is itself a verified function here; the checked primitive belongs to
//! the user's type, so its result is taken as an argument.

use vstd::prelude::*;

use crate::arith::{is_division, OpKind};
use crate::error::SafeMathError;

verus! {

/// One entry of a derivation request, as read from the declared,
/// comma-separated operation list: either one of the five known
/// operation identifiers, or an identifier outside the known set.
#[derive(Debug, Clone, Copy, PartialEq, Eq, Structural)]
pub enum OpToken {
    /// One of the known identifiers `add`, `sub`, `mul`, `div`, `rem`.
    Known(OpKind),
    /// An identifier outside the known set.
    Unknown,
}

/// The set of operation kinds requested for a type.
#[derive(Debug, Clone, Copy, PartialEq, Eq, Structural)]
pub struct OpSet {
    /// Whether addition is requested.
    pub add: bool,
    /// Whether subtraction is requested.
    pub sub: bool,
    /// Whether multiplication is requested.
    pub mul: bool,
    /// Whether division is requested.
    pub div: bool,
    /// Whether remainder is requested.
    pub rem: bool,
}

impl OpSet {
    /// The set requesting no operation.
    pub open spec fn spec_empty() -> OpSet {
        OpSet { add: false, sub: false, mul: false, div: false, rem: false }
    }

    /// Whether the set holds the given operation kind.
    pub open spec fn spec_contains(self, op: OpKind) -> bool {
        match op {
            OpKind::Add => self.add,
            OpKind::Sub => self.sub,
            OpKind::Mul => self.mul,
            OpKind::Div => self.div,
            OpKind::Rem => self.rem,
        }
    }

    /// The set with the given operation kind added.
    pub open spec fn spec_insert(self, op: OpKind) -> OpSet {
        match op {
            OpKind::Add => OpSet { add: true, ..self },
            OpKind::Sub => OpSet { sub: true, ..self },
            OpKind::Mul => OpSet { mul: true, ..self },
            OpKind::Div => OpSet { div: true, ..self },
            OpKind::Rem => OpSet { rem: true, ..self },
        }
    }

    /// Whether the set holds the given operation kind.
    pub fn contains(&self, op: OpKind) -> (r: bool)
        ensures
            r == self.spec_contains(op),
    {
        match op {
            OpKind::Add => self.add,
            OpKind::Sub => self.sub,
            OpKind::Mul => self.mul,
            OpKind::Div => self.div,
            OpKind::Rem => self.rem,
        }
    }
}

/// A generation-time diagnostic of the derivation generator. Each
/// position names the offending entry of the declared operation list.
#[derive(Debug, Clone, Copy, PartialEq, Eq, Structural)]
pub enum DeriveError {
    /// The request lists no operation at all.
    EmptyRequest,
    /// The entry at the given position requests an operation already
    /// requested earlier in the list.
    DuplicateOp {
        /// Position of the repeated entry.
        index: usize,
        /// The operation requested twice.
        op: OpKind,
    },
    /// The entry at the given position is not a known operation
    /// identifier.
    UnknownOp {
        /// Position of the unknown entry.
        index: usize,
    },
}

/// What validation returns for the entries from position `i` on, with
/// the kinds collected so far in `acc`: the first unknown or duplicate
/// entry is reported, and otherwise the collected set grows by the
/// remaining entries.
pub open spec fn spec_validate_entries(reqs: Seq<OpToken>, i: int, acc: OpSet) -> Result<
    OpSet,
    DeriveError,
>
    recommends
        0 <= i <= reqs.len(),
    decreases reqs.len() - i,
{
    if i < 0 || i >= reqs.len() {
        Ok(acc)
    } else {
        match reqs[i] {
            OpToken::Unknown => Err(DeriveError::UnknownOp { index: i as usize }),
            OpToken::Known(k) => if acc.spec_contains(k) {
                Err(DeriveError::DuplicateOp { index: i as usize, op: k })
            } else {
                spec_validate_entries(reqs, i + 1, acc.spec_insert(k))
            },
        }
    }
}

/// What validation returns for a whole request: the requested set for
/// a well-formed request, and otherwise the first of these diagnostics
/// to apply — empty list, unknown identifier, duplicate entry.
pub open spec fn spec_validate(reqs: Seq<OpToken>) -> Result<OpSet, DeriveError> {
    if reqs.len() == 0 {
        Err(DeriveError::EmptyRequest)
    } else {
        spec_validate_entries(reqs, 0, OpSet::spec_empty())
    }
}

/// A request is well-formed when it is non-empty, every entry is a
/// known operation identifier, and no entry repeats another.
pub open spec fn wf_request(reqs: Seq<OpToken>) -> bool {
    &&& reqs.len() > 0
    &&& forall|i: int| 0 <= i < reqs.len() ==> (#[trigger] reqs[i]) is Known
    &&& forall|i: int, j: int|
        0 <= i < j < reqs.len() ==> #[trigger] reqs[i] != #[trigger] reqs[j]
}

/// Validates a derivation request at generation time.
///
/// Returns the requested operation set for a well-formed request;
/// rejects an empty list, an unknown identifier, or a duplicate entry
/// with a diagnostic naming the first offending position.
pub fn validate_request(reqs: &Vec<OpToken>) -> (r: Result<OpSet, DeriveError>)
    ensures
        r == spec_validate(reqs@),
{
    if reqs.len() == 0 {
        return Err(DeriveError::EmptyRequest);
    }
    let mut acc = OpSet { add: false, sub: false, mul: false, div: false, rem: false };
    let mut i: usize = 0;
    while i < reqs.len()
        invariant
            0 <= i <= reqs@.len(),
            spec_validate_entries(reqs@, i as int, acc) == spec_validate_entries(
                reqs@,
                0,
                OpSet::spec_empty(),
            ),
        decreases reqs@.len() - i,
    {
        match reqs[i] {
            OpToken::Unknown => {
                return Err(DeriveError::UnknownOp { index: i });
            },
            OpToken::Known(k) => {
                if acc.contains(k) {
                    return Err(DeriveError::DuplicateOp { index: i, op: k });
                }
                match k {
                    OpKind::Add => {
                        acc.add = true;
                    },
                    OpKind::Sub => {
                        acc.sub = true;
                    },
                    OpKind::Mul => {
                        acc.mul = true;
                    },
                    OpKind::Div => {
                        acc.div = true;
                    },
                    OpKind::Rem => {
                        acc.rem = true;
                    },
                }
            },
        }
        i = i + 1;
    }
    Ok(acc)
}

/// What validation of the entries from position `i` on accepts and
/// collects, given the kinds collected so far: it succeeds exactly when
/// every remaining entry is known, no two remaining entries repeat each
/// other, and none repeats an already-collected kind; the collected set
/// then grows by exactly the remaining kinds.
proof fn lemma_validate_entries_wf(reqs: Seq<OpToken>, i: int, acc: OpSet)
    requires
        0 <= i <= reqs.len(),
    ensures
        spec_validate_entries(reqs, i, acc) is Ok <==> ({
            &&& forall|j: int| i <= j < reqs.len() ==> (#[trigger] reqs[j]) is Known
            &&& forall|j: int, j2: int|
                i <= j < j2 < reqs.len() ==> (#[trigger] reqs[j]) != (#[trigger] reqs[j2])
            &&& forall|j: int|
                i <= j < reqs.len() ==> !acc.spec_contains((#[trigger] reqs[j])->Known_0)
        }),
        spec_validate_entries(reqs, i, acc) is Ok ==> (forall|k: OpKind|
            spec_validate_entries(reqs, i, acc)->Ok_0.spec_contains(k) <==> (acc.spec_contains(k)
                || exists|j: int| i <= j < reqs.len() && #[trigger] reqs[j] == OpToken::Known(k))),
    decreases reqs.len() - i,
{
    if i < reqs.len() {
        match reqs[i] {
            OpToken::Unknown => {},
            OpToken::Known(k0) => {
                if !acc.spec_contains(k0) {
                    let acc2 = acc.spec_insert(k0);
                    lemma_validate_entries_wf(reqs, i + 1, acc2);
                    if spec_validate_entries(reqs, i, acc) is Ok {
                        let result = spec_validate_entries(reqs, i, acc)->Ok_0;
                        assert forall|k: OpKind| result.spec_contains(k) implies (
                        acc.spec_contains(k) || exists|j: int|
                            i <= j < reqs.len() && #[trigger] reqs[j] == OpToken::Known(k)) by {
                            if !acc.spec_contains(k) {
                                if acc2.spec_contains(k) {
                                    assert(k == k0);
                                    assert(reqs[i] == OpToken::Known(k));
                                } else {
                                    let j = choose|j: int|
                                        i + 1 <= j < reqs.len() && #[trigger] reqs[j]
                                            == OpToken::Known(k);
                                    assert(i <= j < reqs.len() && reqs[j] == OpToken::Known(k));
                                }
                            }
                        }
                        assert forall|k: OpKind|
                            (acc.spec_contains(k) || exists|j: int|
                                i <= j < reqs.len() && #[trigger] reqs[j] == OpToken::Known(
                                    k,
                                )) implies result.spec_contains(k) by {
                            if acc.spec_contains(k) {
                                assert(acc2.spec_contains(k));
                            } else {
                                let j = choose|j: int|
                                    i <= j < reqs.len() && #[trigger] reqs[j] == OpToken::Known(k);
                                if j == i {
                                    assert(k == k0);
                                    assert(acc2.spec_contains(k));
                                } else {
                                    assert(i + 1 <= j < reqs.len() && reqs[j] == OpToken::Known(
                                        k,
                                    ));
                                }
                            }
                        }
                    }
                }
            },
        }
    }
}

/// Law: validation accepts exactly the well-formed requests — the
/// non-empty lists of known operation identifiers without a duplicate —
/// and then collects exactly the kinds that the list names.
pub proof fn lemma_validate_exact(reqs: Seq<OpToken>)
    ensures
        spec_validate(reqs) is Ok <==> wf_request(reqs),
        spec_validate(reqs) is Ok ==> (forall|k: OpKind|
            spec_validate(reqs)->Ok_0.spec_contains(k) <==> exists|j: int|
                0 <= j < reqs.len() && #[trigger] reqs[j] == OpToken::Known(k)),
{
    if reqs.len() > 0 {
        lemma_validate_entries_wf(reqs, 0, OpSet::spec_empty());
        if spec_validate(reqs) is Ok {
            assert forall|k: OpKind| spec_validate(reqs)->Ok_0.spec_contains(k) <==> exists|j: int|
                0 <= j < reqs.len() && #[trigger] reqs[j] == OpToken::Known(k) by {
                assert(!OpSet::spec_empty().spec_contains(k));
                assert(spec_validate_entries(reqs, 0, OpSet::spec_empty())->Ok_0.spec_contains(k)
                    <==> (OpSet::spec_empty().spec_contains(k) || exists|j: int|
                    0 <= j < reqs.len() && #[trigger] reqs[j] == OpToken::Known(k)));
            }
        }
    }
}

/// Law: a derivation request is order-independent — two well-formed
/// requests naming the same operations collect the same set.
pub proof fn lemma_validate_order_independent(r1: Seq<OpToken>, r2: Seq<OpToken>)
    requires
        wf_request(r1),
        wf_request(r2),
        forall|t: OpToken| r1.contains(t) <==> r2.contains(t),
    ensures
        spec_validate(r1) == spec_validate(r2),
{
    lemma_validate_exact(r1);
    lemma_validate_exact(r2);
    let s1 = spec_validate(r1)->Ok_0;
    let s2 = spec_validate(r2)->Ok_0;
    assert forall|k: OpKind| s1.spec_contains(k) == s2.spec_contains(k) by {
        if s1.spec_contains(k) {
            let j = choose|j: int| 0 <= j < r1.len() && #[trigger] r1[j] == OpToken::Known(k);
            assert(r1.contains(OpToken::Known(k)));
            let j2 = choose|j2: int| 0 <= j2 < r2.len() && #[trigger] r2[j2] == OpToken::Known(k);
            assert(s2.spec_contains(k));
        }
        if s2.spec_contains(k) {
            let j = choose|j: int| 0 <= j < r2.len() && #[trigger] r2[j] == OpToken::Known(k);
            assert(r2.contains(OpToken::Known(k)));
            let j2 = choose|j2: int| 0 <= j2 < r1.len() && #[trigger] r1[j2] == OpToken::Known(k);
            assert(s1.spec_contains(k));
        }
    }
    assert(s1.add == s1.spec_contains(OpKind::Add) && s2.add == s2.spec_contains(OpKind::Add));
    assert(s1.sub == s1.spec_contains(OpKind::Sub) && s2.sub == s2.spec_contains(OpKind::Sub));
    assert(s1.mul == s1.spec_contains(OpKind::Mul) && s2.mul == s2.spec_contains(OpKind::Mul));
    assert(s1.div == s1.spec_contains(OpKind::Div) && s2.div == s2.spec_contains(OpKind::Div));
    assert(s1.rem == s1.spec_contains(OpKind::Rem) && s2.rem == s2.spec_contains(OpKind::Rem));
    assert(s1 == OpSet { add: s1.add, sub: s1.sub, mul: s1.mul, div: s1.div, rem: s1.rem });
    assert(s2 == OpSet { add: s2.add, sub: s2.sub, mul: s2.mul, div: s2.div, rem: s2.rem });
}

/// How one method of a generated capability implementation behaves.
#[derive(Debug, Clone, Copy, PartialEq, Eq, Structural)]
pub enum MethodBody {
    /// Delegate to the type's own checked primitive for the operation.
    Delegate,
    /// Unconditionally fail with `NotImplemented`.
    Stub,
}

/// The layout of a generated capability-set implementation: one method
/// per operation kind.
#[derive(Debug, Clone, Copy, PartialEq, Eq, Structural)]
pub struct DerivedImpl {
    /// The body of the generated `safe_add`.
    pub add: MethodBody,
    /// The body of the generated `safe_sub`.
    pub sub: MethodBody,
    /// The body of the generated `safe_mul`.
    pub mul: MethodBody,
    /// The body of the generated `safe_div`.
    pub div: MethodBody,
    /// The body of the generated `safe_rem`.
    pub rem: MethodBody,
}

impl DerivedImpl {
    /// The body of the generated method for the given operation kind.
    pub open spec fn spec_method(self, op: OpKind) -> MethodBody {
        match op {
            OpKind::Add => self.add,
            OpKind::Sub => self.sub,
            OpKind::Mul => self.mul,
            OpKind::Div => self.div,
            OpKind::Rem => self.rem,
        }
    }

    /// The body of the generated method for the given operation kind.
    pub fn method(&self, op: OpKind) -> (r: MethodBody)
        ensures
            r == self.spec_method(op),
    {
        match op {
            OpKind::Add => self.add,
            OpKind::Sub => self.sub,
            OpKind::Mul => self.mul,
            OpKind::Div => self.div,
            OpKind::Rem => self.rem,
        }
    }
}

/// The implementation laid out for a validated request: each requested
/// operation's method delegates to the type's own checked primitive,
/// each unrequested operation's method is a `NotImplemented` stub.
pub open spec fn spec_plan(ops: OpSet) -> DerivedImpl {
    DerivedImpl {
        add: if ops.add {
            MethodBody::Delegate
        } else {
            MethodBody::Stub
        },
        sub: if ops.sub {
            MethodBody::Delegate
        } else {
            MethodBody::Stub
        },
        mul: if ops.mul {
            MethodBody::Delegate
        } else {
            MethodBody::Stub
        },
        div: if ops.div {
            MethodBody::Delegate
        } else {
            MethodBody::Stub
        },
        rem: if ops.rem {
            MethodBody::Delegate
        } else {
            MethodBody::Stub
        },
    }
}

/// Lays out the capability-set implementation generated for a
/// validated request: a delegating method for each requested operation,
/// a `NotImplemented` stub for each unrequested one.
pub fn plan_impl(ops: &OpSet) -> (plan: DerivedImpl)
    ensures
        plan == spec_plan(*ops),
        forall|k: OpKind|
            #[trigger] plan.spec_method(k) == if ops.spec_contains(k) {
                MethodBody::Delegate
            } else {
                MethodBody::Stub
            },
{
    DerivedImpl {
        add: if ops.add {
            MethodBody::Delegate
        } else {
            MethodBody::Stub
        },
        sub: if ops.sub {
            MethodBody::Delegate
        } else {
            MethodBody::Stub
        },
        mul: if ops.mul {
            MethodBody::Delegate
        } else {
            MethodBody::Stub
        },
        div: if ops.div {
            MethodBody::Delegate
        } else {
            MethodBody::Stub
        },
        rem: if ops.rem {
            MethodBody::Delegate
        } else {
            MethodBody::Stub
        },
    }
}

/// The error a delegating generated method reports when the type's own
/// checked primitive returns no value: `DivisionByZero` for a division
/// or remainder whose divisor was the type's zero, and `Overflow` in
/// every other case.
pub open spec fn spec_delegate_failure(op: OpKind, rhs_is_zero: bool) -> SafeMathError {
    if is_division(op) && rhs_is_zero {
        SafeMathError::DivisionByZero
    } else {
        SafeMathError::Overflow
    }
}

/// What one generated method returns at run time, given the result of
/// the type's own checked primitive for the operation and whether the
/// right operand was the type's zero.
pub open spec fn spec_derived_method<T>(
    body: MethodBody,
    op: OpKind,
    rhs_is_zero: bool,
    primitive: Option<T>,
) -> Result<T, SafeMathError> {
    match body {
        MethodBody::Stub => Err(SafeMathError::NotImplemented),
        MethodBody::Delegate => match primitive {
            Some(v) => Ok(v),
            None => Err(spec_delegate_failure(op, rhs_is_zero)),
        },
    }
}

/// Runs one generated method. The type's own checked primitive lives
/// outside this crate, so the caller evaluates it and passes its
/// result in; a stub ignores it and fails with `NotImplemented`, a
/// delegating method hands a value through and maps "no value" to the
/// prescribed error.
pub fn run_derived_method<T>(
    body: MethodBody,
    op: OpKind,
    rhs_is_zero: bool,
    primitive: Option<T>,
) -> (r: Result<T, SafeMathError>)
    ensures
        r == spec_derived_method(body, op, rhs_is_zero, primitive),
{
    match body {
        MethodBody::Stub => Err(SafeMathError::NotImplemented),
        MethodBody::Delegate => match primitive {
            Some(v) => Ok(v),
            None => Err(
                if (matches!(op, OpKind::Div) || matches!(op, OpKind::Rem)) && rhs_is_zero {
                    SafeMathError::DivisionByZero
                } else {
                    SafeMathError::Overflow
                },
            ),
        },
    }
}

/// Runs the generated method that a laid-out implementation has for an
/// operation kind.
pub fn derived_op<T>(
    plan: &DerivedImpl,
    op: OpKind,
    rhs_is_zero: bool,
    primitive: Option<T>,
) -> (r: Result<T, SafeMathError>)
    ensures
        r == spec_derived_method(plan.spec_method(op), op, rhs_is_zero, primitive),
{
    let body = plan.method(op);
    run_derived_method(body, op, rhs_is_zero, primitive)
}

/// Law: for a type deriving only the subtraction capability, every
/// generated method but `safe_sub` fails with `NotImplemented`
/// whatever the operands did, and `safe_sub` returns exactly what the
/// type's own checked subtraction primitive returned, with "no value"
/// reported as `Overflow`.
pub proof fn lemma_sub_only_derivation<T>(op: OpKind, rhs_is_zero: bool, primitive: Option<T>)
    ensures
        ({
            let ops = OpSet { add: false, sub: true, mul: false, div: false, rem: false };
            let plan = spec_plan(ops);
            &&& op != OpKind::Sub ==> spec_derived_method(
                plan.spec_method(op),
                op,
                rhs_is_zero,
                primitive,
            ) == Err::<T, SafeMathError>(SafeMathError::NotImplemented)
            &&& op == OpKind::Sub ==> spec_derived_method(
                plan.spec_method(op),
                op,
                rhs_is_zero,
                primitive,
            ) == (match primitive {
                Some(v) => Ok::<T, SafeMathError>(v),
                None => Err::<T, SafeMathError>(SafeMathError::Overflow),
            })
        }),
{
}

} // verus!
