//! Evaluation semantics for expression trees, and the proof that the
//! rewrite preserves them.
//!
//! The evaluator gives every tree a meaning over unbounded integers and
//! an explicit state: scalar variables, array variables, and an oracle
//! — the stream of values that outside calls will return, consumed one
//! entry per call, which also counts how often each side effect
//! happens. Source arithmetic means exact integer arithmetic; a checked
//! call produced by the rewriter means [`checked_op`] for the width the
//! body computes in, and the first failure ends evaluation with that
//! error and no further effect, which is exactly propagate-on-error
//! control flow.
//!
//! The theorem at the end states the rewrite's guarantee: whenever the
//! rewritten tree evaluates to a value, the source tree evaluates to
//! the same value with the same final state — so every rewritten
//! arithmetic node returns what the plain operator would for all
//! non-failing inputs, and every side effect, in particular the
//! evaluation of a compound assignment's target, happens exactly as
//! often as in the source.

use vstd::prelude::*;

use crate::arith::{checked_op, exact_op, is_division, OpKind};
use crate::ast::{Expr, ExprList, TempName};
use crate::error::SafeMathError;
use crate::rewrite::{spec_rewrite, spec_rewrite_list};

verus! {

/// The range of the integer type a rewritten body computes in.
pub struct Width {
    /// The smallest representable value.
    pub lo: int,
    /// The largest representable value.
    pub hi: int,
}

/// The state an expression evaluates in.
pub struct EvalState {
    /// The scalar variables, by interned name.
    pub vars: Map<u64, int>,
    /// The array variables, by interned name.
    pub arrays: Map<u64, Seq<int>>,
    /// The values that outside calls return, in call order.
    pub oracle: Seq<int>,
    /// How many outside calls have been made so far.
    pub calls: nat,
}

/// A storage location: a scalar variable or one element of an array.
pub enum Place {
    /// The scalar variable of the given name.
    Var(u64),
    /// The element of the named array at the given position.
    ArrayElem(u64, int),
}

/// Why an evaluation stopped.
pub enum EvalError {
    /// An arithmetic operation failed with the given error.
    Math(SafeMathError),
    /// The expression uses a form the evaluator gives no meaning: a
    /// target that is no location, an absent array, or an index out of
    /// bounds.
    Stuck,
}

/// The value stored at a location.
pub open spec fn read_place(p: Place, st: EvalState) -> int {
    match p {
        Place::Var(x) => st.vars[x],
        Place::ArrayElem(a, i) => st.arrays[a][i],
    }
}

/// The state after storing a value at a location.
pub open spec fn write_place(p: Place, val: int, st: EvalState) -> EvalState {
    match p {
        Place::Var(x) => EvalState { vars: st.vars.insert(x, val), ..st },
        Place::ArrayElem(a, i) => EvalState {
            arrays: st.arrays.insert(a, st.arrays[a].update(i, val)),
            ..st
        },
    }
}

/// The value the next outside call returns.
pub open spec fn next_call_value(st: EvalState) -> int {
    if st.calls < st.oracle.len() {
        st.oracle[st.calls as int]
    } else {
        0
    }
}

/// The state after one outside call.
pub open spec fn after_call(st: EvalState) -> EvalState {
    EvalState { calls: st.calls + 1, ..st }
}

/// Evaluates an expression as a storage location.
///
/// A variable names itself; an indexed location names an element of an
/// array variable, its index evaluated as a value — with whatever side
/// effects that takes — and checked against the array's bounds. No
/// other form denotes a location.
pub open spec fn eval_place(e: Expr, st: EvalState, w: Width) -> (Result<Place, EvalError>, EvalState)
    decreases e, 0nat,
{
    match e {
        Expr::Variable(x) => (Ok(Place::Var(x)), st),
        Expr::Index(b, i) => match *b {
            Expr::Variable(a) => {
                let (ri, st1) = eval(*i, st, w);
                match ri {
                    Ok(idx) => if st1.arrays.dom().contains(a) && 0 <= idx < st1.arrays[a].len() {
                        (Ok(Place::ArrayElem(a, idx)), st1)
                    } else {
                        (Err(EvalError::Stuck), st1)
                    },
                    Err(err) => (Err(err), st1),
                }
            },
            _ => (Err(EvalError::Stuck), st),
        },
        _ => (Err(EvalError::Stuck), st),
    }
}

/// Evaluates an expression to a value, threading the state.
///
/// Source arithmetic is exact: a binary node or a compound assignment
/// computes the mathematical result, failing only on division or
/// remainder by zero. The rewriter's checked call instead follows
/// [`checked_op`] for the width `w`. Every failure propagates: the
/// enclosing evaluation returns it immediately, with no further side
/// effect — the first failure in a rewritten body terminates it with
/// no partial result.
pub open spec fn eval(e: Expr, st: EvalState, w: Width) -> (Result<int, EvalError>, EvalState)
    decreases e, 1nat,
{
    match e {
        Expr::Literal(n) => (Ok(n as int), st),
        Expr::Variable(x) => (Ok(st.vars[x]), st),
        Expr::Binary(op, l, r) => {
            let (rl, st1) = eval(*l, st, w);
            match rl {
                Ok(a) => {
                    let (rr, st2) = eval(*r, st1, w);
                    match rr {
                        Ok(b) => if is_division(op) && b == 0 {
                            (Err(EvalError::Math(SafeMathError::DivisionByZero)), st2)
                        } else {
                            (Ok(exact_op(op, a, b)), st2)
                        },
                        Err(err) => (Err(err), st2),
                    }
                },
                Err(err) => (Err(err), st1),
            }
        },
        Expr::Index(_, _) => {
            let (rp, st1) = eval_place(e, st, w);
            match rp {
                Ok(p) => (Ok(read_place(p, st1)), st1),
                Err(err) => (Err(err), st1),
            }
        },
        Expr::Call(_, args) => {
            let (ra, st1) = eval_list(args, st, w);
            match ra {
                Ok(_) => (Ok(next_call_value(st1)), after_call(st1)),
                Err(err) => (Err(err), st1),
            }
        },
        Expr::Assign(t, v) => {
            let (rp, st1) = eval_place(*t, st, w);
            match rp {
                Ok(p) => {
                    let (rv, st2) = eval(*v, st1, w);
                    match rv {
                        Ok(val) => (Ok(0), write_place(p, val, st2)),
                        Err(err) => (Err(err), st2),
                    }
                },
                Err(err) => (Err(err), st1),
            }
        },
        Expr::CompoundAssign(op, t, v) => {
            let (rp, st1) = eval_place(*t, st, w);
            match rp {
                Ok(p) => {
                    let (rv, st2) = eval(*v, st1, w);
                    match rv {
                        Ok(b) => if is_division(op) && b == 0 {
                            (Err(EvalError::Math(SafeMathError::DivisionByZero)), st2)
                        } else {
                            (Ok(0), write_place(p, exact_op(op, read_place(p, st2), b), st2))
                        },
                        Err(err) => (Err(err), st2),
                    }
                },
                Err(err) => (Err(err), st1),
            }
        },
        Expr::Other(_, children) => {
            let (rc, st1) = eval_list(children, st, w);
            match rc {
                Ok(_) => (Ok(0), st1),
                Err(err) => (Err(err), st1),
            }
        },
        Expr::Checked(op, l, r) => {
            let (rl, st1) = eval(*l, st, w);
            match rl {
                Ok(a) => {
                    let (rr, st2) = eval(*r, st1, w);
                    match rr {
                        Ok(b) => match checked_op(op, a, b, w.lo, w.hi) {
                            Ok(v) => (Ok(v), st2),
                            Err(err) => (Err(EvalError::Math(err)), st2),
                        },
                        Err(err) => (Err(err), st2),
                    }
                },
                Err(err) => (Err(err), st1),
            }
        },
        Expr::NormalizedAssign(_, op, t, v) => {
            let (rp, st1) = eval_place(*t, st, w);
            match rp {
                Ok(p) => {
                    let (rv, st2) = eval(*v, st1, w);
                    match rv {
                        Ok(b) => match checked_op(op, read_place(p, st2), b, w.lo, w.hi) {
                            Ok(c) => (Ok(0), write_place(p, c, st2)),
                            Err(err) => (Err(EvalError::Math(err)), st2),
                        },
                        Err(err) => (Err(err), st2),
                    }
                },
                Err(err) => (Err(err), st1),
            }
        },
    }
}

/// Evaluates a list of sibling expressions left to right, propagating
/// the first failure; the value of a non-empty list is the value of
/// its last expression.
pub open spec fn eval_list(list: ExprList, st: EvalState, w: Width) -> (Result<int, EvalError>, EvalState)
    decreases list, 1nat,
{
    match list {
        ExprList::Nil => (Ok(0), st),
        ExprList::Cons(head, rest) => {
            let (rh, st1) = eval(*head, st, w);
            match rh {
                Ok(v) => match *rest {
                    ExprList::Nil => (Ok(v), st1),
                    _ => eval_list(*rest, st1, w),
                },
                Err(err) => (Err(err), st1),
            }
        },
    }
}

/// Law: whenever the rewritten form of an expression evaluates to a
/// location, the source expression evaluates to the same location with
/// the same final state.
pub proof fn lemma_rewrite_preserves_place(e: Expr, pid: u64, ctr: int, st: EvalState, w: Width)
    ensures
        ({
            let (r2, st2) = eval_place(spec_rewrite(e, pid, ctr), st, w);
            r2 is Ok ==> eval_place(e, st, w) == (r2, st2)
        }),
    decreases e, 0nat,
{
    match e {
        Expr::Index(b, i) => {
            match *b {
                Expr::Variable(a) => {
                    assert(spec_rewrite(*b, pid, ctr) == Expr::Variable(a));
                    lemma_rewrite_preserves_semantics(*i, pid, ctr + b.temps_needed(), st, w);
                },
                Expr::Literal(_) => {},
                Expr::Binary(_, _, _) => {},
                Expr::Index(_, _) => {},
                Expr::Call(_, _) => {},
                Expr::Assign(_, _) => {},
                Expr::CompoundAssign(_, _, _) => {},
                Expr::Other(_, _) => {},
                Expr::Checked(_, _, _) => {},
                Expr::NormalizedAssign(_, _, _, _) => {},
            }
        },
        _ => {},
    }
}

/// Law: whenever the rewritten form of an expression evaluates to a
/// value, the source expression evaluates to the same value with the
/// same final state. So every rewritten arithmetic node returns what
/// the plain operator would for all non-failing inputs, and every side
/// effect of the source happens in the rewritten tree exactly as often
/// and in the same order.
pub proof fn lemma_rewrite_preserves_semantics(e: Expr, pid: u64, ctr: int, st: EvalState, w: Width)
    ensures
        ({
            let (r2, st2) = eval(spec_rewrite(e, pid, ctr), st, w);
            r2 is Ok ==> eval(e, st, w) == (r2, st2)
        }),
    decreases e, 1nat,
{
    match e {
        Expr::Literal(_) => {},
        Expr::Variable(_) => {},
        Expr::Binary(op, l, r) => {
            lemma_rewrite_preserves_semantics(*l, pid, ctr, st, w);
            let (rl2, st1) = eval(spec_rewrite(*l, pid, ctr), st, w);
            if rl2 is Ok {
                lemma_rewrite_preserves_semantics(*r, pid, ctr + l.temps_needed(), st1, w);
            }
        },
        Expr::Index(_, _) => {
            lemma_rewrite_preserves_place(e, pid, ctr, st, w);
        },
        Expr::Call(_, args) => {
            lemma_rewrite_list_preserves_semantics(args, pid, ctr, st, w);
        },
        Expr::Assign(t, v) => {
            lemma_rewrite_preserves_place(*t, pid, ctr, st, w);
            let (rp2, st1) = eval_place(spec_rewrite(*t, pid, ctr), st, w);
            if rp2 is Ok {
                lemma_rewrite_preserves_semantics(*v, pid, ctr + t.temps_needed(), st1, w);
            }
        },
        Expr::CompoundAssign(op, t, v) => {
            lemma_rewrite_preserves_place(*t, pid, ctr, st, w);
            let (rp, st1) = eval_place(spec_rewrite(*t, pid, ctr), st, w);
            if rp is Ok {
                lemma_rewrite_preserves_semantics(*v, pid, ctr + t.temps_needed(), st1, w);
            }
        },
        Expr::Other(_, children) => {
            lemma_rewrite_list_preserves_semantics(children, pid, ctr, st, w);
        },
        Expr::Checked(op, l, r) => {
            lemma_rewrite_preserves_semantics(*l, pid, ctr, st, w);
            let (rl2, st1) = eval(spec_rewrite(*l, pid, ctr), st, w);
            if rl2 is Ok {
                lemma_rewrite_preserves_semantics(*r, pid, ctr + l.temps_needed(), st1, w);
            }
        },
        Expr::NormalizedAssign(_, op, t, v) => {
            lemma_rewrite_preserves_place(*t, pid, ctr, st, w);
            let (rp, st1) = eval_place(spec_rewrite(*t, pid, ctr), st, w);
            if rp is Ok {
                lemma_rewrite_preserves_semantics(*v, pid, ctr + t.temps_needed(), st1, w);
            }
        },
    }
}

/// Law: whenever the rewritten form of a list of sibling expressions
/// evaluates to a value, the source list evaluates to the same value
/// with the same final state.
pub proof fn lemma_rewrite_list_preserves_semantics(
    list: ExprList,
    pid: u64,
    ctr: int,
    st: EvalState,
    w: Width,
)
    ensures
        ({
            let (r2, st2) = eval_list(spec_rewrite_list(list, pid, ctr), st, w);
            r2 is Ok ==> eval_list(list, st, w) == (r2, st2)
        }),
    decreases list, 1nat,
{
    match list {
        ExprList::Nil => {},
        ExprList::Cons(head, rest) => {
            lemma_rewrite_preserves_semantics(*head, pid, ctr, st, w);
            let (rh2, st1) = eval(spec_rewrite(*head, pid, ctr), st, w);
            if rh2 is Ok {
                match *rest {
                    ExprList::Nil => {
                        assert(spec_rewrite_list(*rest, pid, ctr + head.temps_needed())
                            == ExprList::Nil);
                    },
                    ExprList::Cons(_, _) => {
                        lemma_rewrite_list_preserves_semantics(
                            *rest,
                            pid,
                            ctr + head.temps_needed(),
                            st1,
                            w,
                        );
                    },
                }
            }
        },
    }
}

/// Law: the first failure in a body ends its execution immediately —
/// the failing statement's error is the whole body's result, the state
/// is the state at the failure, and no later statement runs or has any
/// effect.
pub proof fn lemma_first_failure_stops_body(head: Expr, rest: ExprList, st: EvalState, w: Width)
    ensures
        ({
            let (rh, st1) = eval(head, st, w);
            rh is Err ==> eval_list(ExprList::Cons(Box::new(head), Box::new(rest)), st, w) == (
                Result::<int, EvalError>::Err(rh->Err_0),
                st1,
            )
        }),
{
}

/// Law: the rewrite of a compound assignment evaluates the target
/// location exactly once per execution, regardless of success or
/// failure. The normalized node binds its rewritten target once;
/// executing it makes the side effects of one evaluation of that
/// target — the same effects as one evaluation of the source target,
/// whenever it yields a location — then those of the value, and
/// nothing further, whether the checked operation then succeeds or
/// fails.
pub proof fn lemma_compound_target_once(
    op: OpKind,
    t: Expr,
    v: Expr,
    pid: u64,
    ctr: int,
    st: EvalState,
    w: Width,
)
    ensures
        spec_rewrite(Expr::CompoundAssign(op, Box::new(t), Box::new(v)), pid, ctr)
            == Expr::NormalizedAssign(
            TempName { pid, seq: (ctr + t.temps_needed() + v.temps_needed()) as u64 },
            op,
            Box::new(spec_rewrite(t, pid, ctr)),
            Box::new(spec_rewrite(v, pid, ctr + t.temps_needed())),
        ),
        ({
            let out = spec_rewrite(Expr::CompoundAssign(op, Box::new(t), Box::new(v)), pid, ctr);
            let (rp, st1) = eval_place(spec_rewrite(t, pid, ctr), st, w);
            &&& (rp is Ok ==> eval_place(t, st, w) == (rp, st1))
            &&& (rp is Err ==> eval(out, st, w).1 == st1)
            &&& (rp is Ok ==> eval(out, st, w).1.calls == eval(
                spec_rewrite(v, pid, ctr + t.temps_needed()),
                st1,
                w,
            ).1.calls)
        }),
{
    lemma_rewrite_preserves_place(t, pid, ctr, st, w);
    let out = spec_rewrite(Expr::CompoundAssign(op, Box::new(t), Box::new(v)), pid, ctr);
    let (rp, st1) = eval_place(spec_rewrite(t, pid, ctr), st, w);
    if rp is Ok {
        let p = rp->Ok_0;
        let (rv, st2) = eval(spec_rewrite(v, pid, ctr + t.temps_needed()), st1, w);
        if rv is Ok {
            let b = rv->Ok_0;
            match checked_op(op, read_place(p, st2), b, w.lo, w.hi) {
                Ok(c) => {
                    assert(write_place(p, c, st2).calls == st2.calls);
                },
                Err(_) => {},
            }
        }
    }
}

} // verus!
