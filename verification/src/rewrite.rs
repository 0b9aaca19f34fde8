//! The expression tree walker and compound-assignment normalizer.
//!
//! [`rewrite_expr`] replaces every arithmetic binary expression in a
//! tree — innermost first, wherever it stands — with a checked call
//! unwrapped with propagate-on-error semantics, and normalizes every
//! compound assignment into a form whose target location is evaluated
//! exactly once. [`rewrite_function`] applies the walker to a whole
//! function body after checking the generation-time precondition that
//! the enclosing function returns an outcome type.
//!
//! The transformation is specified by the pure function
//! [`spec_rewrite`]; the executable walker is proved to compute exactly
//! that. The laws at the end of the module state what the rewrite
//! guarantees: the output is in rewritten form, no call node is
//! duplicated or dropped, and the generated temporary names are exactly
//! the fresh counter values consumed — so they are distinct, and two
//! rewrites run one after the other can never collide.

use vstd::prelude::*;

use crate::ast::{Expr, ExprList, TempName};

verus! {

/// The source of synthetic temporary names: a process-scoped,
/// monotonically increasing counter combined with process identity.
#[derive(Debug, Clone, Copy, PartialEq, Eq, Structural)]
pub struct TempNamer {
    /// Identity of this process, distinguishing its names from those
    /// of any other process.
    pub pid: u64,
    /// The next counter value to hand out.
    pub next: u64,
}

impl TempNamer {
    /// Creates a namer for the given process identity, starting at
    /// counter value zero.
    pub fn new(pid: u64) -> (namer: TempNamer)
        ensures
            namer == (TempNamer { pid, next: 0 }),
    {
        TempNamer { pid, next: 0 }
    }

    /// Hands out the next name: the current counter value combined
    /// with the process identity, after which the counter has moved on.
    pub fn fresh(&mut self) -> (name: TempName)
        requires
            old(self).next < u64::MAX,
        ensures
            name == (TempName { pid: old(self).pid, seq: old(self).next }),
            *final(self) == (TempNamer { pid: old(self).pid, next: (old(self).next + 1) as u64 }),
    {
        let name = TempName { pid: self.pid, seq: self.next };
        self.next = self.next + 1;
        name
    }
}

/// What one rewrite of an expression produces, given the process
/// identity and the counter value at which the rewrite starts.
///
/// Every arithmetic binary node becomes a checked call on its rewritten
/// operands; every compound assignment becomes its normalized form,
/// with the target and the value both rewritten and a temporary named
/// by the counter value reached after them; every other node is
/// reconstructed unchanged but recursed into. Sibling subtrees consume
/// counter values from left to right.
pub open spec fn spec_rewrite(e: Expr, pid: u64, ctr: int) -> Expr
    decreases e,
{
    match e {
        Expr::Literal(n) => Expr::Literal(n),
        Expr::Variable(x) => Expr::Variable(x),
        Expr::Binary(op, l, r) => Expr::Checked(
            op,
            Box::new(spec_rewrite(*l, pid, ctr)),
            Box::new(spec_rewrite(*r, pid, ctr + l.temps_needed())),
        ),
        Expr::Index(b, i) => Expr::Index(
            Box::new(spec_rewrite(*b, pid, ctr)),
            Box::new(spec_rewrite(*i, pid, ctr + b.temps_needed())),
        ),
        Expr::Call(f, args) => Expr::Call(f, spec_rewrite_list(args, pid, ctr)),
        Expr::Assign(t, v) => Expr::Assign(
            Box::new(spec_rewrite(*t, pid, ctr)),
            Box::new(spec_rewrite(*v, pid, ctr + t.temps_needed())),
        ),
        Expr::CompoundAssign(op, t, v) => Expr::NormalizedAssign(
            TempName { pid, seq: (ctr + t.temps_needed() + v.temps_needed()) as u64 },
            op,
            Box::new(spec_rewrite(*t, pid, ctr)),
            Box::new(spec_rewrite(*v, pid, ctr + t.temps_needed())),
        ),
        Expr::Other(tag, children) => Expr::Other(tag, spec_rewrite_list(children, pid, ctr)),
        Expr::Checked(op, l, r) => Expr::Checked(
            op,
            Box::new(spec_rewrite(*l, pid, ctr)),
            Box::new(spec_rewrite(*r, pid, ctr + l.temps_needed())),
        ),
        Expr::NormalizedAssign(name, op, t, v) => Expr::NormalizedAssign(
            name,
            op,
            Box::new(spec_rewrite(*t, pid, ctr)),
            Box::new(spec_rewrite(*v, pid, ctr + t.temps_needed())),
        ),
    }
}

/// What one rewrite of a list of sibling expressions produces, each
/// expression consuming counter values before the next begins.
pub open spec fn spec_rewrite_list(list: ExprList, pid: u64, ctr: int) -> ExprList
    decreases list,
{
    match list {
        ExprList::Nil => ExprList::Nil,
        ExprList::Cons(head, rest) => ExprList::Cons(
            Box::new(spec_rewrite(*head, pid, ctr)),
            Box::new(spec_rewrite_list(*rest, pid, ctr + head.temps_needed())),
        ),
    }
}

/// Rewrites one expression tree: every arithmetic binary node becomes
/// a checked call, every compound assignment its normalized form, and
/// every other node is reconstructed unchanged but recursed into.
pub fn rewrite_expr(e: Expr, namer: &mut TempNamer) -> (res: Expr)
    requires
        old(namer).next + e.temps_needed() <= u64::MAX,
    ensures
        res == spec_rewrite(e, old(namer).pid, old(namer).next as int),
        final(namer).pid == old(namer).pid,
        final(namer).next == old(namer).next + e.temps_needed(),
    decreases e,
{
    match e {
        Expr::Literal(n) => Expr::Literal(n),
        Expr::Variable(x) => Expr::Variable(x),
        Expr::Binary(op, l, r) => {
            let l2 = rewrite_expr(*l, namer);
            let r2 = rewrite_expr(*r, namer);
            Expr::Checked(op, Box::new(l2), Box::new(r2))
        },
        Expr::Index(b, i) => {
            let b2 = rewrite_expr(*b, namer);
            let i2 = rewrite_expr(*i, namer);
            Expr::Index(Box::new(b2), Box::new(i2))
        },
        Expr::Call(f, args) => {
            let args2 = rewrite_block(args, namer);
            Expr::Call(f, args2)
        },
        Expr::Assign(t, v) => {
            let t2 = rewrite_expr(*t, namer);
            let v2 = rewrite_expr(*v, namer);
            Expr::Assign(Box::new(t2), Box::new(v2))
        },
        Expr::CompoundAssign(op, t, v) => {
            let t2 = rewrite_expr(*t, namer);
            let v2 = rewrite_expr(*v, namer);
            let name = namer.fresh();
            Expr::NormalizedAssign(name, op, Box::new(t2), Box::new(v2))
        },
        Expr::Other(tag, children) => {
            let children2 = rewrite_block(children, namer);
            Expr::Other(tag, children2)
        },
        Expr::Checked(op, l, r) => {
            let l2 = rewrite_expr(*l, namer);
            let r2 = rewrite_expr(*r, namer);
            Expr::Checked(op, Box::new(l2), Box::new(r2))
        },
        Expr::NormalizedAssign(name, op, t, v) => {
            let t2 = rewrite_expr(*t, namer);
            let v2 = rewrite_expr(*v, namer);
            Expr::NormalizedAssign(name, op, Box::new(t2), Box::new(v2))
        },
    }
}

/// Rewrites a list of sibling expressions — the statements of a block
/// or the arguments of a call — left to right.
pub fn rewrite_block(list: ExprList, namer: &mut TempNamer) -> (res: ExprList)
    requires
        old(namer).next + list.temps_needed() <= u64::MAX,
    ensures
        res == spec_rewrite_list(list, old(namer).pid, old(namer).next as int),
        final(namer).pid == old(namer).pid,
        final(namer).next == old(namer).next + list.temps_needed(),
    decreases list,
{
    match list {
        ExprList::Nil => ExprList::Nil,
        ExprList::Cons(head, rest) => {
            let head2 = rewrite_expr(*head, namer);
            let rest2 = rewrite_block(*rest, namer);
            ExprList::Cons(Box::new(head2), Box::new(rest2))
        },
    }
}

/// The shape of the declared return type of a function marked for
/// rewriting, as far as the rewriter reads it.
#[derive(Debug, Clone, Copy, PartialEq, Eq, Structural)]
pub enum ReturnShape {
    /// The function declares no return type.
    Missing,
    /// The function declares a return type that is not the
    /// success/failure outcome type.
    NotOutcome,
    /// The function returns the success/failure outcome type, so
    /// propagate-on-error rewriting is possible.
    Outcome,
}

/// A generation-time diagnostic of the rewriter.
#[derive(Debug, Clone, Copy, PartialEq, Eq, Structural)]
pub enum RewriteError {
    /// The function marked for rewriting must return an outcome type,
    /// and its declared return type is missing or is something else.
    NotOutcomeReturn,
}

/// Rewrites a whole function body, first enforcing the generation-time
/// precondition that the enclosing function's return type is a
/// success/failure outcome type. A body whose function does not
/// qualify is rejected as a static diagnostic, and no name is
/// consumed; a body whose function qualifies is rewritten in full.
pub fn rewrite_function(ret: ReturnShape, body: ExprList, namer: &mut TempNamer) -> (r: Result<
    ExprList,
    RewriteError,
>)
    requires
        old(namer).next + body.temps_needed() <= u64::MAX,
    ensures
        ret == ReturnShape::Outcome ==> r == Ok::<ExprList, RewriteError>(
            spec_rewrite_list(body, old(namer).pid, old(namer).next as int),
        ) && final(namer).pid == old(namer).pid && final(namer).next == old(namer).next
            + body.temps_needed(),
        ret != ReturnShape::Outcome ==> r == Err::<ExprList, RewriteError>(
            RewriteError::NotOutcomeReturn,
        ) && *final(namer) == *old(namer),
{
    match ret {
        ReturnShape::Outcome => Ok(rewrite_block(body, namer)),
        ReturnShape::Missing => Err(RewriteError::NotOutcomeReturn),
        ReturnShape::NotOutcome => Err(RewriteError::NotOutcomeReturn),
    }
}

/// Law: the output of a rewrite is in rewritten form — no raw
/// arithmetic node remains anywhere, compound-assignment targets
/// included, so nested arithmetic is never missed.
pub proof fn lemma_rewrite_is_rewritten(e: Expr, pid: u64, ctr: int)
    ensures
        spec_rewrite(e, pid, ctr).is_rewritten(),
    decreases e,
{
    match e {
        Expr::Literal(_) => {},
        Expr::Variable(_) => {},
        Expr::Binary(op, l, r) => {
            lemma_rewrite_is_rewritten(*l, pid, ctr);
            lemma_rewrite_is_rewritten(*r, pid, ctr + l.temps_needed());
        },
        Expr::Index(b, i) => {
            lemma_rewrite_is_rewritten(*b, pid, ctr);
            lemma_rewrite_is_rewritten(*i, pid, ctr + b.temps_needed());
        },
        Expr::Call(_, args) => {
            lemma_rewrite_list_is_rewritten(args, pid, ctr);
        },
        Expr::Assign(t, v) => {
            lemma_rewrite_is_rewritten(*t, pid, ctr);
            lemma_rewrite_is_rewritten(*v, pid, ctr + t.temps_needed());
        },
        Expr::CompoundAssign(_, t, v) => {
            lemma_rewrite_is_rewritten(*t, pid, ctr);
            lemma_rewrite_is_rewritten(*v, pid, ctr + t.temps_needed());
        },
        Expr::Other(_, children) => {
            lemma_rewrite_list_is_rewritten(children, pid, ctr);
        },
        Expr::Checked(op, l, r) => {
            lemma_rewrite_is_rewritten(*l, pid, ctr);
            lemma_rewrite_is_rewritten(*r, pid, ctr + l.temps_needed());
        },
        Expr::NormalizedAssign(_, _, t, v) => {
            lemma_rewrite_is_rewritten(*t, pid, ctr);
            lemma_rewrite_is_rewritten(*v, pid, ctr + t.temps_needed());
        },
    }
}

/// Law: every expression of a rewritten list is in rewritten form.
pub proof fn lemma_rewrite_list_is_rewritten(list: ExprList, pid: u64, ctr: int)
    ensures
        spec_rewrite_list(list, pid, ctr).is_rewritten(),
    decreases list,
{
    match list {
        ExprList::Nil => {},
        ExprList::Cons(head, rest) => {
            lemma_rewrite_is_rewritten(*head, pid, ctr);
            lemma_rewrite_list_is_rewritten(*rest, pid, ctr + head.temps_needed());
        },
    }
}

/// Law: a rewrite neither duplicates nor drops a call node. A
/// side-effecting call — in particular one inside the target of a
/// compound assignment — therefore stands in the rewritten tree
/// exactly as often as in the source.
pub proof fn lemma_rewrite_preserves_calls(e: Expr, pid: u64, ctr: int)
    ensures
        spec_rewrite(e, pid, ctr).count_calls() == e.count_calls(),
    decreases e,
{
    match e {
        Expr::Literal(_) => {},
        Expr::Variable(_) => {},
        Expr::Binary(op, l, r) => {
            lemma_rewrite_preserves_calls(*l, pid, ctr);
            lemma_rewrite_preserves_calls(*r, pid, ctr + l.temps_needed());
        },
        Expr::Index(b, i) => {
            lemma_rewrite_preserves_calls(*b, pid, ctr);
            lemma_rewrite_preserves_calls(*i, pid, ctr + b.temps_needed());
        },
        Expr::Call(_, args) => {
            lemma_rewrite_list_preserves_calls(args, pid, ctr);
        },
        Expr::Assign(t, v) => {
            lemma_rewrite_preserves_calls(*t, pid, ctr);
            lemma_rewrite_preserves_calls(*v, pid, ctr + t.temps_needed());
        },
        Expr::CompoundAssign(_, t, v) => {
            lemma_rewrite_preserves_calls(*t, pid, ctr);
            lemma_rewrite_preserves_calls(*v, pid, ctr + t.temps_needed());
        },
        Expr::Other(_, children) => {
            lemma_rewrite_list_preserves_calls(children, pid, ctr);
        },
        Expr::Checked(op, l, r) => {
            lemma_rewrite_preserves_calls(*l, pid, ctr);
            lemma_rewrite_preserves_calls(*r, pid, ctr + l.temps_needed());
        },
        Expr::NormalizedAssign(_, _, t, v) => {
            lemma_rewrite_preserves_calls(*t, pid, ctr);
            lemma_rewrite_preserves_calls(*v, pid, ctr + t.temps_needed());
        },
    }
}

/// Law: a rewrite of a list neither duplicates nor drops a call node.
pub proof fn lemma_rewrite_list_preserves_calls(list: ExprList, pid: u64, ctr: int)
    ensures
        spec_rewrite_list(list, pid, ctr).count_calls() == list.count_calls(),
    decreases list,
{
    match list {
        ExprList::Nil => {},
        ExprList::Cons(head, rest) => {
            lemma_rewrite_preserves_calls(*head, pid, ctr);
            lemma_rewrite_list_preserves_calls(*rest, pid, ctr + head.temps_needed());
        },
    }
}

/// Law: rewriting a source tree from counter value `ctr` generates, in
/// order, exactly the temporary names `ctr`, `ctr + 1`, … — one for
/// each compound assignment normalized — all carrying the rewriting
/// process's identity. In particular the names are pairwise distinct.
pub proof fn lemma_rewrite_temp_names(e: Expr, pid: u64, ctr: int)
    requires
        e.is_source(),
        0 <= ctr,
        ctr + e.temps_needed() <= u64::MAX,
    ensures
        spec_rewrite(e, pid, ctr).temp_names().len() == e.temps_needed(),
        forall|i: int|
            0 <= i < e.temps_needed() ==> spec_rewrite(e, pid, ctr).temp_names()[i] == (TempName {
                pid,
                seq: (ctr + i) as u64,
            }),
    decreases e,
{
    match e {
        Expr::Literal(_) => {},
        Expr::Variable(_) => {},
        Expr::Binary(op, l, r) => {
            lemma_rewrite_temp_names(*l, pid, ctr);
            lemma_rewrite_temp_names(*r, pid, ctr + l.temps_needed());
        },
        Expr::Index(b, i) => {
            lemma_rewrite_temp_names(*b, pid, ctr);
            lemma_rewrite_temp_names(*i, pid, ctr + b.temps_needed());
        },
        Expr::Call(_, args) => {
            lemma_rewrite_list_temp_names(args, pid, ctr);
        },
        Expr::Assign(t, v) => {
            lemma_rewrite_temp_names(*t, pid, ctr);
            lemma_rewrite_temp_names(*v, pid, ctr + t.temps_needed());
        },
        Expr::CompoundAssign(_, t, v) => {
            lemma_rewrite_temp_names(*t, pid, ctr);
            lemma_rewrite_temp_names(*v, pid, ctr + t.temps_needed());
        },
        Expr::Other(_, children) => {
            lemma_rewrite_list_temp_names(children, pid, ctr);
        },
        Expr::Checked(_, _, _) => {},
        Expr::NormalizedAssign(_, _, _, _) => {},
    }
}

/// Law: rewriting a list of source trees from counter value `ctr`
/// generates, in order, exactly the temporary names `ctr`, `ctr + 1`, …
pub proof fn lemma_rewrite_list_temp_names(list: ExprList, pid: u64, ctr: int)
    requires
        list.is_source(),
        0 <= ctr,
        ctr + list.temps_needed() <= u64::MAX,
    ensures
        spec_rewrite_list(list, pid, ctr).temp_names().len() == list.temps_needed(),
        forall|i: int|
            0 <= i < list.temps_needed() ==> spec_rewrite_list(list, pid, ctr).temp_names()[i]
                == (TempName { pid, seq: (ctr + i) as u64 }),
    decreases list,
{
    match list {
        ExprList::Nil => {},
        ExprList::Cons(head, rest) => {
            lemma_rewrite_temp_names(*head, pid, ctr);
            lemma_rewrite_list_temp_names(*rest, pid, ctr + head.temps_needed());
        },
    }
}

/// Law: two rewrites run one after the other — the second starting at
/// the counter value the first reached — generate no temporary name in
/// common, whatever the two source trees are.
pub proof fn lemma_sequential_rewrites_collision_free(e1: Expr, e2: Expr, pid: u64, ctr: int)
    requires
        e1.is_source(),
        e2.is_source(),
        0 <= ctr,
        ctr + e1.temps_needed() + e2.temps_needed() <= u64::MAX,
    ensures
        forall|i: int, j: int|
            0 <= i < e1.temps_needed() && 0 <= j < e2.temps_needed() ==> #[trigger] spec_rewrite(
                e1,
                pid,
                ctr,
            ).temp_names()[i] != #[trigger] spec_rewrite(
                e2,
                pid,
                ctr + e1.temps_needed(),
            ).temp_names()[j],
{
    lemma_rewrite_temp_names(e1, pid, ctr);
    lemma_rewrite_temp_names(e2, pid, ctr + e1.temps_needed());
}

} // verus!
