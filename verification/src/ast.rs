//! The expression tree that the rewriter works on.
//!
//! A function body marked for rewriting is modelled as a list of
//! expression trees. Identifiers are interned as numbers, so the tree
//! carries exactly what the transformation reads: the shape of each
//! node and the operation kind of each arithmetic node. The
//! transformation is purely functional — an input tree is read-only and
//! a new tree is produced — and two node forms exist only in its
//! output: the checked call and the normalized compound assignment.

use vstd::prelude::*;

use crate::arith::OpKind;

verus! {

/// A synthetic identifier introduced by the compound-assignment
/// normalizer, scoped to one rewrite.
///
/// Uniqueness is derived from a monotonically increasing counter
/// combined with process identity, so names collide neither with one
/// another across nested or sequential rewrites in one process nor
/// across processes.
#[derive(Debug, Clone, Copy, PartialEq, Eq, Structural)]
pub struct TempName {
    /// Identity of the process that generated the name.
    pub pid: u64,
    /// Position in that process's sequence of generated names.
    pub seq: u64,
}

/// One node of an expression tree.
///
/// The first eight variants describe source expressions. The last two,
/// [`Expr::Checked`] and [`Expr::NormalizedAssign`], are produced by the
/// rewriter.
#[derive(Debug, PartialEq, Eq)]
pub enum Expr {
    /// An integer literal.
    Literal(i128),
    /// A named variable, its name interned as a number.
    Variable(u64),
    /// An arithmetic binary expression `left op right`.
    Binary(OpKind, Box<Expr>, Box<Expr>),
    /// An indexed location `base[index]`.
    Index(Box<Expr>, Box<Expr>),
    /// A function call, the callee's name interned as a number.
    Call(u64, ExprList),
    /// A plain assignment `target = value`.
    Assign(Box<Expr>, Box<Expr>),
    /// A compound assignment `target op= value`.
    CompoundAssign(OpKind, Box<Expr>, Box<Expr>),
    /// Any other expression form, opaque but for the subexpressions it
    /// contains, which the rewriter still recurses into.
    Other(u64, ExprList),
    /// A checked call `safe_<op>(left, right)?`: the canonical checked
    /// operation for the kind, immediately unwrapped with
    /// propagate-on-error semantics.
    Checked(OpKind, Box<Expr>, Box<Expr>),
    /// The normalized form of `target op= value`, both operands
    /// rewritten: a block that first binds the named temporary as an
    /// exclusive reference to the target location — evaluating the
    /// target exactly once — and then overwrites through it with the
    /// checked-operation result applied to the dereferenced temporary
    /// and the value, propagating on error.
    NormalizedAssign(TempName, OpKind, Box<Expr>, Box<Expr>),
}

/// A list of sibling expressions: call arguments, the children of an
/// opaque node, or the statements of a function body.
#[derive(Debug, PartialEq, Eq)]
pub enum ExprList {
    /// No further expressions.
    Nil,
    /// A first expression followed by the remaining ones.
    Cons(Box<Expr>, Box<ExprList>),
}

impl Expr {
    /// How many temporary names one rewrite of the tree consumes: one
    /// for each compound assignment that the rewriter normalizes,
    /// wherever it stands — inside a target or a value included.
    pub open spec fn temps_needed(self) -> nat
        decreases self,
    {
        match self {
            Expr::Literal(_) => 0,
            Expr::Variable(_) => 0,
            Expr::Binary(_, l, r) => l.temps_needed() + r.temps_needed(),
            Expr::Index(b, i) => b.temps_needed() + i.temps_needed(),
            Expr::Call(_, args) => args.temps_needed(),
            Expr::Assign(t, v) => t.temps_needed() + v.temps_needed(),
            Expr::CompoundAssign(_, t, v) => 1 + t.temps_needed() + v.temps_needed(),
            Expr::Other(_, children) => children.temps_needed(),
            Expr::Checked(_, l, r) => l.temps_needed() + r.temps_needed(),
            Expr::NormalizedAssign(_, _, t, v) => t.temps_needed() + v.temps_needed(),
        }
    }

    /// The synthetic temporary names standing in the tree, in the order
    /// the rewriter generates them: for a normalized compound
    /// assignment, the names inside the target, then the names inside
    /// the value, then the node's own name.
    pub open spec fn temp_names(self) -> Seq<TempName>
        decreases self,
    {
        match self {
            Expr::Literal(_) => Seq::empty(),
            Expr::Variable(_) => Seq::empty(),
            Expr::Binary(_, l, r) => l.temp_names() + r.temp_names(),
            Expr::Index(b, i) => b.temp_names() + i.temp_names(),
            Expr::Call(_, args) => args.temp_names(),
            Expr::Assign(t, v) => t.temp_names() + v.temp_names(),
            Expr::CompoundAssign(_, t, v) => t.temp_names() + v.temp_names(),
            Expr::Other(_, children) => children.temp_names(),
            Expr::Checked(_, l, r) => l.temp_names() + r.temp_names(),
            Expr::NormalizedAssign(name, _, t, v) => t.temp_names() + v.temp_names()
                + seq![name],
        }
    }

    /// The number of call nodes in the tree, wherever they stand.
    ///
    /// Each call may have side effects, so a rewrite must neither
    /// duplicate nor drop any of them.
    pub open spec fn count_calls(self) -> nat
        decreases self,
    {
        match self {
            Expr::Literal(_) => 0,
            Expr::Variable(_) => 0,
            Expr::Binary(_, l, r) => l.count_calls() + r.count_calls(),
            Expr::Index(b, i) => b.count_calls() + i.count_calls(),
            Expr::Call(_, args) => 1 + args.count_calls(),
            Expr::Assign(t, v) => t.count_calls() + v.count_calls(),
            Expr::CompoundAssign(_, t, v) => t.count_calls() + v.count_calls(),
            Expr::Other(_, children) => children.count_calls(),
            Expr::Checked(_, l, r) => l.count_calls() + r.count_calls(),
            Expr::NormalizedAssign(_, _, t, v) => t.count_calls() + v.count_calls(),
        }
    }

    /// Whether the tree is a source tree: one that contains none of the
    /// two node forms that only the rewriter produces.
    pub open spec fn is_source(self) -> bool
        decreases self,
    {
        match self {
            Expr::Literal(_) => true,
            Expr::Variable(_) => true,
            Expr::Binary(_, l, r) => l.is_source() && r.is_source(),
            Expr::Index(b, i) => b.is_source() && i.is_source(),
            Expr::Call(_, args) => args.is_source(),
            Expr::Assign(t, v) => t.is_source() && v.is_source(),
            Expr::CompoundAssign(_, t, v) => t.is_source() && v.is_source(),
            Expr::Other(_, children) => children.is_source(),
            Expr::Checked(_, _, _) => false,
            Expr::NormalizedAssign(_, _, _, _) => false,
        }
    }

    /// Whether the tree is in rewritten form: no raw arithmetic node —
    /// neither a binary operation nor a compound assignment — remains
    /// anywhere, a normalized compound assignment's target included.
    pub open spec fn is_rewritten(self) -> bool
        decreases self,
    {
        match self {
            Expr::Literal(_) => true,
            Expr::Variable(_) => true,
            Expr::Binary(_, _, _) => false,
            Expr::Index(b, i) => b.is_rewritten() && i.is_rewritten(),
            Expr::Call(_, args) => args.is_rewritten(),
            Expr::Assign(t, v) => t.is_rewritten() && v.is_rewritten(),
            Expr::CompoundAssign(_, _, _) => false,
            Expr::Other(_, children) => children.is_rewritten(),
            Expr::Checked(_, l, r) => l.is_rewritten() && r.is_rewritten(),
            Expr::NormalizedAssign(_, _, t, v) => t.is_rewritten() && v.is_rewritten(),
        }
    }
}

impl ExprList {
    /// How many temporary names one rewrite of the list consumes.
    pub open spec fn temps_needed(self) -> nat
        decreases self,
    {
        match self {
            ExprList::Nil => 0,
            ExprList::Cons(head, rest) => head.temps_needed() + rest.temps_needed(),
        }
    }

    /// The synthetic temporary names standing in the list's
    /// expressions, in the order the rewriter generates them.
    pub open spec fn temp_names(self) -> Seq<TempName>
        decreases self,
    {
        match self {
            ExprList::Nil => Seq::empty(),
            ExprList::Cons(head, rest) => head.temp_names() + rest.temp_names(),
        }
    }

    /// The number of call nodes in all expressions of the list.
    pub open spec fn count_calls(self) -> nat
        decreases self,
    {
        match self {
            ExprList::Nil => 0,
            ExprList::Cons(head, rest) => head.count_calls() + rest.count_calls(),
        }
    }

    /// Whether every expression of the list is a source tree.
    pub open spec fn is_source(self) -> bool
        decreases self,
    {
        match self {
            ExprList::Nil => true,
            ExprList::Cons(head, rest) => head.is_source() && rest.is_source(),
        }
    }

    /// Whether every expression of the list is in rewritten form.
    pub open spec fn is_rewritten(self) -> bool
        decreases self,
    {
        match self {
            ExprList::Nil => true,
            ExprList::Cons(head, rest) => head.is_rewritten() && rest.is_rewritten(),
        }
    }
}

} // verus!
