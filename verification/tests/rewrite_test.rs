//! The expression tree walker: checked calls, normalized compound
//! assignments, fresh temporary names, and the outcome-return gate.

use safe_math::arith::OpKind;
use safe_math::ast::{Expr, ExprList, TempName};
use safe_math::rewrite::{
    rewrite_block, rewrite_expr, rewrite_function, ReturnShape, RewriteError, TempNamer,
};

fn lit(n: i128) -> Box<Expr> {
    Box::new(Expr::Literal(n))
}

fn lit_expr(n: i128) -> Expr {
    Expr::Literal(n)
}

#[test]
fn binary_becomes_checked_call() {
    let mut namer = TempNamer::new(7);
    let e = Expr::Binary(OpKind::Add, lit(1), lit(2));
    let out = rewrite_expr(e, &mut namer);
    assert_eq!(out, Expr::Checked(OpKind::Add, lit(1), lit(2)));
    assert_eq!(namer.next, 0);
}

#[test]
fn nested_arithmetic_is_rewritten_innermost_first() {
    let mut namer = TempNamer::new(7);
    // (1 + 2) * (3 / x)
    let e = Expr::Binary(
        OpKind::Mul,
        Box::new(Expr::Binary(OpKind::Add, lit(1), lit(2))),
        Box::new(Expr::Binary(OpKind::Div, lit(3), Box::new(Expr::Variable(9)))),
    );
    let out = rewrite_expr(e, &mut namer);
    assert_eq!(
        out,
        Expr::Checked(
            OpKind::Mul,
            Box::new(Expr::Checked(OpKind::Add, lit(1), lit(2))),
            Box::new(Expr::Checked(OpKind::Div, lit(3), Box::new(Expr::Variable(9)))),
        )
    );
}

#[test]
fn arithmetic_inside_call_arguments_is_rewritten() {
    let mut namer = TempNamer::new(7);
    // f(1 - 2)
    let e = Expr::Call(
        4,
        ExprList::Cons(
            Box::new(Expr::Binary(OpKind::Sub, lit(1), lit(2))),
            Box::new(ExprList::Nil),
        ),
    );
    let out = rewrite_expr(e, &mut namer);
    assert_eq!(
        out,
        Expr::Call(
            4,
            ExprList::Cons(
                Box::new(Expr::Checked(OpKind::Sub, lit(1), lit(2))),
                Box::new(ExprList::Nil),
            ),
        )
    );
}

#[test]
fn compound_assignment_is_normalized_with_fresh_temp() {
    let mut namer = TempNamer::new(42);
    // x += 5
    let e = Expr::CompoundAssign(OpKind::Add, Box::new(Expr::Variable(1)), lit(5));
    let out = rewrite_expr(e, &mut namer);
    assert_eq!(
        out,
        Expr::NormalizedAssign(
            TempName { pid: 42, seq: 0 },
            OpKind::Add,
            Box::new(Expr::Variable(1)),
            lit(5),
        )
    );
    assert_eq!(namer.next, 1);
}

#[test]
fn sequential_compound_assignments_get_distinct_temps() {
    let mut namer = TempNamer::new(42);
    let block = ExprList::Cons(
        Box::new(Expr::CompoundAssign(OpKind::Add, Box::new(Expr::Variable(1)), lit(5))),
        Box::new(ExprList::Cons(
            Box::new(Expr::CompoundAssign(OpKind::Rem, Box::new(Expr::Variable(2)), lit(7))),
            Box::new(ExprList::Nil),
        )),
    );
    let out = rewrite_block(block, &mut namer);
    assert_eq!(
        out,
        ExprList::Cons(
            Box::new(Expr::NormalizedAssign(
                TempName { pid: 42, seq: 0 },
                OpKind::Add,
                Box::new(Expr::Variable(1)),
                lit(5),
            )),
            Box::new(ExprList::Cons(
                Box::new(Expr::NormalizedAssign(
                    TempName { pid: 42, seq: 1 },
                    OpKind::Rem,
                    Box::new(Expr::Variable(2)),
                    lit(7),
                )),
                Box::new(ExprList::Nil),
            )),
        )
    );
    assert_eq!(namer.next, 2);
}

#[test]
fn side_effecting_target_stands_once_and_value_is_rewritten() {
    let mut namer = TempNamer::new(1);
    // arr[get_index()] += 2 + 3
    let target = Expr::Index(
        Box::new(Expr::Variable(8)),
        Box::new(Expr::Call(5, ExprList::Nil)),
    );
    let e = Expr::CompoundAssign(
        OpKind::Add,
        Box::new(target),
        Box::new(Expr::Binary(OpKind::Add, lit(2), lit(3))),
    );
    let out = rewrite_expr(e, &mut namer);
    // The target stands in the output exactly once — so its call runs
    // once — and the value has been rewritten.
    assert_eq!(
        out,
        Expr::NormalizedAssign(
            TempName { pid: 1, seq: 0 },
            OpKind::Add,
            Box::new(Expr::Index(
                Box::new(Expr::Variable(8)),
                Box::new(Expr::Call(5, ExprList::Nil)),
            )),
            Box::new(Expr::Checked(OpKind::Add, lit(2), lit(3))),
        )
    );
}

#[test]
fn arithmetic_inside_target_is_rewritten() {
    let mut namer = TempNamer::new(1);
    // arr[i + j] += 1
    let e = Expr::CompoundAssign(
        OpKind::Add,
        Box::new(Expr::Index(
            Box::new(Expr::Variable(8)),
            Box::new(Expr::Binary(OpKind::Add, Box::new(Expr::Variable(2)), Box::new(Expr::Variable(3)))),
        )),
        Box::new(lit_expr(1)),
    );
    let out = rewrite_expr(e, &mut namer);
    // The index arithmetic inside the target becomes a checked call
    // too: no arithmetic node survives unrewritten.
    assert_eq!(
        out,
        Expr::NormalizedAssign(
            TempName { pid: 1, seq: 0 },
            OpKind::Add,
            Box::new(Expr::Index(
                Box::new(Expr::Variable(8)),
                Box::new(Expr::Checked(
                    OpKind::Add,
                    Box::new(Expr::Variable(2)),
                    Box::new(Expr::Variable(3)),
                )),
            )),
            lit(1),
        )
    );
}

#[test]
fn function_without_outcome_return_is_rejected() {
    let mut namer = TempNamer::new(3);
    let body = ExprList::Cons(
        Box::new(Expr::Binary(OpKind::Add, lit(1), lit(2))),
        Box::new(ExprList::Nil),
    );
    let r = rewrite_function(ReturnShape::Missing, body, &mut namer);
    assert_eq!(r, Err(RewriteError::NotOutcomeReturn));

    let body = ExprList::Cons(
        Box::new(Expr::Binary(OpKind::Add, lit(1), lit(2))),
        Box::new(ExprList::Nil),
    );
    let r = rewrite_function(ReturnShape::NotOutcome, body, &mut namer);
    assert_eq!(r, Err(RewriteError::NotOutcomeReturn));
}

#[test]
fn function_with_outcome_return_is_rewritten() {
    let mut namer = TempNamer::new(3);
    let body = ExprList::Cons(
        Box::new(Expr::Binary(OpKind::Add, lit(1), lit(2))),
        Box::new(ExprList::Nil),
    );
    let r = rewrite_function(ReturnShape::Outcome, body, &mut namer);
    assert_eq!(
        r,
        Ok(ExprList::Cons(
            Box::new(Expr::Checked(OpKind::Add, lit(1), lit(2))),
            Box::new(ExprList::Nil),
        ))
    );
}

#[test]
fn namer_hands_out_increasing_names() {
    let mut namer = TempNamer::new(11);
    let a = namer.fresh();
    let b = namer.fresh();
    let c = namer.fresh();
    assert_eq!(a, TempName { pid: 11, seq: 0 });
    assert_eq!(b, TempName { pid: 11, seq: 1 });
    assert_eq!(c, TempName { pid: 11, seq: 2 });
    assert!(a != b && b != c && a != c);
}
