//! Data model of the expression language: operators, tokens, and the
//! expression tree that the parser builds and the evaluator folds.
use vstd::prelude::*;

verus! {

/// The five binary operators. `Add` and `Subtract` also serve as unary
/// prefix operators.
#[derive(Clone, Copy, PartialEq, Eq, Structural, Debug)]
pub enum OpKind {
    Add,
    Subtract,
    Multiply,
    Divide,
    Exponent,
}

/// Binding precedence of a binary operator: `+ -` bind loosest, `^` binds
/// tightest. An already-reduced operand (a number, a unary application or a
/// parenthesized group) is never re-split, so it needs no precedence here.
pub open spec fn spec_precedence(op: OpKind) -> u8 {
    match op {
        OpKind::Add => 1u8,
        OpKind::Subtract => 1u8,
        OpKind::Multiply => 2u8,
        OpKind::Divide => 2u8,
        OpKind::Exponent => 3u8,
    }
}

/// Binding precedence of `op`.
pub fn get_precedence(op: &OpKind) -> (p: u8)
    ensures
        p == spec_precedence(*op),
{
    match op {
        OpKind::Add => 1,
        OpKind::Subtract => 1,
        OpKind::Multiply => 2,
        OpKind::Divide => 2,
        OpKind::Exponent => 3,
    }
}

/// One lexical token, in left-to-right input order. No position is carried;
/// errors report a tag only.
#[derive(Clone, Copy, PartialEq, Eq, Structural, Debug)]
pub enum Token {
    Number(i64),
    Operator(OpKind),
    OpenParen,
    CloseParen,
}

/// An expression tree. `Unary` only ever carries `Add` or `Subtract` in a
/// tree built by the parser; the evaluator is nevertheless total over every
/// shape.
#[derive(Debug, PartialEq, Eq)]
pub enum Expr {
    Literal(i64),
    Unary(OpKind, Box<Expr>),
    Binary(OpKind, Box<Expr>, Box<Expr>),
}

impl Expr {
    /// The neutral expression: what an empty token sequence parses to, and
    /// what evaluates to zero.
    pub fn new() -> (e: Expr)
        ensures
            e == Expr::Literal(0i64),
    {
        Expr::Literal(0)
    }

    /// A leaf holding the number `n`.
    pub fn leaf(n: i64) -> (e: Expr)
        ensures
            e == Expr::Literal(n),
    {
        Expr::Literal(n)
    }

    /// A completed binary application of `op` to two subtrees.
    pub fn binary(op: OpKind, left: Expr, right: Expr) -> (e: Expr)
        ensures
            e == Expr::Binary(op, Box::new(left), Box::new(right)),
    {
        Expr::Binary(op, Box::new(left), Box::new(right))
    }

    /// A unary application of `op`, evaluated with an implicit left operand
    /// of zero.
    pub fn unary(op: OpKind, inner: Expr) -> (e: Expr)
        ensures
            e == Expr::Unary(op, Box::new(inner)),
    {
        Expr::Unary(op, Box::new(inner))
    }
}

} // verus!
