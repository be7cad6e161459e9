//! The evaluator: folds an expression tree to an integer by structural
//! recursion, children before parent.
//!
//! Arithmetic is 64-bit two's-complement wrapping arithmetic: the native
//! fixed-width semantics, with no separate overflow guard. Division by zero
//! and a negative exponent are the two arithmetic faults; both are reported,
//! never raised. A unary node applies its operator with an implicit left
//! operand of zero, so unary `Add` is the identity and unary `Subtract`
//! negates; the remaining operators never occur in unary form in a parsed
//! tree, and act as the identity if a hand-built tree holds one.
use vstd::prelude::*;

use crate::ast::Expr;
use crate::ast::OpKind;
use crate::error::EvalError;

verus! {

/// Wrapping 64-bit exponentiation: `exp` successive wrapping
/// multiplications by `base`, starting from one.
pub open spec fn pow_wrap(base: i64, exp: nat) -> i64
    decreases exp,
{
    if exp == 0 {
        1i64
    } else {
        pow_wrap(base, (exp - 1) as nat).wrapping_mul(base)
    }
}

/// Truncating 64-bit division, wrapping on the one overflowing pair
/// (`i64::MIN / -1`).
pub open spec fn div_wrap(a: i64, b: i64) -> i64
    recommends
        b != 0,
{
    match a.checked_div(b) {
        Some(q) => q,
        None => i64::MIN,
    }
}

/// The value of a tree, or its first arithmetic fault. For `+ - *` the left
/// child is evaluated first; `/` and `^` evaluate and test their right
/// operand before looking left.
pub open spec fn eval_spec(e: Expr) -> Result<i64, EvalError>
    decreases e,
{
    match e {
        Expr::Literal(n) => Ok(n),
        Expr::Unary(op, inner) => match eval_spec(*inner) {
            Err(err) => Err(err),
            Ok(v) => Ok(
                if op is Subtract {
                    (0i64).wrapping_sub(v)
                } else {
                    v
                },
            ),
        },
        Expr::Binary(op, l, r) => match op {
            OpKind::Add => match eval_spec(*l) {
                Err(err) => Err(err),
                Ok(a) => match eval_spec(*r) {
                    Err(err) => Err(err),
                    Ok(b) => Ok(a.wrapping_add(b)),
                },
            },
            OpKind::Subtract => match eval_spec(*l) {
                Err(err) => Err(err),
                Ok(a) => match eval_spec(*r) {
                    Err(err) => Err(err),
                    Ok(b) => Ok(a.wrapping_sub(b)),
                },
            },
            OpKind::Multiply => match eval_spec(*l) {
                Err(err) => Err(err),
                Ok(a) => match eval_spec(*r) {
                    Err(err) => Err(err),
                    Ok(b) => Ok(a.wrapping_mul(b)),
                },
            },
            OpKind::Divide => match eval_spec(*r) {
                Err(err) => Err(err),
                Ok(b) => if b == 0 {
                    Err(EvalError::DivisionByZero)
                } else {
                    match eval_spec(*l) {
                        Err(err) => Err(err),
                        Ok(a) => Ok(div_wrap(a, b)),
                    }
                },
            },
            OpKind::Exponent => match eval_spec(*r) {
                Err(err) => Err(err),
                Ok(b) => if b < 0 {
                    Err(EvalError::NegativeExponent)
                } else {
                    match eval_spec(*l) {
                        Err(err) => Err(err),
                        Ok(a) => Ok(pow_wrap(a, b as nat)),
                    }
                },
            },
        },
    }
}

/// Wrapping exponentiation by successive multiplication.
fn pow_i64(base: i64, exp: u64) -> (r: i64)
    ensures
        r == pow_wrap(base, exp as nat),
{
    let mut r: i64 = 1;
    let mut k: u64 = 0;
    while k < exp
        invariant
            k <= exp,
            r == pow_wrap(base, k as nat),
        decreases exp - k,
    {
        r = r.wrapping_mul(base);
        k = k + 1;
    }
    r
}

/// Truncating division; the one overflowing pair wraps to `i64::MIN`.
fn div_i64(a: i64, b: i64) -> (q: i64)
    requires
        b != 0,
    ensures
        q == div_wrap(a, b),
{
    match a.checked_div(b) {
        Some(q) => q,
        None => i64::MIN,
    }
}

/// Evaluates a tree to its integer value, or reports its first arithmetic
/// fault. The tree is borrowed unchanged, so evaluating it again gives the
/// same value.
pub fn traverse_expr_tree(expr: &Expr) -> (r: Result<i64, EvalError>)
    ensures
        r == eval_spec(*expr),
    decreases *expr,
{
    match expr {
        Expr::Literal(n) => Ok(*n),
        Expr::Unary(op, inner) => {
            match traverse_expr_tree(inner) {
                Err(err) => Err(err),
                Ok(v) => Ok(
                    match op {
                        OpKind::Subtract => (0i64).wrapping_sub(v),
                        _ => v,
                    },
                ),
            }
        },
        Expr::Binary(op, l, r) => {
            match op {
                OpKind::Add => {
                    match traverse_expr_tree(l) {
                        Err(err) => Err(err),
                        Ok(a) => match traverse_expr_tree(r) {
                            Err(err) => Err(err),
                            Ok(b) => Ok(a.wrapping_add(b)),
                        },
                    }
                },
                OpKind::Subtract => {
                    match traverse_expr_tree(l) {
                        Err(err) => Err(err),
                        Ok(a) => match traverse_expr_tree(r) {
                            Err(err) => Err(err),
                            Ok(b) => Ok(a.wrapping_sub(b)),
                        },
                    }
                },
                OpKind::Multiply => {
                    match traverse_expr_tree(l) {
                        Err(err) => Err(err),
                        Ok(a) => match traverse_expr_tree(r) {
                            Err(err) => Err(err),
                            Ok(b) => Ok(a.wrapping_mul(b)),
                        },
                    }
                },
                OpKind::Divide => {
                    match traverse_expr_tree(r) {
                        Err(err) => Err(err),
                        Ok(b) => {
                            if b == 0 {
                                Err(EvalError::DivisionByZero)
                            } else {
                                match traverse_expr_tree(l) {
                                    Err(err) => Err(err),
                                    Ok(a) => Ok(div_i64(a, b)),
                                }
                            }
                        },
                    }
                },
                OpKind::Exponent => {
                    match traverse_expr_tree(r) {
                        Err(err) => Err(err),
                        Ok(b) => {
                            if b < 0 {
                                Err(EvalError::NegativeExponent)
                            } else {
                                match traverse_expr_tree(l) {
                                    Err(err) => Err(err),
                                    Ok(a) => Ok(pow_i64(a, b as u64)),
                                }
                            }
                        },
                    }
                },
            }
        },
    }
}

} // verus!
