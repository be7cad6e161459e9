//! The parser: precedence-aware recursive descent with one token of
//! lookahead.
//!
//! Grammar, left-associative at every precedence level (including `^`, so
//! `2^2^2` is `(2^2)^2` by design):
//!
//! ```text
//! expr         := operand (binop operand)*
//! operand      := unary_prefix* primary
//! primary      := NUMBER | '(' expr ')'
//! binop        := '+' | '-' | '*' | '/' | '^'
//! unary_prefix := '+' | '-'
//! ```
//!
//! A level is parsed as a first operand followed by a chain of
//! (operator, operand) pairs; `reconcile_trees` then folds the chain into
//! one tree whose shape encodes precedence and left associativity. An
//! operand — a number, a unary application or a parenthesized group — is
//! already reduced when the chain sees it and is never re-split, which is
//! what makes parentheses opaque to the surrounding operators.
//!
//! The specification functions `sp_operand`, `sp_chain` and `sp_level`
//! mirror this descent; they carry a fuel argument only so that their
//! recursion is visibly well founded, and `parse_fuel` is always enough
//! (every call consumes at least one token or descends into one).
use vstd::prelude::*;

use crate::ast::Expr;
use crate::ast::OpKind;
use crate::ast::Token;
use crate::ast::get_precedence;
use crate::ast::spec_precedence;
use crate::error::ParseError;

verus! {

// ---------------------------------------------------------------------------
// Reconciliation: folding an operand chain into one tree.
// ---------------------------------------------------------------------------
/// Pops every stacked (tree, operator) pair whose operator binds at least as
/// tightly as `p`, closing each into a binary node on the left of `cur`.
/// Popping on `>=` is what groups equal-precedence chains to the left.
pub open spec fn spec_pop_ge(stack: Seq<(Expr, OpKind)>, cur: Expr, p: u8) -> (Seq<(Expr, OpKind)>, Expr)
    decreases stack.len(),
{
    if stack.len() == 0 {
        (stack, cur)
    } else {
        let (left, op) = stack.last();
        if spec_precedence(op) >= p {
            spec_pop_ge(
                stack.drop_last(),
                Expr::Binary(op, Box::new(left), Box::new(cur)),
                p,
            )
        } else {
            (stack, cur)
        }
    }
}

/// Closes every remaining stacked pair into the final tree.
pub open spec fn spec_collapse(stack: Seq<(Expr, OpKind)>, cur: Expr) -> Expr
    decreases stack.len(),
{
    if stack.len() == 0 {
        cur
    } else {
        let (left, op) = stack.last();
        spec_collapse(stack.drop_last(), Expr::Binary(op, Box::new(left), Box::new(cur)))
    }
}

/// One step per chain element: resolve what binds at least as tightly as the
/// incoming operator, then stack the incoming pair.
pub open spec fn spec_shunt(stack: Seq<(Expr, OpKind)>, cur: Expr, chain: Seq<(OpKind, Expr)>) -> Expr
    decreases chain.len(),
{
    if chain.len() == 0 {
        spec_collapse(stack, cur)
    } else {
        let (op, operand) = chain[0];
        let popped = spec_pop_ge(stack, cur, spec_precedence(op));
        spec_shunt(popped.0.push((popped.1, op)), operand, chain.drop_first())
    }
}

/// The tree for the operand chain `first, chain[0], chain[1], ...`:
/// precedence-correct and left-associative within each precedence level.
pub open spec fn spec_reconcile(first: Expr, chain: Seq<(OpKind, Expr)>) -> Expr {
    spec_shunt(Seq::empty(), first, chain)
}

/// Pops while the stacked operator binds at least as tightly as `p`.
fn pop_ge(stack: Vec<(Expr, OpKind)>, cur: Expr, p: u8) -> (r: (Vec<(Expr, OpKind)>, Expr))
    ensures
        (r.0@, r.1) == spec_pop_ge(stack@, cur, p),
    decreases stack@.len(),
{
    let mut s = stack;
    if s.len() == 0 {
        return (s, cur);
    }
    let top_prec = get_precedence(&s[s.len() - 1].1);
    if top_prec >= p {
        let (left, op) = s.pop().unwrap();
        pop_ge(s, Expr::Binary(op, Box::new(left), Box::new(cur)), p)
    } else {
        (s, cur)
    }
}

/// Closes every remaining stacked pair into the final tree.
fn collapse(stack: Vec<(Expr, OpKind)>, cur: Expr) -> (r: Expr)
    ensures
        r == spec_collapse(stack@, cur),
    decreases stack@.len(),
{
    let mut s = stack;
    if s.len() == 0 {
        return cur;
    }
    let (left, op) = s.pop().unwrap();
    collapse(s, Expr::Binary(op, Box::new(left), Box::new(cur)))
}

// ---------------------------------------------------------------------------
// The descent, as specification functions over the token sequence.
//
// Each function takes the position `i` of the next token and `grp`, whether
// an enclosing `(` is open. On success it yields the parsed value and the
// position just past it. `None` means the fuel ran out, which `parse_fuel`
// rules out.
// ---------------------------------------------------------------------------
/// One operand: a number, a parenthesized group, or a `+`/`-` prefix applied
/// to an operand. `*`, `/` and `^` may never stand where an operand is
/// expected.
pub open spec fn sp_operand(t: Seq<Token>, i: nat, grp: bool, fuel: nat) -> Option<
    Result<(Expr, nat), ParseError>,
>
    decreases fuel,
{
    if fuel == 0 {
        None
    } else if i >= t.len() {
        // An operand is owed (after an operator or an open parenthesis).
        Some(
            Err(
                if grp {
                    ParseError::UnclosedParenthesis
                } else {
                    ParseError::MalformedExpression
                },
            ),
        )
    } else {
        match t[i as int] {
            Token::Number(n) => Some(Ok((Expr::Literal(n), i + 1))),
            Token::OpenParen => match sp_level(t, i + 1, true, (fuel - 1) as nat) {
                None => None,
                Some(Err(e)) => Some(Err(e)),
                Some(Ok((inner, j))) => if j < t.len() && t[j as int] is CloseParen {
                    Some(Ok((inner, j + 1)))
                } else {
                    Some(Err(ParseError::UnclosedParenthesis))
                },
            },
            Token::CloseParen => Some(
                Err(
                    if grp {
                        ParseError::MalformedExpression
                    } else {
                        ParseError::UnexpectedCloseParenthesis
                    },
                ),
            ),
            Token::Operator(op) => match op {
                OpKind::Add | OpKind::Subtract => match sp_operand(t, i + 1, grp, (fuel - 1) as nat) {
                    None => None,
                    Some(Err(e)) => Some(Err(e)),
                    Some(Ok((inner, j))) => Some(Ok((Expr::Unary(op, Box::new(inner)), j))),
                },
                _ => Some(Err(ParseError::InvalidUnaryOperator)),
            },
        }
    }
}

/// The `(binop operand)*` chain after a first operand. It ends at the end of
/// input (with `(` open: unclosed), or at a `)` (with none open: unexpected).
/// A number or `(` here means two values with no operator between them.
pub open spec fn sp_chain(t: Seq<Token>, i: nat, grp: bool, fuel: nat) -> Option<
    Result<(Seq<(OpKind, Expr)>, nat), ParseError>,
>
    decreases fuel,
{
    if fuel == 0 {
        None
    } else if i >= t.len() {
        if grp {
            Some(Err(ParseError::UnclosedParenthesis))
        } else {
            Some(Ok((Seq::empty(), i)))
        }
    } else {
        match t[i as int] {
            Token::CloseParen => if grp {
                Some(Ok((Seq::empty(), i)))
            } else {
                Some(Err(ParseError::UnexpectedCloseParenthesis))
            },
            Token::Operator(op) => match sp_operand(t, i + 1, grp, (fuel - 1) as nat) {
                None => None,
                Some(Err(e)) => Some(Err(e)),
                Some(Ok((operand, j))) => match sp_chain(t, j, grp, (fuel - 1) as nat) {
                    None => None,
                    Some(Err(e)) => Some(Err(e)),
                    Some(Ok((rest, k))) => Some(Ok((seq![(op, operand)] + rest, k))),
                },
            },
            _ => Some(Err(ParseError::MalformedExpression)),
        }
    }
}

/// One precedence level: a first operand, its chain, and the reconciled tree.
pub open spec fn sp_level(t: Seq<Token>, i: nat, grp: bool, fuel: nat) -> Option<
    Result<(Expr, nat), ParseError>,
>
    decreases fuel,
{
    if fuel == 0 {
        None
    } else {
        match sp_operand(t, i, grp, (fuel - 1) as nat) {
            None => None,
            Some(Err(e)) => Some(Err(e)),
            Some(Ok((first, j))) => match sp_chain(t, j, grp, (fuel - 1) as nat) {
                None => None,
                Some(Err(e)) => Some(Err(e)),
                Some(Ok((chain, k))) => Some(Ok((spec_reconcile(first, chain), k))),
            },
        }
    }
}

/// Fuel that always suffices for a whole-input parse: the descent consumes a
/// token or enters a group at every step.
pub open spec fn parse_fuel(t: Seq<Token>) -> nat {
    2 * t.len() + 3
}

/// What `math_parse` returns: the tree of the whole token sequence, or the
/// first syntax error. The empty sequence parses to `Literal(0)` by
/// convention. (`parse_fuel` suffices — `lemma_parse_fuel_suffices` — so the
/// fuel-exhaustion arm below is never taken.)
pub open spec fn parse_spec(t: Seq<Token>) -> Result<Expr, ParseError> {
    if t.len() == 0 {
        Ok(Expr::Literal(0i64))
    } else {
        match sp_level(t, 0, false, parse_fuel(t)) {
            Some(Ok((tree, j))) => Ok(tree),
            Some(Err(e)) => Err(e),
            None => Err(ParseError::MalformedExpression),
        }
    }
}

// ---------------------------------------------------------------------------
// Totality: with `parse_fuel`, the descent always answers. Every step either
// consumes a token or opens a group whose first token it then consumes, so
// the fuel bounds below hold at every call.
// ---------------------------------------------------------------------------
proof fn lemma_operand_fuel(t: Seq<Token>, i: nat, grp: bool, fuel: nat)
    requires
        i <= t.len(),
        fuel >= 2 * (t.len() - i) + 2,
    ensures
        sp_operand(t, i, grp, fuel) is Some,
        match sp_operand(t, i, grp, fuel) {
            Some(Ok((tree, j))) => i < j <= t.len(),
            _ => true,
        },
    decreases fuel,
{
    if i < t.len() {
        match t[i as int] {
            Token::OpenParen => {
                lemma_level_fuel(t, i + 1, true, (fuel - 1) as nat);
            },
            Token::Operator(op) => match op {
                OpKind::Add | OpKind::Subtract => {
                    lemma_operand_fuel(t, i + 1, grp, (fuel - 1) as nat);
                },
                _ => {},
            },
            _ => {},
        }
    }
}

proof fn lemma_chain_fuel(t: Seq<Token>, i: nat, grp: bool, fuel: nat)
    requires
        i <= t.len(),
        fuel >= 2 * (t.len() - i) + 1,
    ensures
        sp_chain(t, i, grp, fuel) is Some,
        match sp_chain(t, i, grp, fuel) {
            Some(Ok((chain, j))) => i <= j <= t.len(),
            _ => true,
        },
    decreases fuel,
{
    if i < t.len() {
        match t[i as int] {
            Token::Operator(op) => {
                lemma_operand_fuel(t, i + 1, grp, (fuel - 1) as nat);
                match sp_operand(t, i + 1, grp, (fuel - 1) as nat) {
                    Some(Ok((operand, j))) => {
                        lemma_chain_fuel(t, j, grp, (fuel - 1) as nat);
                    },
                    _ => {},
                }
            },
            _ => {},
        }
    }
}

proof fn lemma_level_fuel(t: Seq<Token>, i: nat, grp: bool, fuel: nat)
    requires
        i <= t.len(),
        fuel >= 2 * (t.len() - i) + 3,
    ensures
        sp_level(t, i, grp, fuel) is Some,
        match sp_level(t, i, grp, fuel) {
            Some(Ok((tree, j))) => i < j <= t.len(),
            _ => true,
        },
    decreases fuel,
{
    lemma_operand_fuel(t, i, grp, (fuel - 1) as nat);
    match sp_operand(t, i, grp, (fuel - 1) as nat) {
        Some(Ok((first, j))) => {
            lemma_chain_fuel(t, j, grp, (fuel - 1) as nat);
        },
        _ => {},
    }
}

/// The parser is total: on every token sequence the descent reaches an
/// answer within `parse_fuel`, so `parse_spec` is a tree or a named syntax
/// error, never the fuel-exhaustion arm.
pub proof fn lemma_parse_fuel_suffices(t: Seq<Token>)
    ensures
        t.len() > 0 ==> sp_level(t, 0, false, parse_fuel(t)) is Some,
{
    if t.len() > 0 {
        lemma_level_fuel(t, 0, false, parse_fuel(t));
    }
}

/// Folds a first operand and its (operator, operand) chain into the one tree
/// whose shape encodes precedence and left associativity. Each operand is
/// already reduced and is taken whole: the fold never looks inside one.
pub fn reconcile_trees(first: Expr, chain: Vec<(OpKind, Expr)>) -> (r: Expr)
    ensures
        r == spec_reconcile(first, chain@),
{
    let ghost full = spec_reconcile(first, chain@);
    let mut stack: Vec<(Expr, OpKind)> = Vec::new();
    let mut cur = first;
    let mut rest = chain;
    while rest.len() > 0
        invariant
            spec_shunt(stack@, cur, rest@) == full,
        decreases rest@.len(),
    {
        let ghost rest0 = rest@;
        let (op, operand) = rest.remove(0);
        proof {
            assert(rest@ =~= rest0.drop_first());
        }
        let p = get_precedence(&op);
        let (s2, c2) = pop_ge(stack, cur, p);
        stack = s2;
        stack.push((c2, op));
        cur = operand;
    }
    collapse(stack, cur)
}

// ---------------------------------------------------------------------------
// The executable descent, one function per specification function. The fuel
// is ghost: each function passes one unit less to its callees, exactly as
// the specification spends it, so its result is the specification's value
// at the given fuel.
// ---------------------------------------------------------------------------
/// Parses one operand starting at `i`.
fn parse_operand(t: &Vec<Token>, i: usize, grp: bool, Ghost(fuel): Ghost<nat>) -> (r: Result<
    (Expr, usize),
    ParseError,
>)
    requires
        i <= t@.len(),
        fuel >= 2 * (t@.len() - i) + 2,
    ensures
        match r {
            Ok((tree, j)) => i < j <= t@.len() && sp_operand(t@, i as nat, grp, fuel) == Some(
                Ok::<(Expr, nat), ParseError>((tree, j as nat)),
            ),
            Err(e) => sp_operand(t@, i as nat, grp, fuel) == Some(
                Err::<(Expr, nat), ParseError>(e),
            ),
        },
    decreases t@.len() - i, 0nat,
{
    if i >= t.len() {
        return Err(
            if grp {
                ParseError::UnclosedParenthesis
            } else {
                ParseError::MalformedExpression
            },
        );
    }
    match t[i] {
        Token::Number(n) => Ok((Expr::Literal(n), i + 1)),
        Token::OpenParen => {
            match parse_level(t, i + 1, true, Ghost((fuel - 1) as nat)) {
                Err(e) => Err(e),
                Ok((inner, j)) => {
                    if j < t.len() {
                        match t[j] {
                            Token::CloseParen => Ok((inner, j + 1)),
                            _ => Err(ParseError::UnclosedParenthesis),
                        }
                    } else {
                        Err(ParseError::UnclosedParenthesis)
                    }
                },
            }
        },
        Token::CloseParen => Err(
            if grp {
                ParseError::MalformedExpression
            } else {
                ParseError::UnexpectedCloseParenthesis
            },
        ),
        Token::Operator(op) => {
            match op {
                OpKind::Add | OpKind::Subtract => {
                    match parse_operand(t, i + 1, grp, Ghost((fuel - 1) as nat)) {
                        Err(e) => Err(e),
                        Ok((inner, j)) => Ok((Expr::Unary(op, Box::new(inner)), j)),
                    }
                },
                _ => Err(ParseError::InvalidUnaryOperator),
            }
        },
    }
}

/// Parses the `(binop operand)*` chain starting at `i`.
fn parse_chain(t: &Vec<Token>, i: usize, grp: bool, Ghost(fuel): Ghost<nat>) -> (r: Result<
    (Vec<(OpKind, Expr)>, usize),
    ParseError,
>)
    requires
        i <= t@.len(),
        fuel >= 2 * (t@.len() - i) + 1,
    ensures
        match r {
            Ok((chain, j)) => i <= j <= t@.len() && sp_chain(t@, i as nat, grp, fuel) == Some(
                Ok::<(Seq<(OpKind, Expr)>, nat), ParseError>((chain@, j as nat)),
            ),
            Err(e) => sp_chain(t@, i as nat, grp, fuel) == Some(
                Err::<(Seq<(OpKind, Expr)>, nat), ParseError>(e),
            ),
        },
    decreases t@.len() - i, 0nat,
{
    if i >= t.len() {
        if grp {
            return Err(ParseError::UnclosedParenthesis);
        } else {
            return Ok((Vec::new(), i));
        }
    }
    match t[i] {
        Token::CloseParen => {
            if grp {
                Ok((Vec::new(), i))
            } else {
                Err(ParseError::UnexpectedCloseParenthesis)
            }
        },
        Token::Operator(op) => {
            match parse_operand(t, i + 1, grp, Ghost((fuel - 1) as nat)) {
                Err(e) => Err(e),
                Ok((operand, j)) => {
                    match parse_chain(t, j, grp, Ghost((fuel - 1) as nat)) {
                        Err(e) => Err(e),
                        Ok((rest, k)) => {
                            let ghost rest0 = rest@;
                            let mut chain = rest;
                            chain.insert(0, (op, operand));
                            proof {
                                assert(chain@ =~= seq![(op, operand)] + rest0);
                            }
                            Ok((chain, k))
                        },
                    }
                },
            }
        },
        _ => Err(ParseError::MalformedExpression),
    }
}

/// Parses one precedence level starting at `i` and reconciles it.
fn parse_level(t: &Vec<Token>, i: usize, grp: bool, Ghost(fuel): Ghost<nat>) -> (r: Result<
    (Expr, usize),
    ParseError,
>)
    requires
        i <= t@.len(),
        fuel >= 2 * (t@.len() - i) + 3,
    ensures
        match r {
            Ok((tree, j)) => i < j <= t@.len() && sp_level(t@, i as nat, grp, fuel) == Some(
                Ok::<(Expr, nat), ParseError>((tree, j as nat)),
            ),
            Err(e) => sp_level(t@, i as nat, grp, fuel) == Some(Err::<(Expr, nat), ParseError>(e)),
        },
    decreases t@.len() - i, 1nat,
{
    match parse_operand(t, i, grp, Ghost((fuel - 1) as nat)) {
        Err(e) => Err(e),
        Ok((first, j)) => {
            match parse_chain(t, j, grp, Ghost((fuel - 1) as nat)) {
                Err(e) => Err(e),
                Ok((chain, k)) => Ok((reconcile_trees(first, chain), k)),
            }
        },
    }
}

/// Parses a whole token sequence into one expression tree, or reports the
/// first syntax error; all-or-nothing, no partial tree. The empty sequence
/// parses to `Literal(0)`: nothing typed is a benign zero, not an error.
pub fn math_parse(tokens: &Vec<Token>) -> (r: Result<Expr, ParseError>)
    ensures
        r == parse_spec(tokens@),
{
    if tokens.len() == 0 {
        return Ok(Expr::new());
    }
    match parse_level(tokens, 0, false, Ghost(parse_fuel(tokens@))) {
        Ok((tree, _end)) => Ok(tree),
        Err(e) => Err(e),
    }
}

} // verus!
