//! General laws of the parser, proved once for all values.
use vstd::prelude::*;

use crate::ast::Expr;
use crate::ast::OpKind;
use crate::ast::Token;
use crate::ast::spec_precedence;
use crate::error::ParseError;
use crate::parser::parse_spec;
use crate::parser::parse_fuel;
use crate::parser::sp_chain;
use crate::parser::sp_level;
use crate::parser::sp_operand;
use crate::parser::spec_collapse;
use crate::parser::spec_pop_ge;
use crate::parser::spec_reconcile;
use crate::parser::spec_shunt;

verus! {

/// Reconciling a one-pair chain builds one binary node.
proof fn lemma_reconcile_single(x: Expr, y: Expr, op: OpKind)
    ensures
        spec_reconcile(x, seq![(op, y)]) == Expr::Binary(op, Box::new(x), Box::new(y)),
{
    reveal_with_fuel(spec_shunt, 3);
    reveal_with_fuel(spec_pop_ge, 2);
    reveal_with_fuel(spec_collapse, 3);
    let chain = seq![(op, y)];
    assert(chain.drop_first() =~= Seq::<(OpKind, Expr)>::empty());
}

/// Reconciling a two-pair chain of one operator groups to the left.
proof fn lemma_reconcile_pair(x: Expr, y: Expr, z: Expr, op: OpKind)
    ensures
        spec_reconcile(x, seq![(op, y), (op, z)]) == Expr::Binary(
            op,
            Box::new(Expr::Binary(op, Box::new(x), Box::new(y))),
            Box::new(z),
        ),
{
    reveal_with_fuel(spec_shunt, 4);
    reveal_with_fuel(spec_pop_ge, 3);
    reveal_with_fuel(spec_collapse, 3);
    let chain = seq![(op, y), (op, z)];
    assert(chain.drop_first() =~= seq![(op, z)]);
    assert(chain.drop_first().drop_first() =~= Seq::<(OpKind, Expr)>::empty());
    assert(spec_pop_ge(Seq::empty(), x, spec_precedence(op)) == (
        Seq::<(Expr, OpKind)>::empty(),
        x,
    ));
}

/// The flat form `a op b op c` parses to the left-grouped tree.
proof fn lemma_parse_flat_chain(a: i64, b: i64, c: i64, op: OpKind)
    ensures
        parse_spec(
            seq![
                Token::Number(a),
                Token::Operator(op),
                Token::Number(b),
                Token::Operator(op),
                Token::Number(c),
            ],
        ) == Ok::<Expr, ParseError>(
            Expr::Binary(
                op,
                Box::new(
                    Expr::Binary(op, Box::new(Expr::Literal(a)), Box::new(Expr::Literal(b))),
                ),
                Box::new(Expr::Literal(c)),
            ),
        ),
{
    reveal_with_fuel(sp_operand, 2);
    reveal_with_fuel(sp_chain, 4);
    reveal_with_fuel(sp_level, 2);
    let flat = seq![
        Token::Number(a),
        Token::Operator(op),
        Token::Number(b),
        Token::Operator(op),
        Token::Number(c),
    ];
    let lit_a = Expr::Literal(a);
    let lit_b = Expr::Literal(b);
    let lit_c = Expr::Literal(c);
    let tail = seq![(op, lit_c)];
    let chain = seq![(op, lit_b)] + tail;
    assert(sp_chain(flat, 3, false, (parse_fuel(flat) - 2) as nat) == Some(
        Ok::<(Seq<(OpKind, Expr)>, nat), ParseError>((tail, 5nat)),
    ));
    assert(sp_chain(flat, 1, false, (parse_fuel(flat) - 1) as nat) == Some(
        Ok::<(Seq<(OpKind, Expr)>, nat), ParseError>((chain, 5nat)),
    ));
    assert(chain =~= seq![(op, lit_b), (op, lit_c)]);
    lemma_reconcile_pair(lit_a, lit_b, lit_c, op);
}

/// The grouped form `(a op b) op c` parses to the same tree.
proof fn lemma_parse_grouped_chain(a: i64, b: i64, c: i64, op: OpKind)
    ensures
        parse_spec(
            seq![
                Token::OpenParen,
                Token::Number(a),
                Token::Operator(op),
                Token::Number(b),
                Token::CloseParen,
                Token::Operator(op),
                Token::Number(c),
            ],
        ) == Ok::<Expr, ParseError>(
            Expr::Binary(
                op,
                Box::new(
                    Expr::Binary(op, Box::new(Expr::Literal(a)), Box::new(Expr::Literal(b))),
                ),
                Box::new(Expr::Literal(c)),
            ),
        ),
{
    reveal_with_fuel(sp_operand, 3);
    reveal_with_fuel(sp_chain, 4);
    reveal_with_fuel(sp_level, 3);
    let grouped = seq![
        Token::OpenParen,
        Token::Number(a),
        Token::Operator(op),
        Token::Number(b),
        Token::CloseParen,
        Token::Operator(op),
        Token::Number(c),
    ];
    let lit_a = Expr::Literal(a);
    let lit_b = Expr::Literal(b);
    let lit_c = Expr::Literal(c);
    let ab = Expr::Binary(op, Box::new(lit_a), Box::new(lit_b));
    let inner_chain = seq![(op, lit_b)];
    assert(sp_chain(grouped, 2, true, (parse_fuel(grouped) - 3) as nat) == Some(
        Ok::<(Seq<(OpKind, Expr)>, nat), ParseError>((inner_chain, 4nat)),
    ));
    lemma_reconcile_single(lit_a, lit_b, op);
    assert(sp_level(grouped, 1, true, (parse_fuel(grouped) - 2) as nat) == Some(
        Ok::<(Expr, nat), ParseError>((ab, 4nat)),
    ));
    assert(sp_operand(grouped, 0, false, (parse_fuel(grouped) - 1) as nat) == Some(
        Ok::<(Expr, nat), ParseError>((ab, 5nat)),
    ));
    let outer_chain = seq![(op, lit_c)];
    assert(sp_chain(grouped, 5, false, (parse_fuel(grouped) - 1) as nat) == Some(
        Ok::<(Seq<(OpKind, Expr)>, nat), ParseError>((outer_chain, 7nat)),
    ));
    lemma_reconcile_single(ab, lit_c, op);
}

/// Same-precedence chains group left to right: for every operator `op` and
/// all values, `a op b op c` parses to the very tree that `(a op b) op c`
/// parses to — the earliest application at the bottom left — so the two
/// evaluate identically. In particular `2^2^2` is `(2^2)^2`.
pub proof fn lemma_same_precedence_left_assoc(a: i64, b: i64, c: i64, op: OpKind)
    ensures
        parse_spec(
            seq![
                Token::Number(a),
                Token::Operator(op),
                Token::Number(b),
                Token::Operator(op),
                Token::Number(c),
            ],
        ) == Ok::<Expr, ParseError>(
            Expr::Binary(
                op,
                Box::new(
                    Expr::Binary(op, Box::new(Expr::Literal(a)), Box::new(Expr::Literal(b))),
                ),
                Box::new(Expr::Literal(c)),
            ),
        ),
        parse_spec(
            seq![
                Token::OpenParen,
                Token::Number(a),
                Token::Operator(op),
                Token::Number(b),
                Token::CloseParen,
                Token::Operator(op),
                Token::Number(c),
            ],
        ) == parse_spec(
            seq![
                Token::Number(a),
                Token::Operator(op),
                Token::Number(b),
                Token::Operator(op),
                Token::Number(c),
            ],
        ),
{
    lemma_parse_flat_chain(a, b, c, op);
    lemma_parse_grouped_chain(a, b, c, op);
}

} // verus!
