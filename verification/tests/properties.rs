//! Tests of the stated properties: determinism, precedence, parenthesis
//! opacity, unary chains, rejections with their exact error tags, arithmetic
//! faults, idempotent re-evaluation, and the wrapping edge cases.
use calc::ast::get_precedence;
use calc::ast::Expr;
use calc::ast::OpKind;
use calc::error::Error;
use calc::error::EvalError;
use calc::error::LexError;
use calc::error::ParseError;
use calc::eval::traverse_expr_tree;
use calc::lexer::lex_is_defined;
use calc::lexer::math_lexer;
use calc::parser::math_parse;
use calc::run;
use calc::run_checked;

#[test]
fn determinism_same_input_same_output() {
    let text = "3 - 4 * 5 + 3 ^ 2".to_string();
    let first = run(&text);
    let second = run(&text);
    assert_eq!(first, second);
    assert_eq!(first, Ok(-8));
}

#[test]
fn left_associative_chains_for_every_operator() {
    // a OP b OP c computes as (a OP b) OP c for each operator.
    assert_eq!(run(&"9 - 5 - 2".to_string()), Ok((9 - 5) - 2));
    assert_eq!(run(&"9 + 5 + 2".to_string()), Ok((9 + 5) + 2));
    assert_eq!(run(&"9 * 5 * 2".to_string()), Ok((9 * 5) * 2));
    assert_eq!(run(&"9 / 5 / 2".to_string()), Ok((9 / 5) / 2));
    assert_eq!(run(&"2 ^ 2 ^ 2".to_string()), Ok(16));
    assert_eq!(run(&"2 ^ 3 ^ 2".to_string()), Ok(64));
}

#[test]
fn precedence_law() {
    assert_eq!(run(&"3 - 4 * 5 + 3 ^ 2".to_string()), Ok(-8));
}

#[test]
fn parenthesis_opacity() {
    assert_eq!(run(&"(4 - 3) * (3 - 5)".to_string()), Ok(-2));
    assert_eq!(run(&"(((1 + 1)))".to_string()), Ok(2));
}

#[test]
fn unary_chains() {
    assert_eq!(run(&"1 * --1".to_string()), Ok(1));
    assert_eq!(run(&"1 * -----1".to_string()), Ok(-1));
    assert_eq!(run(&"1 * +1".to_string()), Ok(1));
}

#[test]
fn rejected_unary_operators() {
    let tokens = math_lexer(&"1-*1".to_string()).unwrap();
    assert_eq!(math_parse(&tokens), Err(ParseError::InvalidUnaryOperator));
    let tokens = math_lexer(&"-1 * *1".to_string()).unwrap();
    assert_eq!(math_parse(&tokens), Err(ParseError::InvalidUnaryOperator));
    let tokens = math_lexer(&"1**-1".to_string()).unwrap();
    assert_eq!(math_parse(&tokens), Err(ParseError::InvalidUnaryOperator));
    // ^ may not stand as a prefix either, nor may * / ^ open the input.
    let tokens = math_lexer(&"1^^1".to_string()).unwrap();
    assert_eq!(math_parse(&tokens), Err(ParseError::InvalidUnaryOperator));
    let tokens = math_lexer(&"*1".to_string()).unwrap();
    assert_eq!(math_parse(&tokens), Err(ParseError::InvalidUnaryOperator));
}

#[test]
fn rejected_lexical_input() {
    assert_eq!(math_lexer(&"01 + 1".to_string()), Err(LexError::LeadingZero));
    assert_eq!(math_lexer(&"1 _ 1".to_string()), Err(LexError::UnknownToken));
}

#[test]
fn rejected_parentheses() {
    let tokens = math_lexer(&"((1) + 1".to_string()).unwrap();
    assert_eq!(math_parse(&tokens), Err(ParseError::UnclosedParenthesis));
    let tokens = math_lexer(&"(1 + 1))))".to_string()).unwrap();
    assert_eq!(math_parse(&tokens), Err(ParseError::UnexpectedCloseParenthesis));
}

#[test]
fn rejected_missing_operator() {
    let tokens = math_lexer(&"1 2".to_string()).unwrap();
    assert_eq!(math_parse(&tokens), Err(ParseError::MalformedExpression));
    let tokens = math_lexer(&"1 (2)".to_string()).unwrap();
    assert_eq!(math_parse(&tokens), Err(ParseError::MalformedExpression));
    let tokens = math_lexer(&"1 +".to_string()).unwrap();
    assert_eq!(math_parse(&tokens), Err(ParseError::MalformedExpression));
}

#[test]
fn arithmetic_faults() {
    assert_eq!(run(&"1 / 0".to_string()), Err(Error::Eval(EvalError::DivisionByZero)));
    assert_eq!(run(&"2 ^ (0 - 1)".to_string()), Err(Error::Eval(EvalError::NegativeExponent)));
}

#[test]
fn idempotent_reevaluation() {
    let tokens = math_lexer(&"3 - 4 * 5 + 3 ^ 2".to_string()).unwrap();
    let expr = math_parse(&tokens).unwrap();
    let first = traverse_expr_tree(&expr);
    let second = traverse_expr_tree(&expr);
    assert_eq!(first, second);
    assert_eq!(first, Ok(-8));
}

#[test]
fn empty_input_is_zero() {
    assert_eq!(run(&"".to_string()), Ok(0));
    assert_eq!(run(&"   ".to_string()), Ok(0));
}

#[test]
fn exponent_formula_values() {
    assert_eq!(run(&"2 ^ 3".to_string()), Ok(8));
    assert_eq!(run(&"2 ^ 0".to_string()), Ok(1));
    assert_eq!(run(&"0 ^ 0".to_string()), Ok(1));
}

#[test]
fn division_truncates_toward_zero() {
    assert_eq!(run(&"(0 - 7) / 2".to_string()), Ok(-3));
    assert_eq!(run(&"7 / (0 - 2)".to_string()), Ok(-3));
    assert_eq!(run(&"(0 - 7) / (0 - 2)".to_string()), Ok(3));
}

#[test]
fn addition_wraps_at_the_edge() {
    assert_eq!(run(&"9223372036854775807 + 1".to_string()), Ok(i64::MIN));
    assert_eq!(run(&"0 - 9223372036854775807 - 2".to_string()), Ok(i64::MAX));
}

#[test]
fn oversized_numbers_are_out_of_domain() {
    let huge = "99999999999999999999".to_string();
    assert!(!lex_is_defined(&huge));
    assert_eq!(run_checked(&huge), None);
    let fine = "9223372036854775807".to_string();
    assert!(lex_is_defined(&fine));
    assert_eq!(run_checked(&fine), Some(Ok(i64::MAX)));
}

#[test]
fn error_messages() {
    assert_eq!(LexError::UnknownToken.message(), "Unknown token");
    assert_eq!(LexError::LeadingZero.message(), "numbers cannot have leading zeroes");
    assert_eq!(EvalError::DivisionByZero.message(), "cannot divide by zero");
    assert_eq!(
        EvalError::NegativeExponent.message(),
        "cannot do power to negative numbers"
    );
    assert_eq!(
        Error::Parse(ParseError::InvalidUnaryOperator).message(),
        "Multiplication or Division is not a unary operator."
    );
}

#[test]
fn operator_precedence_levels() {
    assert_eq!(get_precedence(&OpKind::Add), 1);
    assert_eq!(get_precedence(&OpKind::Subtract), 1);
    assert_eq!(get_precedence(&OpKind::Multiply), 2);
    assert_eq!(get_precedence(&OpKind::Divide), 2);
    assert_eq!(get_precedence(&OpKind::Exponent), 3);
}

#[test]
fn new_expression_is_zero() {
    let expr = Expr::new();
    assert_eq!(traverse_expr_tree(&expr), Ok(0));
}

#[test]
fn spaces_and_tabs_are_skipped() {
    assert_eq!(run(&"\t 1 +\t2 ".to_string()), Ok(3));
}

#[test]
fn built_trees_evaluate() {
    let power = Expr::binary(OpKind::Exponent, Expr::leaf(2), Expr::leaf(3));
    assert_eq!(traverse_expr_tree(&power), Ok(8));
    let negated = Expr::unary(OpKind::Subtract, Expr::leaf(7));
    assert_eq!(traverse_expr_tree(&negated), Ok(-7));
    let kept = Expr::unary(OpKind::Add, Expr::leaf(7));
    assert_eq!(traverse_expr_tree(&kept), Ok(7));
}

#[test]
fn division_overflow_wraps() {
    let text = "(0 - 9223372036854775807 - 1) / (0 - 1)".to_string();
    assert_eq!(run(&text), Ok(i64::MIN));
}
