//! An evaluator for integer arithmetic expressions typed as plain text:
//! `+ - * / ^`, parentheses, and unary `+`/`-`, over 64-bit wrapping
//! arithmetic. Three pure stages — lexer, precedence-aware parser,
//! tree evaluator — each fully specified and composed by [`run`].
use vstd::prelude::*;

pub mod ast;
pub mod error;
pub mod eval;
pub mod laws;
pub mod lexer;
pub mod parser;

use crate::error::Error;
use crate::eval::eval_spec;
use crate::lexer::lex_defined;
use crate::lexer::lex_is_defined;
use crate::lexer::lex_spec;
use crate::lexer::math_lexer;
use crate::parser::math_parse;
use crate::parser::parse_spec;
use crate::eval::traverse_expr_tree;

verus! {

/// The value of a whole line of text: lex, parse, evaluate, stopping at the
/// first failure. A function of the text alone.
pub open spec fn run_spec(s: Seq<char>) -> Result<i64, Error>
    recommends
        lex_defined(s),
{
    match lex_spec(s) {
        Err(e) => Err(Error::Lex(e)),
        Ok(tokens) => match parse_spec(tokens) {
            Err(e) => Err(Error::Parse(e)),
            Ok(tree) => match eval_spec(tree) {
                Err(e) => Err(Error::Eval(e)),
                Ok(v) => Ok(v),
            },
        },
    }
}

/// Evaluates one line of text, short-circuiting on the first error of any
/// stage. Deterministic: the result equals `run_spec` of the text, so equal
/// inputs give equal outputs.
pub fn run(text: &String) -> (r: Result<i64, Error>)
    requires
        lex_defined(text@),
    ensures
        r == run_spec(text@),
{
    match math_lexer(text) {
        Err(e) => Err(Error::Lex(e)),
        Ok(tokens) => match math_parse(&tokens) {
            Err(e) => Err(Error::Parse(e)),
            Ok(tree) => match traverse_expr_tree(&tree) {
                Err(e) => Err(Error::Eval(e)),
                Ok(v) => Ok(v),
            },
        },
    }
}

/// Evaluates one line of text whatever it holds: first decides whether
/// lexing is defined (every number fits in an `i64`), and returns `None`
/// only where it is not.
pub fn run_checked(text: &String) -> (r: Option<Result<i64, Error>>)
    ensures
        match r {
            Some(v) => lex_defined(text@) && v == run_spec(text@),
            None => !lex_defined(text@),
        },
{
    if lex_is_defined(text) {
        Some(run(text))
    } else {
        None
    }
}

} // verus!
