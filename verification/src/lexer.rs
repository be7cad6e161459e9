//! The lexer: turns a line of text into the token sequence that the parser
//! consumes. It skips spaces and tabs, groups digit runs greedily into one
//! `Number` token each, and maps each of `( ) + - * / ^` to its token. It
//! knows nothing of the grammar: unary versus binary `+`/`-` is the
//! parser's business.
//!
//! The specification is `lex_from`, a recursive function over the character
//! sequence. A digit run whose value exceeds `i64::MAX` has no token; on
//! such input `lex_from` is `None` and the lexer's contract says nothing,
//! so `math_lexer` requires `lex_defined` and `lex_is_defined` decides it.
use vstd::prelude::*;
use vstd::string::StrSliceExecFns;

use crate::ast::OpKind;
use crate::ast::Token;
use crate::error::LexError;

verus! {

/// Is `c` a decimal digit?
pub open spec fn is_digit(c: char) -> bool {
    48 <= c as u32 && c as u32 <= 57
}

/// Numeric value of a digit character.
pub open spec fn digit_val(c: char) -> nat
    recommends
        is_digit(c),
{
    (c as u32 - 48) as nat
}

/// Is `c` skipped whitespace?
pub open spec fn is_space(c: char) -> bool {
    c == ' ' || c == '\t'
}

/// The operator written as `c`, if any.
pub open spec fn op_of_char(c: char) -> Option<OpKind> {
    if c == '+' {
        Some(OpKind::Add)
    } else if c == '-' {
        Some(OpKind::Subtract)
    } else if c == '*' {
        Some(OpKind::Multiply)
    } else if c == '/' {
        Some(OpKind::Divide)
    } else if c == '^' {
        Some(OpKind::Exponent)
    } else {
        None
    }
}

/// Prepends `prefix` to the tokens of `rest`; errors and undefinedness pass
/// through unchanged.
pub open spec fn glue(prefix: Seq<Token>, rest: Option<Result<Seq<Token>, LexError>>) -> Option<
    Result<Seq<Token>, LexError>,
> {
    match rest {
        Some(Ok(tokens)) => Some(Ok(prefix + tokens)),
        other => other,
    }
}

/// The tokens of `s` from position `i` on. `None` means a digit run whose
/// value does not fit in an `i64`, on which the lexer is not defined.
pub open spec fn lex_from(s: Seq<char>, i: nat) -> Option<Result<Seq<Token>, LexError>>
    decreases s.len() - i, 0nat,
{
    if i >= s.len() {
        Some(Ok(Seq::empty()))
    } else {
        let c = s[i as int];
        if is_digit(c) {
            // A multi-digit run beginning with 0 is rejected; "0" alone is a
            // valid single-digit run.
            if c == '0' && i + 1 < s.len() && is_digit(s[i as int + 1]) {
                Some(Err(LexError::LeadingZero))
            } else {
                lex_number(s, i + 1, digit_val(c))
            }
        } else if is_space(c) {
            lex_from(s, i + 1)
        } else if c == '(' {
            glue(seq![Token::OpenParen], lex_from(s, i + 1))
        } else if c == ')' {
            glue(seq![Token::CloseParen], lex_from(s, i + 1))
        } else {
            match op_of_char(c) {
                Some(op) => glue(seq![Token::Operator(op)], lex_from(s, i + 1)),
                None => Some(Err(LexError::UnknownToken)),
            }
        }
    }
}

/// Continues a digit run whose digits so far have value `acc`. The run ends
/// at the first non-digit; then its `Number` token is emitted in front of
/// the rest of the lexing.
pub open spec fn lex_number(s: Seq<char>, i: nat, acc: nat) -> Option<
    Result<Seq<Token>, LexError>,
>
    recommends
        acc <= i64::MAX as nat,
    decreases s.len() - i, 1nat,
{
    if i < s.len() && is_digit(s[i as int]) {
        let grown = acc * 10 + digit_val(s[i as int]);
        if grown > i64::MAX as nat {
            None
        } else {
            lex_number(s, i + 1, grown)
        }
    } else {
        glue(seq![Token::Number(acc as i64)], lex_from(s, i))
    }
}

/// Does every number in `s` fit in an `i64`, so that lexing is defined?
pub open spec fn lex_defined(s: Seq<char>) -> bool {
    lex_from(s, 0) is Some
}

/// The tokens of `s`, or the first lexical error.
pub open spec fn lex_spec(s: Seq<char>) -> Result<Seq<Token>, LexError>
    recommends
        lex_defined(s),
{
    lex_from(s, 0).unwrap()
}

/// Lifts an executable lexer result to its mathematical view.
pub open spec fn lex_result_view(r: Result<Vec<Token>, LexError>) -> Result<Seq<Token>, LexError> {
    match r {
        Ok(v) => Ok(v@),
        Err(e) => Err(e),
    }
}

proof fn lemma_glue_push(prefix: Seq<Token>, t: Token, rest: Option<Result<Seq<Token>, LexError>>)
    ensures
        glue(prefix, glue(seq![t], rest)) == glue(prefix.push(t), rest),
{
    match rest {
        Some(Ok(tokens)) => {
            assert(prefix + (seq![t] + tokens) =~= prefix.push(t) + tokens);
        },
        _ => {},
    }
}

/// Lexes one line of text into its token sequence, or reports the first
/// lexical error. Spaces and tabs are skipped; the whole line is rejected at
/// the first bad character or malformed number, with no partial result.
pub fn math_lexer(math_expr: &String) -> (r: Result<Vec<Token>, LexError>)
    requires
        lex_defined(math_expr@),
    ensures
        lex_result_view(r) == lex_spec(math_expr@),
{
    let text = math_expr.as_str();
    let n = text.unicode_len();
    let mut tokens: Vec<Token> = Vec::new();
    let mut i: usize = 0;
    while i < n
        invariant
            i <= n,
            n == text@.len(),
            text@ == math_expr@,
            lex_defined(math_expr@),
            glue(tokens@, lex_from(text@, i as nat)) == lex_from(text@, 0),
        decreases n - i,
    {
        let c = text.get_char(i);
        let cv = c as u32;
        if 48 <= cv && cv <= 57 {
            // A digit starts a greedy run, collected into one Number token.
            if cv == 48 && i + 1 < n {
                let c2 = text.get_char(i + 1);
                let cv2 = c2 as u32;
                if 48 <= cv2 && cv2 <= 57 {
                    return Err(LexError::LeadingZero);
                }
            }
            let mut acc: i64 = (cv - 48) as i64;
            i = i + 1;
            let ghost i_run: usize = i;
            loop
                invariant_except_break
                    i_run <= i <= n,
                    n == text@.len(),
                    text@ == math_expr@,
                    lex_from(text@, 0) is Some,
                    0 <= acc <= i64::MAX,
                    glue(tokens@, lex_number(text@, i as nat, acc as nat)) == lex_from(text@, 0),
                ensures
                    i_run <= i <= n,
                    n == text@.len(),
                    text@ == math_expr@,
                    0 <= acc <= i64::MAX,
                    !(i < n && is_digit(text@[i as int])),
                    glue(tokens@, lex_number(text@, i as nat, acc as nat)) == lex_from(text@, 0),
                decreases n - i,
            {
                if i >= n {
                    break;
                }
                let d = text.get_char(i);
                let dv = d as u32;
                if !(48 <= dv && dv <= 57) {
                    break;
                }
                proof {
                    // lex_number here is Some, so the grown value fits.
                    assert(lex_number(text@, i as nat, acc as nat) is Some);
                }
                acc = acc * 10 + ((dv - 48) as i64);
                i = i + 1;
            }
            proof {
                lemma_glue_push(tokens@, Token::Number(acc), lex_from(text@, i as nat));
            }
            tokens.push(Token::Number(acc));
        } else if c == ' ' || c == '\t' {
            i = i + 1;
        } else if c == '(' {
            proof {
                lemma_glue_push(tokens@, Token::OpenParen, lex_from(text@, i as nat + 1));
            }
            tokens.push(Token::OpenParen);
            i = i + 1;
        } else if c == ')' {
            proof {
                lemma_glue_push(tokens@, Token::CloseParen, lex_from(text@, i as nat + 1));
            }
            tokens.push(Token::CloseParen);
            i = i + 1;
        } else if c == '+' || c == '-' || c == '*' || c == '/' || c == '^' {
            let op = if c == '+' {
                OpKind::Add
            } else if c == '-' {
                OpKind::Subtract
            } else if c == '*' {
                OpKind::Multiply
            } else if c == '/' {
                OpKind::Divide
            } else {
                OpKind::Exponent
            };
            proof {
                lemma_glue_push(tokens@, Token::Operator(op), lex_from(text@, i as nat + 1));
            }
            tokens.push(Token::Operator(op));
            i = i + 1;
        } else {
            return Err(LexError::UnknownToken);
        }
    }
    proof {
        assert(tokens@ + Seq::<Token>::empty() =~= tokens@);
    }
    Ok(tokens)
}

/// Decides whether lexing `math_expr` is defined, that is, whether every
/// number the lexer would read fits in an `i64`. `math_lexer` and `run` ask
/// for this; a caller that cannot prove it checks it with this function
/// first.
pub fn lex_is_defined(math_expr: &String) -> (b: bool)
    ensures
        b == lex_defined(math_expr@),
{
    let text = math_expr.as_str();
    let n = text.unicode_len();
    let mut i: usize = 0;
    while i < n
        invariant
            i <= n,
            n == text@.len(),
            text@ == math_expr@,
            lex_defined(math_expr@) == (lex_from(text@, i as nat) is Some),
        decreases n - i,
    {
        let c = text.get_char(i);
        let cv = c as u32;
        if 48 <= cv && cv <= 57 {
            if cv == 48 && i + 1 < n {
                let c2 = text.get_char(i + 1);
                let cv2 = c2 as u32;
                if 48 <= cv2 && cv2 <= 57 {
                    // A leading-zero error: defined, though an error.
                    return true;
                }
            }
            let mut acc: i64 = (cv - 48) as i64;
            i = i + 1;
            let ghost i_run: usize = i;
            loop
                invariant_except_break
                    i_run <= i <= n,
                    n == text@.len(),
                    text@ == math_expr@,
                    0 <= acc <= i64::MAX,
                    lex_defined(math_expr@) == (lex_number(text@, i as nat, acc as nat) is Some),
                ensures
                    i_run <= i <= n,
                    n == text@.len(),
                    text@ == math_expr@,
                    !(i < n && is_digit(text@[i as int])),
                    lex_defined(math_expr@) == (lex_number(text@, i as nat, acc as nat) is Some),
                decreases n - i,
            {
                if i >= n {
                    break;
                }
                let d = text.get_char(i);
                let dv = d as u32;
                if !(48 <= dv && dv <= 57) {
                    break;
                }
                let digit: i64 = (dv - 48) as i64;
                let acc10 = match acc.checked_mul(10) {
                    Some(m) => m,
                    None => {
                        return false;
                    },
                };
                acc = match acc10.checked_add(digit) {
                    Some(g) => g,
                    None => {
                        return false;
                    },
                };
                i = i + 1;
            }
        } else if c == ' ' || c == '\t' || c == '(' || c == ')' || c == '+' || c == '-' || c == '*'
            || c == '/' || c == '^' {
            i = i + 1;
        } else {
            // An unknown token: defined, though an error.
            return true;
        }
    }
    true
}

} // verus!
