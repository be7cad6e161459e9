//! Error taxonomy. Each error is a flat tag; `message` renders the
//! human-readable line that a caller prints.
use vstd::prelude::*;

verus! {

/// Errors of the lexer.
#[derive(Clone, Copy, PartialEq, Eq, Structural, Debug)]
pub enum LexError {
    /// A character that is not a digit, a parenthesis, an operator, a space
    /// or a tab.
    UnknownToken,
    /// A digit run of two or more digits that begins with `0`.
    LeadingZero,
}

/// Errors of the parser.
#[derive(Clone, Copy, PartialEq, Eq, Structural, Debug)]
pub enum ParseError {
    /// Input ended while a `(` was still open.
    UnclosedParenthesis,
    /// A `)` with no corresponding open group.
    UnexpectedCloseParenthesis,
    /// `*`, `/` or `^` in a position that expects an operand.
    InvalidUnaryOperator,
    /// A missing operand or operator anywhere else.
    MalformedExpression,
}

/// Errors of the evaluator.
#[derive(Clone, Copy, PartialEq, Eq, Structural, Debug)]
pub enum EvalError {
    /// The right operand of `/` evaluated to zero.
    DivisionByZero,
    /// The right operand of `^` evaluated to a negative number.
    NegativeExponent,
}

/// Any error of the three pipeline stages, for the composite entry point.
#[derive(Clone, Copy, PartialEq, Eq, Structural, Debug)]
pub enum Error {
    Lex(LexError),
    Parse(ParseError),
    Eval(EvalError),
}

impl LexError {
    /// The printable message of this error.
    pub open spec fn message_spec(&self) -> Seq<char> {
        match *self {
            LexError::UnknownToken => "Unknown token"@,
            LexError::LeadingZero => "numbers cannot have leading zeroes"@,
        }
    }

    /// Renders the printable message.
    pub fn message(&self) -> (m: &'static str)
        ensures
            m@ == self.message_spec(),
    {
        match self {
            LexError::UnknownToken => "Unknown token",
            LexError::LeadingZero => "numbers cannot have leading zeroes",
        }
    }
}

impl ParseError {
    /// The printable message of this error.
    pub open spec fn message_spec(&self) -> Seq<char> {
        match *self {
            ParseError::UnclosedParenthesis => "Expected ')'"@,
            ParseError::UnexpectedCloseParenthesis => "Unexpected ')'"@,
            ParseError::InvalidUnaryOperator => "Multiplication or Division is not a unary operator."@,
            ParseError::MalformedExpression => "expected operand or operator"@,
        }
    }

    /// Renders the printable message.
    pub fn message(&self) -> (m: &'static str)
        ensures
            m@ == self.message_spec(),
    {
        match self {
            ParseError::UnclosedParenthesis => "Expected ')'",
            ParseError::UnexpectedCloseParenthesis => "Unexpected ')'",
            ParseError::InvalidUnaryOperator => "Multiplication or Division is not a unary operator.",
            ParseError::MalformedExpression => "expected operand or operator",
        }
    }
}

impl EvalError {
    /// The printable message of this error.
    pub open spec fn message_spec(&self) -> Seq<char> {
        match *self {
            EvalError::DivisionByZero => "cannot divide by zero"@,
            EvalError::NegativeExponent => "cannot do power to negative numbers"@,
        }
    }

    /// Renders the printable message.
    pub fn message(&self) -> (m: &'static str)
        ensures
            m@ == self.message_spec(),
    {
        match self {
            EvalError::DivisionByZero => "cannot divide by zero",
            EvalError::NegativeExponent => "cannot do power to negative numbers",
        }
    }
}

impl Error {
    /// The printable message of the wrapped error.
    pub open spec fn message_spec(&self) -> Seq<char> {
        match *self {
            Error::Lex(e) => e.message_spec(),
            Error::Parse(e) => e.message_spec(),
            Error::Eval(e) => e.message_spec(),
        }
    }

    /// Renders the printable message of the wrapped error.
    pub fn message(&self) -> (m: &'static str)
        ensures
            m@ == self.message_spec(),
    {
        match self {
            Error::Lex(e) => e.message(),
            Error::Parse(e) => e.message(),
            Error::Eval(e) => e.message(),
        }
    }
}

} // verus!
