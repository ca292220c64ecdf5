//! Errors reported while reading plain-text model statements.
//!
//! Each constructor returns one fixed variant, so callers' contracts can
//! say exactly which error an input produces.

use vstd::prelude::*;

use crate::token::Token;

verus! {

/// A reason for rejecting a model statement or one of its arguments.
#[derive(Debug, Clone)]
pub enum ParseError {
    /// A failure described only by a message, such as a malformed number.
    Custom { message: String },
    /// A token that may not begin a statement.
    InvalidToken { token: Token },
    /// A keyword token found where none was expected.
    UnexpectedToken { token: Token },
    /// A statement whose arguments are inconsistent with one another.
    InvalidStatement,
    /// A keyword token found where a plain value was required.
    NonValueToken,
    /// An argument list whose length lies outside the accepted range.
    /// `expected_max` is `None` when any length from `expected_min` up is
    /// accepted.
    InvalidArgumentLength { expected_min: usize, expected_max: Option<usize>, received: usize },
    /// A one-based element reference that does not address any element of a
    /// list of length `len`.
    IndexOutOfBound { index: usize, len: usize },
}

pub fn custom(message: String) -> (e: ParseError)
    ensures
        e == (ParseError::Custom { message }),
{
    ParseError::Custom { message }
}

pub fn invalid_token(token: Token) -> (e: ParseError)
    ensures
        e == (ParseError::InvalidToken { token }),
{
    ParseError::InvalidToken { token }
}

pub fn unexpected_token(token: Token) -> (e: ParseError)
    ensures
        e == (ParseError::UnexpectedToken { token }),
{
    ParseError::UnexpectedToken { token }
}

pub fn invalid_statement() -> (e: ParseError)
    ensures
        e == ParseError::InvalidStatement,
{
    ParseError::InvalidStatement
}

pub fn non_value_token() -> (e: ParseError)
    ensures
        e == ParseError::NonValueToken,
{
    ParseError::NonValueToken
}

pub fn invalid_argument_length(
    expected_min: usize,
    expected_max: Option<usize>,
    received: usize,
) -> (e: ParseError)
    ensures
        e == (ParseError::InvalidArgumentLength { expected_min, expected_max, received }),
{
    ParseError::InvalidArgumentLength { expected_min, expected_max, received }
}

pub fn index_out_of_bound(index: usize, len: usize) -> (e: ParseError)
    ensures
        e == (ParseError::IndexOutOfBound { index, len }),
{
    ParseError::IndexOutOfBound { index, len }
}

} // verus!
