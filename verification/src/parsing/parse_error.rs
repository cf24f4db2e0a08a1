//! The two ways a parse can fail.

use vstd::prelude::*;

verus! {

/// Why a parse failed.
#[derive(Debug)]
pub enum ParseError {
    /// The input ended where more was expected; the text says what.
    EndOfFile(String),
    /// The input at this position is not what was expected; the text says
    /// what was.
    ErrorAt(usize, String),
}

/// A [`ParseError`] as a mathematical value.
pub enum ErrorView {
    EndOfFile(Seq<char>),
    ErrorAt(nat, Seq<char>),
}

impl View for ParseError {
    type V = ErrorView;

    open spec fn view(&self) -> ErrorView {
        match self {
            ParseError::EndOfFile(message) => ErrorView::EndOfFile(message@),
            ParseError::ErrorAt(position, message) => ErrorView::ErrorAt(
                *position as nat,
                message@,
            ),
        }
    }
}

/// The failure to find `expected` at `position` of a text of `len`
/// characters: `EndOfFile` at the end of the text, `ErrorAt` before it.
/// Either carries the message `Expected ` followed by `expected`.
pub open spec fn missing(len: nat, position: nat, expected: Seq<char>) -> ErrorView {
    if position >= len {
        ErrorView::EndOfFile("Expected "@ + expected)
    } else {
        ErrorView::ErrorAt(position, "Expected "@ + expected)
    }
}

/// Builds the error for `expected` not being found at `position` of a
/// text of `len` characters.
pub fn missing_error(len: usize, position: usize, expected: &str) -> (e: ParseError)
    ensures
        e@ == missing(len as nat, position as nat, expected@),
{
    let mut message = "Expected ".to_owned();
    message.append(expected);
    if position >= len {
        ParseError::EndOfFile(message)
    } else {
        ParseError::ErrorAt(position, message)
    }
}

} // verus!
