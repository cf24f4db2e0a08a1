//! What the lexical layer recognizes, stated over the input as a sequence
//! of characters and a position in it.
//!
//! Positions count characters. Before every token the layer skips
//! whitespace and comments; a comment runs from `//` to the end of its
//! line.

use vstd::prelude::*;
use crate::parsing::parse_error::{missing, ErrorView};
use crate::parsing::view::PSymView;

verus! {

/// What a parser does at a position of a text: it matches, giving a value
/// and the position after what it consumed, or it fails with an error and
/// consumes nothing.
pub enum Outcome<V> {
    Match { value: V, next: nat },
    Fail { error: ErrorView },
}

/// The outcome `o` of a parser of sequences, with `prefix` put before its
/// value.
pub open spec fn prepend<V>(prefix: Seq<V>, o: Outcome<Seq<V>>) -> Outcome<Seq<V>> {
    match o {
        Outcome::Match { value, next } => Outcome::Match { value: prefix + value, next },
        Outcome::Fail { error } => Outcome::Fail { error },
    }
}

/// The failure that stands for a position that the grammar never asks
/// about.
pub open spec fn nowhere<V>() -> Outcome<V> {
    Outcome::Fail { error: ErrorView::EndOfFile(Seq::empty()) }
}

/// The outcome `o` with the value replaced by `value`.
pub open spec fn giving<A, B>(o: Outcome<A>, value: B) -> Outcome<B> {
    match o {
        Outcome::Match { value: _, next } => Outcome::Match { value, next },
        Outcome::Fail { error } => Outcome::Fail { error },
    }
}

pub open spec fn is_space(c: char) -> bool {
    c == ' ' || c == '\t' || c == '\n' || c == '\r'
}

pub open spec fn is_digit(c: char) -> bool {
    '0' <= c && c <= '9'
}

/// The characters that may start a symbol: ASCII letters and `_`.
pub open spec fn is_symbol_start(c: char) -> bool {
    ('a' <= c && c <= 'z') || ('A' <= c && c <= 'Z') || c == '_'
}

/// The characters that may continue a symbol: ASCII letters, digits, `_`.
pub open spec fn is_symbol_char(c: char) -> bool {
    is_symbol_start(c) || is_digit(c)
}

/// The position of the first line break at or after `pos`, or the length
/// of the text if there is none.
pub open spec fn line_end(text: Seq<char>, pos: nat) -> nat
    decreases text.len() - pos,
{
    if pos >= text.len() {
        text.len()
    } else if text[pos as int] == '\n' {
        pos
    } else {
        line_end(text, pos + 1)
    }
}

/// A comment starts at `pos`.
pub open spec fn starts_comment(text: Seq<char>, pos: nat) -> bool {
    pos + 1 < text.len() && text[pos as int] == '/' && text[pos as int + 1] == '/'
}

/// The position of the first character at or after `pos` that is neither
/// whitespace nor part of a comment, or the length of the text if there is
/// none.
pub open spec fn skip_trivia(text: Seq<char>, pos: nat) -> nat
    decreases text.len() - pos,
{
    if pos >= text.len() {
        pos
    } else if is_space(text[pos as int]) {
        skip_trivia(text, pos + 1)
    } else if starts_comment(text, pos) {
        proof {
            lemma_line_end_bounds(text, pos + 2);
        }
        skip_trivia(text, line_end(text, pos + 2))
    } else {
        pos
    }
}

/// The position of the first character at or after `pos` that cannot
/// continue a symbol, or the length of the text.
pub open spec fn symbol_end(text: Seq<char>, pos: nat) -> nat
    decreases text.len() - pos,
{
    if pos < text.len() && is_symbol_char(text[pos as int]) {
        symbol_end(text, pos + 1)
    } else {
        pos
    }
}

/// The position of the first character at or after `pos` that is not a
/// digit, or the length of the text.
pub open spec fn digits_end(text: Seq<char>, pos: nat) -> nat
    decreases text.len() - pos,
{
    if pos < text.len() && is_digit(text[pos as int]) {
        digits_end(text, pos + 1)
    } else {
        pos
    }
}

/// The position of the quote that closes a string whose content starts at
/// `pos`, or the length of the text if the string is not closed. A
/// backslash takes the character after it with it, so an escaped quote
/// does not close the string.
pub open spec fn closing_quote(text: Seq<char>, pos: nat) -> nat
    decreases text.len() - pos,
{
    if pos >= text.len() {
        text.len()
    } else if text[pos as int] == '"' {
        pos
    } else if text[pos as int] == '\\' {
        if pos + 2 <= text.len() {
            closing_quote(text, pos + 2)
        } else {
            text.len()
        }
    } else {
        closing_quote(text, pos + 1)
    }
}

/// The text holds `literal` at `pos`.
pub open spec fn matches_at(text: Seq<char>, pos: nat, literal: Seq<char>) -> bool {
    pos + literal.len() <= text.len() && text.subrange(
        pos as int,
        pos as int + literal.len(),
    )
        == literal
}

/// The piece of `text` from `start` to `end`, with its place.
pub open spec fn piece(text: Seq<char>, start: nat, end: nat) -> PSymView {
    PSymView { start, end, value: text.subrange(start as int, end as int) }
}

/// `literal`, after whitespace and comments.
#[verifier::opaque]
pub open spec fn spec_expect(text: Seq<char>, pos: nat, literal: Seq<char>) -> Outcome<PSymView> {
    let start = skip_trivia(text, pos);
    if matches_at(text, start, literal) {
        Outcome::Match { value: piece(text, start, start + literal.len()), next: start + literal.len() }
    } else {
        Outcome::Fail { error: missing(text.len(), start, literal) }
    }
}

/// The end of the text, after whitespace and comments.
#[verifier::opaque]
pub open spec fn spec_end(text: Seq<char>, pos: nat) -> Outcome<()> {
    let start = skip_trivia(text, pos);
    if start >= text.len() {
        Outcome::Match { value: (), next: start }
    } else {
        Outcome::Fail { error: ErrorView::ErrorAt(start, "Expected end of input"@) }
    }
}

/// A symbol, after whitespace and comments: a letter or `_`, then letters,
/// digits and `_` as far as they go.
#[verifier::opaque]
pub open spec fn spec_symbol(text: Seq<char>, pos: nat) -> Outcome<PSymView> {
    let start = skip_trivia(text, pos);
    if start < text.len() && is_symbol_start(text[start as int]) {
        let end = symbol_end(text, start + 1);
        Outcome::Match { value: piece(text, start, end), next: end }
    } else {
        Outcome::Fail { error: missing(text.len(), start, "symbol"@) }
    }
}

/// Where a number that starts at `start` ends: after its digits and, where
/// a `.` and a digit follow them, after the digits of the fraction.
pub open spec fn number_end(text: Seq<char>, start: nat) -> nat {
    let whole = digits_end(text, start);
    if whole + 1 < text.len() && text[whole as int] == '.' && is_digit(text[whole as int + 1]) {
        digits_end(text, whole + 2)
    } else {
        whole
    }
}

/// A number, after whitespace and comments: digits, with an optional
/// fraction.
#[verifier::opaque]
pub open spec fn spec_number(text: Seq<char>, pos: nat) -> Outcome<PSymView> {
    let start = skip_trivia(text, pos);
    if start < text.len() && is_digit(text[start as int]) {
        let end = number_end(text, start);
        Outcome::Match { value: piece(text, start, end), next: end }
    } else {
        Outcome::Fail { error: missing(text.len(), start, "number"@) }
    }
}

/// A string literal, after whitespace and comments: a `"`, the content,
/// and the closing `"`. The value is the content as written, between the
/// quotes.
#[verifier::opaque]
pub open spec fn spec_string(text: Seq<char>, pos: nat) -> Outcome<PSymView> {
    let start = skip_trivia(text, pos);
    if start < text.len() && text[start as int] == '"' {
        let close = closing_quote(text, start + 1);
        if close < text.len() {
            Outcome::Match { value: piece(text, start + 1, close), next: close + 1 }
        } else {
            Outcome::Fail { error: ErrorView::EndOfFile("Expected closing quote"@) }
        }
    } else {
        Outcome::Fail { error: missing(text.len(), start, "string"@) }
    }
}

/// The end of a line lies at or after where the search began, within the
/// text.
pub proof fn lemma_line_end_bounds(text: Seq<char>, pos: nat)
    requires
        pos <= text.len(),
    ensures
        pos <= line_end(text, pos) <= text.len(),
    decreases text.len() - pos,
{
    if pos < text.len() && text[pos as int] != '\n' {
        lemma_line_end_bounds(text, pos + 1);
    }
}

/// Skipping whitespace and comments moves forward only, and not beyond
/// the text.
pub proof fn lemma_skip_trivia_bounds(text: Seq<char>, pos: nat)
    requires
        pos <= text.len(),
    ensures
        pos <= skip_trivia(text, pos) <= text.len(),
    decreases text.len() - pos,
{
    if pos < text.len() {
        if is_space(text[pos as int]) {
            lemma_skip_trivia_bounds(text, pos + 1);
        } else if starts_comment(text, pos) {
            lemma_line_end_bounds(text, pos + 2);
            lemma_skip_trivia_bounds(text, line_end(text, pos + 2));
        }
    }
}

} // verus!
