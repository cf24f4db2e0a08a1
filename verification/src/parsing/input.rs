//! The backtracking cursor over the input, and the lexical parsers.
//!
//! Every parser here is transactional: when it fails, the cursor is where
//! it was before the call.

use vstd::prelude::*;
use crate::parsing::ast::PSym;
use crate::parsing::lexical::{
    closing_quote, digits_end, is_digit, is_space, is_symbol_char, is_symbol_start, line_end,
    matches_at, piece, skip_trivia, spec_end, spec_expect, spec_number, spec_string, spec_symbol,
    symbol_end, Outcome,
};
use crate::parsing::parse_error::{missing_error, ErrorView, ParseError};
use crate::parsing::view::PSymView;
use crate::text::push_char;

verus! {

/// The characters of an indexed character sequence, without their offsets.
pub open spec fn chars_of(data: Seq<(usize, char)>) -> Seq<char> {
    Seq::new(data.len(), |i: int| data[i].1)
}

/// A cursor over the characters of the input. It owns the position, which
/// only the parsers move.
pub struct Input<'a> {
    data: &'a [(usize, char)],
    index: usize,
}

/// A saved position of an [`Input`], to come back to.
pub struct RestorePoint {
    index: usize,
}

impl View for RestorePoint {
    type V = nat;

    closed spec fn view(&self) -> nat {
        self.index as nat
    }
}

/// `sym` is a piece of `text`: its place lies within the text and its
/// value is what the text holds there.
pub open spec fn well_placed(sym: PSymView, text: Seq<char>) -> bool {
    &&& sym.start <= sym.end <= text.len()
    &&& sym.value == text.subrange(sym.start as int, sym.end as int)
}

/// From `before` to `after` the text is the same and the cursor has not
/// moved back.
pub open spec fn steady(before: Input, after: Input) -> bool {
    &&& after.text() == before.text()
    &&& before.position() <= after.position() <= after.text().len()
}

/// The call of a parser that took the cursor from `before` to `after` and
/// returned `r` did what `o` says: the text is the same and the cursor did
/// not move back; on a match the result is the value and the cursor stands
/// after it; on a failure the result is the error and the cursor has not
/// moved.
pub open spec fn parsed<T: View>(
    before: Input,
    after: Input,
    r: Result<T, ParseError>,
    o: Outcome<T::V>,
) -> bool {
    &&& steady(before, after)
    &&& match o {
        Outcome::Match { value, next } => r is Ok && r->Ok_0@ == value && after.position()
            == next,
        Outcome::Fail { error } => r is Err && r->Err_0@ == error && after.position()
            == before.position(),
    }
}

/// The call of a parser that took the cursor from `before` to `after` and
/// returned `r` found what `o` says, but may have left the cursor anywhere
/// after a failure.
pub open spec fn attempted<T: View>(
    before: Input,
    after: Input,
    r: Result<T, ParseError>,
    o: Outcome<T::V>,
) -> bool {
    &&& steady(before, after)
    &&& match o {
        Outcome::Match { value, next } => r is Ok && r->Ok_0@ == value && after.position()
            == next,
        Outcome::Fail { error } => r is Err && r->Err_0@ == error,
    }
}

/// The views of a list of results, as one result.
pub open spec fn seen_all<T: View>(r: Result<Vec<T>, ParseError>) -> Result<Seq<T::V>, ErrorView> {
    match r {
        Ok(items) => Ok(Seq::new(items@.len(), |i: int| items@[i]@)),
        Err(e) => Err(e@),
    }
}

/// As [`attempted`], for a parser that returns a list: the views of the
/// items are the value.
pub open spec fn attempted_all<T: View>(
    before: Input,
    after: Input,
    r: Result<Vec<T>, ParseError>,
    o: Outcome<Seq<T::V>>,
) -> bool {
    &&& steady(before, after)
    &&& match o {
        Outcome::Match { value, next } => seen_all(r) == Ok::<Seq<T::V>, ErrorView>(value)
            && after.position() == next,
        Outcome::Fail { error } => seen_all(r) == Err::<Seq<T::V>, ErrorView>(error),
    }
}

/// Whether `s` is the text `literal`.
pub fn same_text(s: &String, literal: &str) -> (r: bool)
    ensures
        r == (s@ == literal@),
{
    let other = literal.to_owned();
    *s == other
}

fn space(c: char) -> (r: bool)
    ensures
        r == is_space(c),
{
    c == ' ' || c == '\t' || c == '\n' || c == '\r'
}

fn digit(c: char) -> (r: bool)
    ensures
        r == is_digit(c),
{
    '0' <= c && c <= '9'
}

fn symbol_start(c: char) -> (r: bool)
    ensures
        r == is_symbol_start(c),
{
    ('a' <= c && c <= 'z') || ('A' <= c && c <= 'Z') || c == '_'
}

fn symbol_char(c: char) -> (r: bool)
    ensures
        r == is_symbol_char(c),
{
    symbol_start(c) || digit(c)
}

impl<'a> Input<'a> {
    #[verifier::type_invariant]
    spec fn in_range(&self) -> bool {
        self.index <= self.data@.len()
    }

    /// The characters of the input.
    pub closed spec fn text(&self) -> Seq<char> {
        chars_of(self.data@)
    }

    /// The number of characters before the cursor.
    pub closed spec fn position(&self) -> nat {
        self.index as nat
    }

    /// A cursor at the start of `data`.
    pub fn new(data: &'a [(usize, char)]) -> (input: Self)
        ensures
            input.text() == chars_of(data@),
            input.position() == 0,
    {
        Input { data, index: 0 }
    }

    /// The current position, to hand to [`Input::restore`] later.
    pub fn create_restore(&self) -> (rp: RestorePoint)
        ensures
            rp@ == self.position(),
            rp@ <= self.text().len(),
    {
        proof {
            use_type_invariant(self);
        }
        RestorePoint { index: self.index }
    }

    /// Moves the cursor to a saved position. A restore point that does not
    /// lie within this input leaves the cursor where it is.
    pub fn restore(&mut self, rp: RestorePoint)
        ensures
            final(self).text() == old(self).text(),
            final(self).position() == if rp@ <= old(self).text().len() {
                rp@
            } else {
                old(self).position()
            },
    {
        if rp.index <= self.data.len() {
            self.index = rp.index;
        }
    }

    /// The current position.
    pub fn offset(&self) -> (r: usize)
        ensures
            r == self.position(),
            r <= self.text().len(),
    {
        proof {
            use_type_invariant(self);
        }
        self.index
    }

    /// Whether the cursor stands after the saved position `rp`.
    pub fn beyond(&self, rp: &RestorePoint) -> (r: bool)
        ensures
            r == (self.position() > rp@),
    {
        self.index > rp.index
    }

    /// Completes a trial parse that began at `rp` and gave `r`: after a
    /// failure the cursor goes back to `rp`.
    pub fn settle<T: View>(&mut self, rp: RestorePoint, r: Result<T, ParseError>) -> (out: Result<
        T,
        ParseError,
    >)
        requires
            rp@ <= old(self).position(),
        ensures
            out == r,
            final(self).text() == old(self).text(),
            final(self).position() == if r is Ok {
                old(self).position()
            } else {
                rp@
            },
    {
        proof {
            use_type_invariant(&*self);
        }
        if r.is_err() {
            self.restore(rp);
        }
        r
    }

    /// The character at `i`.
    fn at(&self, i: usize) -> (c: char)
        requires
            i < self.text().len(),
        ensures
            c == self.text()[i as int],
    {
        self.data[i].1
    }

    /// The length of the text.
    fn len(&self) -> (n: usize)
        ensures
            n == self.text().len(),
            self.position() <= n,
    {
        proof {
            use_type_invariant(self);
        }
        self.data.len()
    }

    /// The end of the line that `from` is on.
    fn scan_line(&self, from: usize) -> (end: usize)
        requires
            from <= self.text().len(),
        ensures
            end == line_end(self.text(), from as nat),
            from <= end <= self.text().len(),
    {
        let n = self.len();
        let mut i = from;
        while i < n && self.at(i) != '\n'
            invariant
                from <= i <= n,
                n == self.text().len(),
                line_end(self.text(), i as nat) == line_end(self.text(), from as nat),
            decreases n - i,
        {
            i = i + 1;
        }
        i
    }

    /// The position of the next token: after whitespace and comments.
    fn scan_trivia(&self) -> (start: usize)
        ensures
            start == skip_trivia(self.text(), self.position()),
            self.position() <= start <= self.text().len(),
    {
        let n = self.len();
        let mut i = self.index;
        loop
            invariant
                self.position() <= i <= n,
                n == self.text().len(),
                skip_trivia(self.text(), i as nat) == skip_trivia(self.text(), self.position()),
            ensures
                i == skip_trivia(self.text(), self.position()),
                self.position() <= i <= n,
            decreases n - i,
        {
            if i >= n {
                break ;
            }
            let c = self.at(i);
            if space(c) {
                i = i + 1;
            } else if c == '/' && i + 1 < n && self.at(i + 1) == '/' {
                i = self.scan_line(i + 2);
            } else {
                break ;
            }
        }
        i
    }

    /// The end of the run of symbol characters that starts at `from`.
    fn scan_symbol(&self, from: usize) -> (end: usize)
        requires
            from <= self.text().len(),
        ensures
            end == symbol_end(self.text(), from as nat),
            from <= end <= self.text().len(),
    {
        let n = self.len();
        let mut i = from;
        while i < n && symbol_char(self.at(i))
            invariant
                from <= i <= n,
                n == self.text().len(),
                symbol_end(self.text(), i as nat) == symbol_end(self.text(), from as nat),
            decreases n - i,
        {
            i = i + 1;
        }
        i
    }

    /// The end of the run of digits that starts at `from`.
    fn scan_digits(&self, from: usize) -> (end: usize)
        requires
            from <= self.text().len(),
        ensures
            end == digits_end(self.text(), from as nat),
            from <= end <= self.text().len(),
    {
        let n = self.len();
        let mut i = from;
        while i < n && digit(self.at(i))
            invariant
                from <= i <= n,
                n == self.text().len(),
                digits_end(self.text(), i as nat) == digits_end(self.text(), from as nat),
            decreases n - i,
        {
            i = i + 1;
        }
        i
    }

    /// The closing quote of the string whose content starts at `from`.
    fn scan_string(&self, from: usize) -> (close: usize)
        requires
            from <= self.text().len(),
        ensures
            close == closing_quote(self.text(), from as nat),
            from <= close <= self.text().len(),
    {
        let n = self.len();
        let mut i = from;
        loop
            invariant
                from <= i <= n,
                n == self.text().len(),
                closing_quote(self.text(), i as nat) == closing_quote(self.text(), from as nat),
            ensures
                i == closing_quote(self.text(), from as nat),
                from <= i <= n,
            decreases n - i,
        {
            if i >= n {
                break ;
            }
            let c = self.at(i);
            if c == '"' {
                break ;
            } else if c == '\\' {
                if n - i >= 2 {
                    i = i + 2;
                } else {
                    i = n;
                    break ;
                }
            } else {
                i = i + 1;
            }
        }
        i
    }

    /// Whether the text holds `literal` at `start`.
    fn holds(&self, start: usize, literal: &str) -> (r: bool)
        requires
            start <= self.text().len(),
        ensures
            r == matches_at(self.text(), start as nat, literal@),
    {
        let n = self.len();
        let k = literal.unicode_len();
        if k > n - start {
            return false;
        }
        let mut j: usize = 0;
        while j < k
            invariant
                j <= k,
                k == literal@.len(),
                start + k <= n,
                n == self.text().len(),
                forall|i: int| 0 <= i < j ==> self.text()[start + i] == literal@[i],
            decreases k - j,
        {
            if self.at(start + j) != literal.get_char(j) {
                assert(self.text().subrange(start as int, start + k)[j as int] != literal@[j as int]);
                return false;
            }
            j = j + 1;
        }
        assert(self.text().subrange(start as int, start + k) =~= literal@);
        true
    }

    /// The piece of the text from `start` to `end`, with its place.
    fn take(&self, start: usize, end: usize) -> (sym: PSym)
        requires
            start <= end <= self.text().len(),
        ensures
            sym@ == piece(self.text(), start as nat, end as nat),
    {
        let mut value = String::new();
        let mut i = start;
        while i < end
            invariant
                start <= i <= end <= self.text().len(),
                value@ == self.text().subrange(start as int, i as int),
            decreases end - i,
        {
            push_char(&mut value, self.at(i));
            i = i + 1;
            assert(self.text().subrange(start as int, i as int) =~= self.text().subrange(
                start as int,
                i - 1,
            ).push(self.text()[i - 1]));
        }
        PSym { start, end, value }
    }

    /// Matches the text `literal`, after skipping whitespace and comments,
    /// and returns it with its place. On failure the error is `EndOfFile`
    /// if the input has ended and `ErrorAt` the next token otherwise.
    pub fn expect(&mut self, literal: &str) -> (r: Result<PSym, ParseError>)
        ensures
            parsed(
                *old(self),
                *final(self),
                r,
                spec_expect(old(self).text(), old(self).position(), literal@),
            ),
            r is Ok ==> final(self).position() >= old(self).position() + literal@.len(),
            r is Ok ==> well_placed(r->Ok_0@, old(self).text()),
    {
        proof {
            reveal(spec_expect);
        }
        let n = self.len();
        let start = self.scan_trivia();
        if self.holds(start, literal) {
            let end = start + literal.unicode_len();
            let sym = self.take(start, end);
            self.index = end;
            Ok(sym)
        } else {
            Err(missing_error(n, start, literal))
        }
    }

    /// Succeeds if nothing but whitespace and comments is left, and then
    /// moves the cursor to the end.
    pub fn expect_end(&mut self) -> (r: Result<(), ParseError>)
        ensures
            parsed(*old(self), *final(self), r, spec_end(old(self).text(), old(self).position())),
    {
        proof {
            reveal(spec_end);
        }
        let start = self.scan_trivia();
        if start >= self.len() {
            self.index = start;
            Ok(())
        } else {
            Err(ParseError::ErrorAt(start, "Expected end of input".to_owned()))
        }
    }

    /// Parses a symbol: a letter or `_`, then letters, digits and `_`.
    pub fn parse_symbol(&mut self) -> (r: Result<PSym, ParseError>)
        ensures
            parsed(
                *old(self),
                *final(self),
                r,
                spec_symbol(old(self).text(), old(self).position()),
            ),
            r is Ok ==> final(self).position() > old(self).position(),
            r is Ok ==> well_placed(r->Ok_0@, old(self).text()),
    {
        proof {
            reveal(spec_symbol);
        }
        let start = self.scan_trivia();
        if start < self.len() && symbol_start(self.at(start)) {
            let end = self.scan_symbol(start + 1);
            let sym = self.take(start, end);
            self.index = end;
            Ok(sym)
        } else {
            Err(missing_error(self.len(), start, "symbol"))
        }
    }

    /// Parses a number: digits, with an optional fraction.
    pub fn parse_number(&mut self) -> (r: Result<PSym, ParseError>)
        ensures
            parsed(
                *old(self),
                *final(self),
                r,
                spec_number(old(self).text(), old(self).position()),
            ),
            r is Ok ==> final(self).position() > old(self).position(),
            r is Ok ==> well_placed(r->Ok_0@, old(self).text()),
    {
        proof {
            reveal(spec_number);
        }
        let n = self.len();
        let start = self.scan_trivia();
        if start < n && digit(self.at(start)) {
            let whole = self.scan_digits(start + 1);
            assert(digits_end(self.text(), start as nat) == whole);
            let end = if n - whole >= 2 && self.at(whole) == '.' && digit(self.at(whole + 1)) {
                self.scan_digits(whole + 2)
            } else {
                whole
            };
            let sym = self.take(start, end);
            self.index = end;
            Ok(sym)
        } else {
            Err(missing_error(n, start, "number"))
        }
    }

    /// Parses a string literal and returns what stands between its quotes.
    pub fn parse_string(&mut self) -> (r: Result<PSym, ParseError>)
        ensures
            parsed(
                *old(self),
                *final(self),
                r,
                spec_string(old(self).text(), old(self).position()),
            ),
            r is Ok ==> final(self).position() > old(self).position(),
            r is Ok ==> well_placed(r->Ok_0@, old(self).text()),
    {
        proof {
            reveal(spec_string);
        }
        let n = self.len();
        let start = self.scan_trivia();
        if start < n && self.at(start) == '"' {
            let close = self.scan_string(start + 1);
            if close < n {
                let sym = self.take(start + 1, close);
                self.index = close + 1;
                Ok(sym)
            } else {
                Err(ParseError::EndOfFile("Expected closing quote".to_owned()))
            }
        } else {
            Err(missing_error(n, start, "string"))
        }
    }
}

} // verus!
