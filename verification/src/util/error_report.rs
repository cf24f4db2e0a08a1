//! Shows where in a text an error lies: the line of the error with a
//! pointer under it, between the lines before and after.
//!
//! [`report`] takes byte offsets into the text, as the offsets of a
//! string are counted; [`report_characters`] takes character positions,
//! as the parser counts them. A line ends at a line feed or a carriage
//! return.

use vstd::prelude::*;
use crate::text::{
    byte_len, bytes_before, chars_of_str, lemma_bytes_before_grows, push_char, utf8_len,
};

verus! {

pub open spec fn is_break(c: char) -> bool {
    c == '\n' || c == '\r'
}

/// Where the line that holds position `pos` starts: after the last line
/// break before `pos`, or at the start of the text.
pub open spec fn line_start(text: Seq<char>, pos: nat) -> nat
    decreases pos,
{
    if pos == 0 || pos > text.len() {
        0
    } else if is_break(text[pos - 1]) {
        pos
    } else {
        line_start(text, (pos - 1) as nat)
    }
}

/// Where the line that holds position `pos` stops: at the first line
/// break at or after `pos`, or at the end of the text.
pub open spec fn line_stop(text: Seq<char>, pos: nat) -> nat
    decreases text.len() - pos,
{
    if pos >= text.len() {
        text.len()
    } else if is_break(text[pos as int]) {
        pos
    } else {
        line_stop(text, pos + 1)
    }
}

/// `n` times the character `c`.
pub open spec fn repeat(c: char, n: nat) -> Seq<char> {
    Seq::new(n, |i: int| c)
}

/// The line before the one that starts at `start`, with its line break;
/// nothing if that is the first line.
pub open spec fn line_before(text: Seq<char>, start: nat) -> Seq<char> {
    if start == 0 {
        Seq::empty()
    } else {
        text.subrange(line_start(text, (start - 1) as nat) as int, start - 1) + seq!['\n']
    }
}

/// The line after the one that stops at `stop`, with a line break;
/// nothing if that is the last line.
pub open spec fn line_after(text: Seq<char>, stop: nat) -> Seq<char> {
    if stop >= text.len() {
        Seq::empty()
    } else {
        text.subrange(stop as int + 1, line_stop(text, stop + 1) as int) + seq!['\n']
    }
}

/// The report for the line of `text` from `line_from` to `line_to`: the
/// line before, the line itself, a pointer line of `dashes` times `-` and
/// `carets` times `^`, and the line after, each with a line break.
pub open spec fn layout(
    text: Seq<char>,
    line_from: nat,
    line_to: nat,
    dashes: nat,
    carets: nat,
) -> Seq<char> {
    line_before(text, line_from) + text.subrange(line_from as int, line_to as int) + seq!['\n']
        + repeat('-', dashes) + repeat('^', carets) + seq!['\n'] + line_after(text, line_to)
}

/// The first character at or after `from` whose encoding ends after the
/// byte offset `offset`, or the length of the text if there is none.
pub open spec fn char_holding_from(text: Seq<char>, from: nat, offset: nat) -> nat
    decreases text.len() - from,
{
    if from >= text.len() {
        text.len()
    } else if offset < bytes_before(text, from + 1) {
        from
    } else {
        char_holding_from(text, from + 1, offset)
    }
}

/// The character that holds the byte at `offset` of the UTF-8 encoding of
/// `text`, or the length of the text if the encoding is shorter.
pub open spec fn char_holding(text: Seq<char>, offset: nat) -> nat {
    char_holding_from(text, 0, offset)
}

/// The bytes from `start` to `end` of the encoding of `text` can be
/// reported: they lie within the encoding, and `start` lies on the line
/// that holds `end`, not before it.
pub open spec fn reportable(text: Seq<char>, start: nat, end: nat) -> bool {
    &&& start <= end < byte_len(text)
    &&& bytes_before(text, line_start(text, char_holding(text, end))) <= start
}

/// The report for the bytes from `start` to `end`, both included, of the
/// UTF-8 encoding of `text`: the line that holds the byte at `end`
/// between the lines before and after it, with a pointer line under it
/// that has a `-` for each byte of the line before `start` and a `^` for
/// each byte from `start` to `end`.
pub open spec fn report_text(text: Seq<char>, start: nat, end: nat) -> Seq<char> {
    let line_from = line_start(text, char_holding(text, end));
    let line_to = line_stop(text, char_holding(text, end));
    layout(
        text,
        line_from,
        line_to,
        (start - bytes_before(text, line_from)) as nat,
        (1 + end - start) as nat,
    )
}

/// The characters from `start` to `end` of `text` can be reported: they
/// lie within the text, and `start` lies on the line that holds `end`.
pub open spec fn reportable_characters(text: Seq<char>, start: nat, end: nat) -> bool {
    start <= end < text.len() && line_start(text, end) <= start
}

/// The report for the characters from `start` to `end`, both included:
/// as [`report_text`], with characters counted in place of bytes.
pub open spec fn report_text_characters(text: Seq<char>, start: nat, end: nat) -> Seq<char> {
    layout(
        text,
        line_start(text, end),
        line_stop(text, end),
        (start - line_start(text, end)) as nat,
        (1 + end - start) as nat,
    )
}

/// Where the search for the character that holds a byte ends: at a
/// character whose bytes hold the offset, or at the end of a text whose
/// encoding is too short.
pub proof fn lemma_char_holding(text: Seq<char>, from: nat, offset: nat)
    requires
        from <= text.len(),
        bytes_before(text, from) <= offset,
    ensures
        from <= char_holding_from(text, from, offset) <= text.len(),
        char_holding_from(text, from, offset) < text.len() ==> bytes_before(
            text,
            char_holding_from(text, from, offset),
        ) <= offset < bytes_before(text, char_holding_from(text, from, offset) + 1),
        char_holding_from(text, from, offset) < text.len() <==> offset < byte_len(text),
    decreases text.len() - from,
{
    if from < text.len() {
        lemma_bytes_before_grows(text, from + 1, text.len());
        if offset >= bytes_before(text, from + 1) {
            lemma_char_holding(text, from + 1, offset);
        }
    }
}

fn breaks(c: char) -> (r: bool)
    ensures
        r == is_break(c),
{
    c == '\n' || c == '\r'
}

fn find_line_start(text: &Vec<char>, pos: usize) -> (r: usize)
    requires
        pos <= text@.len(),
    ensures
        r == line_start(text@, pos as nat),
        r <= pos,
{
    let mut i = pos;
    while i > 0 && !breaks(text[i - 1])
        invariant
            i <= pos <= text@.len(),
            line_start(text@, i as nat) == line_start(text@, pos as nat),
        decreases i,
    {
        i = i - 1;
    }
    i
}

fn find_line_stop(text: &Vec<char>, pos: usize) -> (r: usize)
    requires
        pos <= text@.len(),
    ensures
        r == line_stop(text@, pos as nat),
        pos <= r <= text@.len(),
{
    let mut i = pos;
    while i < text.len() && !breaks(text[i])
        invariant
            pos <= i <= text@.len(),
            line_stop(text@, i as nat) == line_stop(text@, pos as nat),
        decreases text@.len() - i,
    {
        i = i + 1;
    }
    i
}

/// Appends the characters of `text` from `from` to `to`.
fn push_range(out: &mut String, text: &Vec<char>, from: usize, to: usize)
    requires
        from <= to <= text@.len(),
    ensures
        final(out)@ == old(out)@ + text@.subrange(from as int, to as int),
{
    let mut i = from;
    assert(text@.subrange(from as int, from as int) =~= Seq::empty());
    assert(out@ + Seq::<char>::empty() =~= out@);
    while i < to
        invariant
            from <= i <= to <= text@.len(),
            out@ == old(out)@ + text@.subrange(from as int, i as int),
        decreases to - i,
    {
        push_char(out, text[i]);
        i = i + 1;
        assert(old(out)@ + text@.subrange(from as int, i as int) =~= (old(out)@ + text@.subrange(
            from as int,
            i - 1,
        )).push(text@[i - 1]));
    }
}

/// Appends `n` times the character `c`.
fn push_repeat(out: &mut String, c: char, n: usize)
    ensures
        final(out)@ == old(out)@ + repeat(c, n as nat),
{
    let mut i: usize = 0;
    assert(out@ + repeat(c, 0) =~= out@);
    while i < n
        invariant
            i <= n,
            out@ == old(out)@ + repeat(c, i as nat),
        decreases n - i,
    {
        push_char(out, c);
        i = i + 1;
        assert(old(out)@ + repeat(c, i as nat) =~= (old(out)@ + repeat(c, (i - 1) as nat)).push(c));
    }
}

/// The character that holds the byte at `offset`.
fn find_char(text: &Vec<char>, offset: usize) -> (k: usize)
    ensures
        k == char_holding(text@, offset as nat),
        k <= text@.len(),
        k < text@.len() <==> offset < byte_len(text@),
{
    let mut k: usize = 0;
    let mut passed: usize = 0;
    proof {
        lemma_char_holding(text@, 0, offset as nat);
    }
    while k < text.len()
        invariant
            k <= text@.len(),
            passed == bytes_before(text@, k as nat),
            passed <= offset,
            char_holding_from(text@, k as nat, offset as nat) == char_holding(text@, offset as nat),
            char_holding(text@, offset as nat) < text@.len() <==> offset < byte_len(text@),
        decreases text@.len() - k,
    {
        let width = utf8_len(text[k]);
        if width > offset - passed {
            return k;
        }
        passed = passed + width;
        k = k + 1;
    }
    k
}

/// The number of bytes of the first `count` characters, if it is no more
/// than `limit`.
fn bytes_within(text: &Vec<char>, count: usize, limit: usize) -> (r: Option<usize>)
    requires
        count <= text@.len(),
    ensures
        match r {
            Some(bytes) => bytes == bytes_before(text@, count as nat) && bytes <= limit,
            None => bytes_before(text@, count as nat) > limit,
        },
{
    let mut i: usize = 0;
    let mut passed: usize = 0;
    while i < count
        invariant
            i <= count <= text@.len(),
            passed == bytes_before(text@, i as nat),
            passed <= limit,
        decreases count - i,
    {
        let width = utf8_len(text[i]);
        if width > limit - passed {
            proof {
                lemma_bytes_before_grows(text@, (i + 1) as nat, count as nat);
            }
            return None;
        }
        passed = passed + width;
        i = i + 1;
    }
    Some(passed)
}

/// Builds the report for the line from `line_from` to `line_to` with a
/// pointer of `dashes` times `-` and one more than `span` times `^`.
fn build_report(text: &Vec<char>, line_from: usize, line_to: usize, dashes: usize, span: usize)
    -> (r: String)
    requires
        line_from <= line_to <= text@.len(),
    ensures
        r@ == layout(text@, line_from as nat, line_to as nat, dashes as nat, (span + 1) as nat),
{
    let mut out = String::new();
    if line_from > 0 {
        let before_from = find_line_start(text, line_from - 1);
        push_range(&mut out, text, before_from, line_from - 1);
        push_char(&mut out, '\n');
    }
    assert(out@ =~= line_before(text@, line_from as nat));
    push_range(&mut out, text, line_from, line_to);
    push_char(&mut out, '\n');
    push_repeat(&mut out, '-', dashes);
    push_repeat(&mut out, '^', span);
    push_char(&mut out, '^');
    assert(repeat('^', span as nat).push('^') =~= repeat('^', (span + 1) as nat));
    push_char(&mut out, '\n');
    let ghost so_far = out@;
    if line_to < text.len() {
        let after_to = find_line_stop(text, line_to + 1);
        push_range(&mut out, text, line_to + 1, after_to);
        push_char(&mut out, '\n');
    }
    assert(out@ =~= so_far + line_after(text@, line_to as nat));
    out
}

/// As [`report`], for any span: `None` where the span does not lie
/// within the text with its start on the line of its end.
pub fn try_report(error_message: &str, input: &str, start: usize, end: usize) -> (r: Option<
    String,
>)
    ensures
        match r {
            Some(text) => reportable(input@, start as nat, end as nat) && text@ == report_text(
                input@,
                start as nat,
                end as nat,
            ),
            None => !reportable(input@, start as nat, end as nat),
        },
{
    let text = chars_of_str(input);
    if start > end {
        return None;
    }
    let holder = find_char(&text, end);
    if holder >= text.len() {
        return None;
    }
    let line_from = find_line_start(&text, holder);
    let line_to = find_line_stop(&text, holder);
    match bytes_within(&text, line_from, start) {
        Some(before) => Some(
            build_report(&text, line_from, line_to, start - before, end - start),
        ),
        None => None,
    }
}

/// Renders the place of an error in `input`, given as the byte offsets
/// `start` and `end` of its first and last byte: the line that holds the
/// byte at `end`, a pointer under the bytes from `start` to `end`, and the
/// lines before and after, where there are any. The span must lie within
/// the text, with its start on the line of its end. The message is not
/// part of the report.
pub fn report(error_message: &str, input: &str, start: usize, end: usize) -> (r: String)
    requires
        reportable(input@, start as nat, end as nat),
    ensures
        r@ == report_text(input@, start as nat, end as nat),
{
    match try_report(error_message, input, start, end) {
        Some(text) => text,
        None => String::new(),
    }
}

/// As [`report_characters`], for any span: `None` where the span does not
/// lie within the text and on one line.
pub fn try_report_characters(error_message: &str, input: &str, start: usize, end: usize) -> (r:
    Option<String>)
    ensures
        match r {
            Some(text) => reportable_characters(input@, start as nat, end as nat) && text@
                == report_text_characters(input@, start as nat, end as nat),
            None => !reportable_characters(input@, start as nat, end as nat),
        },
{
    let text = chars_of_str(input);
    if start > end || end >= text.len() {
        return None;
    }
    let line_from = find_line_start(&text, end);
    if line_from > start {
        return None;
    }
    let line_to = find_line_stop(&text, end);
    Some(build_report(&text, line_from, line_to, start - line_from, end - start))
}

/// Renders the place of an error in `input`, given as the positions of
/// its first and last character, as the parser counts them: as
/// [`report`], with characters in place of bytes.
pub fn report_characters(error_message: &str, input: &str, start: usize, end: usize) -> (r: String)
    requires
        reportable_characters(input@, start as nat, end as nat),
    ensures
        r@ == report_text_characters(input@, start as nat, end as nat),
{
    match try_report_characters(error_message, input, start, end) {
        Some(text) => text,
        None => String::new(),
    }
}

} // verus!
