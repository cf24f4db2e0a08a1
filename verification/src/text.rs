//! Character sequences: the spec-level vocabulary for joining text, and the
//! executable helpers that build strings to match it.

use vstd::prelude::*;
use vstd::std_specs::iter::IteratorSpec;
use vstd::utf8::{char_is_scalar, encode_scalar, encode_utf8};

verus! {

/// The pieces of `parts`, one after the other.
pub open spec fn concat(parts: Seq<Seq<char>>) -> Seq<char>
    decreases parts.len(),
{
    if parts.len() == 0 {
        Seq::empty()
    } else {
        concat(parts.drop_last()) + parts.last()
    }
}

/// The pieces of `parts` with `sep` between each two neighbours.
pub open spec fn join(parts: Seq<Seq<char>>, sep: Seq<char>) -> Seq<char>
    decreases parts.len(),
{
    if parts.len() == 0 {
        Seq::empty()
    } else if parts.len() == 1 {
        parts[0]
    } else {
        join(parts.drop_last(), sep) + sep + parts.last()
    }
}

/// The text of each string of `names`.
pub open spec fn string_texts(names: Seq<String>) -> Seq<Seq<char>> {
    Seq::new(names.len(), |i: int| names[i]@)
}

/// `n` spaces.
pub open spec fn spaces(n: nat) -> Seq<char> {
    Seq::new(n, |i: int| ' ')
}

/// Taking one more piece extends the concatenation by that piece.
pub proof fn lemma_concat_step(parts: Seq<Seq<char>>, i: int)
    requires
        0 <= i < parts.len(),
    ensures
        concat(parts.take(i + 1)) == concat(parts.take(i)) + parts[i],
{
    assert(parts.take(i + 1).drop_last() =~= parts.take(i));
}

/// Taking one more piece extends the joined text by the separator, unless
/// the piece is the first, and by the piece.
pub proof fn lemma_join_step(parts: Seq<Seq<char>>, sep: Seq<char>, i: int)
    requires
        0 <= i < parts.len(),
    ensures
        join(parts.take(i + 1), sep) == if i == 0 {
            parts[i]
        } else {
            join(parts.take(i), sep) + sep + parts[i]
        },
{
    assert(parts.take(i + 1).drop_last() =~= parts.take(i));
}

/// Appends one character to a string. Calls `String::push`, which the
/// standard library documents as appending the given character to the end
/// of the string.
#[verifier::external_body]
pub(crate) fn push_char(s: &mut String, c: char)
    ensures
        final(s)@ == old(s)@.push(c),
{
    s.push(c)
}

/// The number of bytes that the UTF-8 encoding of `c` takes.
pub open spec fn utf8_width(c: char) -> nat {
    encode_scalar(c as u32).len()
}

/// The number of bytes that the UTF-8 encoding of the first `count`
/// characters of `text` takes.
pub open spec fn bytes_before(text: Seq<char>, count: nat) -> nat
    decreases count,
{
    if count == 0 || count > text.len() {
        0
    } else {
        bytes_before(text, (count - 1) as nat) + utf8_width(text[count - 1])
    }
}

/// The number of bytes that the UTF-8 encoding of `text` takes.
pub open spec fn byte_len(text: Seq<char>) -> nat {
    bytes_before(text, text.len())
}

/// More characters take no fewer bytes.
pub proof fn lemma_bytes_before_grows(text: Seq<char>, fewer: nat, more: nat)
    requires
        fewer <= more <= text.len(),
    ensures
        bytes_before(text, fewer) <= bytes_before(text, more),
    decreases more,
{
    if fewer < more {
        lemma_bytes_before_grows(text, fewer, (more - 1) as nat);
    }
}

/// One character more at the end adds the bytes of its encoding.
pub proof fn lemma_encode_push(text: Seq<char>, c: char)
    ensures
        encode_utf8(text.push(c)).len() == encode_utf8(text).len() + utf8_width(c),
    decreases text.len(),
{
    if text.len() == 0 {
        assert(text.push(c).drop_first() =~= Seq::<char>::empty());
        assert(encode_utf8(text.push(c).drop_first()).len() == 0);
    } else {
        assert(text.push(c).drop_first() =~= text.drop_first().push(c));
        lemma_encode_push(text.drop_first(), c);
    }
}

/// The bytes counted here are those of the UTF-8 encoding: the first
/// `count` characters take as many bytes as their encoding is long.
pub proof fn lemma_bytes_before_is_encoded(text: Seq<char>, count: nat)
    requires
        count <= text.len(),
    ensures
        bytes_before(text, count) == encode_utf8(text.take(count as int)).len(),
    decreases count,
{
    if count == 0 {
        assert(text.take(0) =~= Seq::<char>::empty());
    } else {
        lemma_bytes_before_is_encoded(text, (count - 1) as nat);
        assert(text.take(count as int) =~= text.take(count - 1).push(text[count - 1]));
        lemma_encode_push(text.take(count - 1), text[count - 1]);
    }
}

/// The number of bytes of the UTF-8 encoding of `c`.
pub fn utf8_len(c: char) -> (n: usize)
    ensures
        n == utf8_width(c),
        1 <= n <= 4,
{
    proof {
        char_is_scalar(c);
    }
    let code = c as u32;
    if code < 0x80 {
        1
    } else if code < 0x800 {
        2
    } else if code < 0x10000 {
        3
    } else {
        4
    }
}

/// The characters of `s`.
pub fn chars_of_str(s: &str) -> (out: Vec<char>)
    ensures
        out@ == s@,
{
    let mut out: Vec<char> = Vec::new();
    let mut chars = s.chars();
    loop
        invariant
            chars.decrease() is Some,
            out@ + chars.remaining() == s@,
        decreases chars.decrease()->0,
    {
        let ghost before = chars.remaining();
        let ghost old_out = out@;
        match chars.next() {
            Some(c) => {
                out.push(c);
                assert(old_out.push(c) + before.drop_first() =~= old_out + before);
            },
            None => {
                assert(out@ + Seq::<char>::empty() =~= out@);
                return out;
            },
        }
    }
}

/// The strings of `names` with `sep` between each two neighbours.
pub fn join_strings(names: &Vec<String>, sep: &str) -> (r: String)
    ensures
        r@ == join(string_texts(names@), sep@),
{
    let ghost parts = string_texts(names@);
    let mut out = String::new();
    let mut i: usize = 0;
    while i < names.len()
        invariant
            i <= names.len(),
            parts == string_texts(names@),
            out@ == join(parts.take(i as int), sep@),
        decreases names.len() - i,
    {
        proof {
            lemma_join_step(parts, sep@, i as int);
        }
        if i > 0 {
            out.append(sep);
        }
        out.append(names[i].as_str());
        i = i + 1;
    }
    assert(parts.take(names.len() as int) =~= parts);
    out
}

/// `word` stands in `text` at position `at`.
pub open spec fn occurs_at(text: Seq<char>, word: Seq<char>, at: int) -> bool {
    0 <= at && at + word.len() <= text.len() && text.subrange(at, at + word.len()) == word
}

/// The number of positions before `limit` at which `word` stands in
/// `text`.
pub open spec fn occurrences_before(text: Seq<char>, word: Seq<char>, limit: nat) -> nat
    decreases limit,
{
    if limit == 0 {
        0
    } else {
        occurrences_before(text, word, (limit - 1) as nat) + if occurs_at(
            text,
            word,
            limit - 1,
        ) {
            1nat
        } else {
            0nat
        }
    }
}

/// The number of positions at which `word` stands in `text`.
pub open spec fn occurrences(text: Seq<char>, word: Seq<char>) -> nat {
    occurrences_before(text, word, text.len())
}

/// Two texts in which `word` stands at the same positions before `limit`
/// hold it equally often before `limit`.
pub proof fn lemma_occurrences_agree(a: Seq<char>, b: Seq<char>, word: Seq<char>, limit: nat)
    requires
        forall|at: int| 0 <= at < limit ==> occurs_at(a, word, at) == occurs_at(b, word, at),
    ensures
        occurrences_before(a, word, limit) == occurrences_before(b, word, limit),
    decreases limit,
{
    if limit > 0 {
        lemma_occurrences_agree(a, b, word, (limit - 1) as nat);
    }
}

/// Positions at which `word` does not stand add nothing to the count.
pub proof fn lemma_occurrences_skip(text: Seq<char>, word: Seq<char>, from: nat, limit: nat)
    requires
        from <= limit,
        forall|at: int| from <= at < limit ==> !occurs_at(text, word, at),
    ensures
        occurrences_before(text, word, limit) == occurrences_before(text, word, from),
    decreases limit - from,
{
    if from < limit {
        lemma_occurrences_skip(text, word, from, (limit - 1) as nat);
    }
}

/// A text that ends a line, followed by padding and then `word`, holds
/// `word` exactly once more than the text alone, if neither the padding
/// nor the end of the text holds a character of `word`.
pub proof fn lemma_occurrences_with_closer(prefix: Seq<char>, pad: Seq<char>, word: Seq<char>)
    requires
        word.len() > 0,
        prefix.len() > 0 ==> !word.contains(prefix.last()),
        forall|i: int| 0 <= i < pad.len() ==> !word.contains(pad[i]),
    ensures
        occurrences(prefix + pad + word, word) == occurrences(prefix, word) + 1,
{
    let whole = prefix + pad + word;
    let last: int = (prefix.len() + pad.len()) as int;
    assert forall|at: int| 0 <= at < prefix.len() implies occurs_at(whole, word, at) == occurs_at(
        prefix,
        word,
        at,
    ) by {
        if at + word.len() <= prefix.len() {
            assert(whole.subrange(at, at + word.len()) =~= prefix.subrange(at, at + word.len()));
        } else if occurs_at(whole, word, at) {
            let k = prefix.len() - 1 - at;
            assert(whole.subrange(at, at + word.len())[k] == prefix.last());
            assert(word[k] == prefix.last());
        }
    }
    lemma_occurrences_agree(whole, prefix, word, prefix.len());
    assert forall|at: int| prefix.len() <= at < last implies !occurs_at(whole, word, at) by {
        if occurs_at(whole, word, at) {
            assert(whole.subrange(at, at + word.len())[0] == pad[at - prefix.len()]);
            assert(word[0] == pad[at - prefix.len()]);
        }
    }
    lemma_occurrences_skip(whole, word, prefix.len(), last as nat);
    assert(occurs_at(whole, word, last)) by {
        assert(whole.subrange(last, last + word.len()) =~= word);
    }
    lemma_occurrences_skip(whole, word, (last + 1) as nat, whole.len());
}

/// `text` is not empty and ends with a line break.
pub open spec fn ends_line(text: Seq<char>) -> bool {
    text.len() > 0 && text.last() == '\n'
}

/// Pieces that each end a line make, one after the other, nothing or a
/// text that ends a line.
pub proof fn lemma_concat_ends_line(parts: Seq<Seq<char>>)
    requires
        forall|i: int| 0 <= i < parts.len() ==> ends_line(#[trigger] parts[i]),
    ensures
        parts.len() == 0 ==> concat(parts) == Seq::<char>::empty(),
        parts.len() > 0 ==> ends_line(concat(parts)),
    decreases parts.len(),
{
    if parts.len() > 0 {
        assert(ends_line(parts[parts.len() - 1]));
    }
}

} // verus!
