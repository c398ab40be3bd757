//! Byte strings cut at a separator: the model of `split` on text, and the
//! scanning routines that the command interpreter is built from.

use vstd::prelude::*;
use vstd::string::*;
use vstd::utf8::*;

verus! {

/// The line feed, which ends a line.
pub const NEWLINE: u8 = 10;

/// The space, which parts words.
pub const SPACE: u8 = 32;

/// `@`, which starts a mention.
pub const AT_SIGN: u8 = 64;

/// The position of the first `sep` in `s`; `s.len()` when `s` holds none.
pub open spec fn first_index(s: Seq<u8>, sep: u8) -> int
    decreases s.len(),
{
    if s.len() == 0 || s[0] == sep {
        0
    } else {
        1 + first_index(s.drop_first(), sep)
    }
}

/// The pieces of `s` that lie between the occurrences of `sep`, in order.
/// There is always at least one piece, and pieces may be empty.
pub open spec fn split(s: Seq<u8>, sep: u8) -> Seq<Seq<u8>>
    decreases s.len(),
{
    let i = first_index(s, sep);
    if 0 <= i < s.len() {
        seq![s.take(i)] + split(s.skip(i + 1), sep)
    } else {
        seq![s]
    }
}

/// `first_index` is the one position that has no `sep` before it and either
/// a `sep` at it or the end of `s`.
pub proof fn lemma_first_index(s: Seq<u8>, sep: u8, i: int)
    requires
        0 <= i <= s.len(),
        forall|k: int| 0 <= k < i ==> s[k] != sep,
        i < s.len() ==> s[i] == sep,
    ensures
        first_index(s, sep) == i,
    decreases s.len(),
{
    if i > 0 {
        lemma_first_index(s.drop_first(), sep, i - 1);
    }
}

/// What `first_index` finds: a position within `s`, nothing equal to `sep`
/// before it, and `sep` at it unless it is the end.
pub proof fn lemma_first_index_found(s: Seq<u8>, sep: u8)
    ensures
        0 <= first_index(s, sep) <= s.len(),
        forall|k: int| 0 <= k < first_index(s, sep) ==> s[k] != sep,
        first_index(s, sep) < s.len() ==> s[first_index(s, sep)] == sep,
    decreases s.len(),
{
    if !(s.len() == 0 || s[0] == sep) {
        let rest = s.drop_first();
        lemma_first_index_found(rest, sep);
        assert forall|k: int| 0 <= k < first_index(s, sep) implies s[k] != sep by {
            if k > 0 {
                assert(s[k] == rest[k - 1]);
            }
        }
        if first_index(s, sep) < s.len() {
            assert(s[first_index(s, sep)] == rest[first_index(rest, sep)]);
        }
    }
}

/// `split` puts first what stands before the first separator.
pub proof fn lemma_split_head(s: Seq<u8>, sep: u8)
    ensures
        split(s, sep).len() >= 1,
        split(s, sep)[0] == s.take(first_index(s, sep)),
        first_index(s, sep) < s.len() ==> split(s, sep).drop_first() == split(
            s.skip(first_index(s, sep) + 1),
            sep,
        ),
        first_index(s, sep) >= s.len() ==> split(s, sep).len() == 1,
{
    lemma_first_index_found(s, sep);
    let i = first_index(s, sep);
    if i < s.len() {
        let tail = split(s.skip(i + 1), sep);
        assert((seq![s.take(i)] + tail).drop_first() =~= tail);
    } else {
        assert(s.take(i) =~= s);
    }
}

/// The second piece of `s`, when `s` holds a separator: what stands between
/// the first separator and the next, or the end.
pub proof fn lemma_split_second(s: Seq<u8>, sep: u8)
    requires
        first_index(s, sep) < s.len(),
    ensures
        split(s, sep).len() >= 2,
        split(s, sep)[1] == s.subrange(
            first_index(s, sep) + 1,
            first_index(s, sep) + 1 + first_index(s.skip(first_index(s, sep) + 1), sep),
        ),
{
    lemma_first_index_found(s, sep);
    lemma_split_head(s, sep);
    let from = first_index(s, sep) + 1;
    let rest = s.skip(from);
    lemma_first_index_found(rest, sep);
    lemma_split_head(rest, sep);
    assert(split(s, sep)[1] == split(s, sep).drop_first()[0]);
    assert(rest.take(first_index(rest, sep)) =~= s.subrange(from, from + first_index(rest, sep)));
}

/// Text of ASCII characters is encoded byte for byte.
pub proof fn lemma_ascii_bytes(text: Seq<char>, bytes: Seq<u8>)
    requires
        is_ascii_chars(text),
        text.len() == bytes.len(),
        forall|i: int| 0 <= i < text.len() ==> #[trigger] text[i] as u8 == bytes[i],
    ensures
        encode_utf8(text) == bytes,
{
    is_ascii_chars_encode_utf8(text);
    assert(encode_utf8(text) =~= bytes);
}

/// The index of the first `sep` at or after `from`, or `bytes.len()`.
pub(crate) fn find_byte(bytes: &[u8], from: usize, sep: u8) -> (at: usize)
    requires
        from <= bytes.len(),
    ensures
        at == from + first_index(bytes@.skip(from as int), sep),
        from <= at <= bytes.len(),
{
    let mut at: usize = from;
    while at < bytes.len() && bytes[at] != sep
        invariant
            from <= at <= bytes.len(),
            forall|k: int| from <= k < at ==> bytes@[k] != sep,
        decreases bytes.len() - at,
    {
        at = at + 1;
    }
    proof {
        lemma_first_index(bytes@.skip(from as int), sep, at - from);
    }
    at
}

/// Whether `word` stands in `bytes` from position `at` on.
pub fn holds_at(bytes: &[u8], at: usize, word: &[u8]) -> (found: bool)
    ensures
        found == (at + word@.len() <= bytes@.len() && bytes@.subrange(
            at as int,
            at + word@.len(),
        ) == word@),
{
    if word.len() > bytes.len() || at > bytes.len() - word.len() {
        return false;
    }
    let mut k: usize = 0;
    while k < word.len()
        invariant
            k <= word.len(),
            at + word.len() <= bytes.len(),
            forall|j: int| 0 <= j < k ==> bytes@[at + j] == word@[j],
        decreases word.len() - k,
    {
        if bytes[at + k] != word[k] {
            assert(bytes@.subrange(at as int, at + word@.len())[k as int] != word@[k as int]);
            return false;
        }
        k = k + 1;
    }
    assert(bytes@.subrange(at as int, at + word@.len()) =~= word@);
    true
}

/// Whether two texts are the same, character for character.
pub fn same_text(a: &str, b: &str) -> (same: bool)
    ensures
        same == (a@ == b@),
{
    let x = a.as_bytes();
    let y = b.as_bytes();
    proof {
        encode_utf8_decode_utf8(a@);
        encode_utf8_decode_utf8(b@);
        assert(x@.len() == y@.len() ==> x@.subrange(0, y@.len() as int) =~= x@);
    }
    x.len() == y.len() && holds_at(x, 0, y)
}

} // verus!
