//! Byte-string primitives shared by the probe parsers: substring search,
//! splitting at a delimiter, line iteration and unsigned decimal numbers.
//!
//! Probe output is handled as raw bytes. Patterns are written as string
//! literals and compared through their UTF-8 encoding.

use vstd::prelude::*;
use vstd::slice::*;
use vstd::string::*;

verus! {

/// The bytes of a string.
pub open spec fn text(s: &str) -> Seq<u8> {
    s.spec_bytes()
}

/// `needle` stands in `hay` at offset `i`.
pub open spec fn occurs_at(hay: Seq<u8>, needle: Seq<u8>, i: int) -> bool {
    &&& 0 <= i
    &&& i + needle.len() <= hay.len()
    &&& hay.subrange(i, i + needle.len()) == needle
}

/// `needle` occurs somewhere in `hay`.
pub open spec fn contains(hay: Seq<u8>, needle: Seq<u8>) -> bool {
    exists|i: int| occurs_at(hay, needle, i)
}

/// `needle` stands in `hay` at offset `i` and at no smaller offset.
pub open spec fn is_first_occurrence(hay: Seq<u8>, needle: Seq<u8>, i: int) -> bool {
    &&& occurs_at(hay, needle, i)
    &&& forall|j: int| 0 <= j < i ==> !occurs_at(hay, needle, j)
}

/// The smallest offset at which `needle` stands in `hay`.
pub open spec fn first_occurrence(hay: Seq<u8>, needle: Seq<u8>) -> Option<int> {
    if contains(hay, needle) {
        Some(choose|i: int| is_first_occurrence(hay, needle, i))
    } else {
        None
    }
}

/// `hay` begins with `prefix`.
pub open spec fn has_prefix(hay: Seq<u8>, prefix: Seq<u8>) -> bool {
    occurs_at(hay, prefix, 0)
}

/// `hay` ends with `suffix`.
pub open spec fn has_suffix(hay: Seq<u8>, suffix: Seq<u8>) -> bool {
    occurs_at(hay, suffix, hay.len() - suffix.len())
}

/// What stands before and after the first occurrence of `delim`.
pub open spec fn split_once(hay: Seq<u8>, delim: Seq<u8>) -> Option<(Seq<u8>, Seq<u8>)> {
    match first_occurrence(hay, delim) {
        Some(i) => Some((hay.take(i), hay.skip(i + delim.len()))),
        None => None,
    }
}

/// What follows the first occurrence of `delim`.
pub open spec fn after_first(hay: Seq<u8>, delim: Seq<u8>) -> Option<Seq<u8>> {
    match split_once(hay, delim) {
        Some(parts) => Some(parts.1),
        None => None,
    }
}

/// `hay` without one leading `prefix`, if it has one.
pub open spec fn without_prefix(hay: Seq<u8>, prefix: Seq<u8>) -> Seq<u8> {
    if has_prefix(hay, prefix) {
        hay.skip(prefix.len() as int)
    } else {
        hay
    }
}

/// `hay` without one trailing `suffix`, if it has one.
pub open spec fn without_suffix(hay: Seq<u8>, suffix: Seq<u8>) -> Seq<u8> {
    if has_suffix(hay, suffix) {
        hay.take(hay.len() - suffix.len())
    } else {
        hay
    }
}

/// An offset that satisfies `is_first_occurrence` is the one that
/// `first_occurrence` names.
pub proof fn lemma_first_occurrence_unique(hay: Seq<u8>, needle: Seq<u8>, i: int)
    requires
        is_first_occurrence(hay, needle, i),
    ensures
        first_occurrence(hay, needle) == Some(i),
{
    assert(occurs_at(hay, needle, i));
    let c = choose|c: int| is_first_occurrence(hay, needle, c);
    assert(is_first_occurrence(hay, needle, c));
    if c < i {
        assert(!occurs_at(hay, needle, c));
    }
    if i < c {
        assert(!occurs_at(hay, needle, i));
    }
}

/// Whether `needle` stands in `hay` at offset `i`.
pub fn matches_at(hay: &[u8], needle: &[u8], i: usize) -> (found: bool)
    ensures
        found == occurs_at(hay@, needle@, i as int),
{
    if needle.len() > hay.len() || i > hay.len() - needle.len() {
        return false;
    }
    let mut k: usize = 0;
    while k < needle.len()
        invariant
            k <= needle.len(),
            i + needle.len() <= hay.len(),
            forall|j: int| 0 <= j < k ==> hay@[i + j] == needle@[j],
        decreases needle.len() - k,
    {
        if hay[i + k] != needle[k] {
            proof {
                let window = hay@.subrange(i as int, i + needle.len());
                assert(window[k as int] == hay@[i + k]);
            }
            return false;
        }
        k += 1;
    }
    assert(hay@.subrange(i as int, i + needle.len()) =~= needle@);
    true
}

/// The offset of the first occurrence of `needle` in `hay`.
pub fn find(hay: &[u8], needle: &[u8]) -> (at: Option<usize>)
    ensures
        match at {
            Some(i) => first_occurrence(hay@, needle@) == Some(i as int) && i + needle@.len()
                <= hay@.len(),
            None => first_occurrence(hay@, needle@) is None,
        },
{
    if needle.len() > hay.len() {
        return None;
    }
    let last: usize = hay.len() - needle.len();
    let mut i: usize = 0;
    loop
        invariant
            last + needle.len() == hay.len(),
            i <= last,
            forall|j: int| 0 <= j < i ==> !occurs_at(hay@, needle@, j),
        ensures
            i == last,
            forall|j: int| 0 <= j <= last ==> !occurs_at(hay@, needle@, j),
        decreases last - i,
    {
        if matches_at(hay, needle, i) {
            proof {
                lemma_first_occurrence_unique(hay@, needle@, i as int);
            }
            return Some(i);
        }
        if i == last {
            break;
        }
        i += 1;
    }
    None
}

/// Whether `needle` occurs in `hay`.
pub fn has(hay: &[u8], needle: &[u8]) -> (found: bool)
    ensures
        found == contains(hay@, needle@),
{
    find(hay, needle).is_some()
}

/// Whether `hay` begins with `prefix`.
pub fn starts_with(hay: &[u8], prefix: &[u8]) -> (found: bool)
    ensures
        found == has_prefix(hay@, prefix@),
{
    matches_at(hay, prefix, 0)
}

/// Whether `hay` ends with `suffix`.
pub fn ends_with(hay: &[u8], suffix: &[u8]) -> (found: bool)
    ensures
        found == has_suffix(hay@, suffix@),
{
    if suffix.len() > hay.len() {
        return false;
    }
    matches_at(hay, suffix, hay.len() - suffix.len())
}

/// Splits `hay` at the first occurrence of `delim`.
pub fn split_at_first<'a>(hay: &'a [u8], delim: &[u8]) -> (parts: Option<(&'a [u8], &'a [u8])>)
    ensures
        match parts {
            Some(p) => split_once(hay@, delim@) == Some((p.0@, p.1@)),
            None => split_once(hay@, delim@) is None,
        },
{
    match find(hay, delim) {
        Some(i) => {
            let end = hay.len();
            let head = slice_subrange(hay, 0, i);
            let tail = slice_subrange(hay, i + delim.len(), end);
            Some((head, tail))
        },
        None => None,
    }
}

/// What follows the first occurrence of `delim` in `hay`.
pub fn value_after<'a>(hay: &'a [u8], delim: &[u8]) -> (value: Option<&'a [u8]>)
    ensures
        match value {
            Some(v) => after_first(hay@, delim@) == Some(v@),
            None => after_first(hay@, delim@) is None,
        },
{
    match split_at_first(hay, delim) {
        Some(parts) => Some(parts.1),
        None => None,
    }
}

/// Removes one leading `prefix` from `hay`, if it has one.
pub fn strip_prefix<'a>(hay: &'a [u8], prefix: &[u8]) -> (rest: &'a [u8])
    ensures
        rest@ == without_prefix(hay@, prefix@),
{
    if starts_with(hay, prefix) {
        slice_subrange(hay, prefix.len(), hay.len())
    } else {
        hay
    }
}

/// Removes one trailing `suffix` from `hay`, if it has one.
pub fn strip_suffix<'a>(hay: &'a [u8], suffix: &[u8]) -> (rest: &'a [u8])
    ensures
        rest@ == without_suffix(hay@, suffix@),
{
    if ends_with(hay, suffix) {
        slice_subrange(hay, 0, hay.len() - suffix.len())
    } else {
        hay
    }
}

/// The number of bytes that stand before the first line feed of `text`:
/// all of them where it has none.
pub open spec fn line_len(text: Seq<u8>) -> int
    decreases text.len(),
{
    if text.len() == 0 || text[0] == 10u8 {
        0
    } else {
        1 + line_len(text.drop_first())
    }
}

/// The first line of `text`, without the line feed that ends it and without
/// a carriage return that stands directly before that line feed.
pub open spec fn first_line(text: Seq<u8>) -> Seq<u8> {
    let n = line_len(text);
    if 0 < n < text.len() && text[n - 1] == 13u8 {
        text.take(n - 1)
    } else {
        text.take(n)
    }
}

/// What follows the first line of `text` and its line feed.
pub open spec fn after_first_line(text: Seq<u8>) -> Seq<u8> {
    let n = line_len(text);
    if n < text.len() {
        text.skip(n + 1)
    } else {
        Seq::empty()
    }
}

/// The lines of `text`. A line feed ends a line; a last line need not have
/// one, and text that ends in a line feed has no empty line after it.
pub open spec fn lines(text: Seq<u8>) -> Seq<Seq<u8>>
    decreases text.len(),
    via lines_decreases
{
    if text.len() == 0 {
        Seq::empty()
    } else {
        seq![first_line(text)] + lines(after_first_line(text))
    }
}

#[via_fn]
proof fn lines_decreases(text: Seq<u8>) {
    if text.len() != 0 {
        lemma_line_len_bounds(text);
    }
}

/// `line_len` lies within the text, and names a line feed unless it names
/// the end.
pub proof fn lemma_line_len_bounds(text: Seq<u8>)
    ensures
        0 <= line_len(text) <= text.len(),
        line_len(text) < text.len() ==> text[line_len(text)] == 10u8,
        forall|k: int| 0 <= k < line_len(text) ==> text[k] != 10u8,
    decreases text.len(),
{
    if !(text.len() == 0 || text[0] == 10u8) {
        let rest = text.drop_first();
        lemma_line_len_bounds(rest);
        assert forall|k: int| 0 <= k < line_len(text) implies text[k] != 10u8 by {
            if k > 0 {
                assert(text[k] == rest[k - 1]);
            }
        }
    }
}

/// An offset with no line feed before it, which is the end or holds a line
/// feed, is `line_len`.
pub proof fn lemma_line_len_is(text: Seq<u8>, n: int)
    requires
        0 <= n <= text.len(),
        forall|k: int| 0 <= k < n ==> text[k] != 10u8,
        n < text.len() ==> text[n] == 10u8,
    ensures
        line_len(text) == n,
    decreases text.len(),
{
    if n > 0 {
        let rest = text.drop_first();
        assert forall|k: int| 0 <= k < n - 1 implies rest[k] != 10u8 by {
            assert(rest[k] == text[k + 1]);
        }
        lemma_line_len_is(rest, n - 1);
    }
}

/// Reads the line that starts at `pos`: the line, and the offset at which
/// the next one starts.
pub fn next_line<'a>(text: &'a [u8], pos: usize) -> (read: (&'a [u8], usize))
    requires
        pos < text@.len(),
    ensures
        pos < read.1 <= text@.len(),
        read.0@ == first_line(text@.skip(pos as int)),
        text@.skip(read.1 as int) == after_first_line(text@.skip(pos as int)),
        lines(text@.skip(pos as int)) == seq![read.0@] + lines(text@.skip(read.1 as int)),
{
    let len = text.len();
    let ghost tail = text@.skip(pos as int);
    let mut end: usize = pos;
    while end < len && text[end] != 10u8
        invariant
            pos <= end <= len,
            len == text@.len(),
            forall|k: int| pos <= k < end ==> text@[k] != 10u8,
        decreases len - end,
    {
        end += 1;
    }
    proof {
        assert forall|k: int| 0 <= k < end - pos implies tail[k] != 10u8 by {
            assert(tail[k] == text@[pos + k]);
        }
        lemma_line_len_is(tail, end - pos);
    }
    let feed = end < len;
    let stop: usize = if feed && end > pos && text[end - 1] == 13u8 {
        (end - 1) as usize
    } else {
        end
    };
    let next: usize = if feed {
        (end + 1) as usize
    } else {
        end
    };
    let line = slice_subrange(text, pos, stop);
    proof {
        assert(line@ =~= first_line(tail));
        assert(text@.skip(next as int) =~= after_first_line(tail));
    }
    (line, next)
}

/// An ASCII decimal digit.
pub open spec fn is_digit(b: u8) -> bool {
    48 <= b <= 57
}

/// Every byte of `s` is a decimal digit.
pub open spec fn all_digits(s: Seq<u8>) -> bool {
    forall|i: int| 0 <= i < s.len() ==> is_digit(#[trigger] s[i])
}

/// The number that the decimal digits `s` write.
pub open spec fn digits_value(s: Seq<u8>) -> nat
    decreases s.len(),
{
    if s.len() == 0 {
        0
    } else {
        digits_value(s.drop_last()) * 10 + (s.last() - 48) as nat
    }
}

/// The number that `s` writes, where `s` is one or more decimal digits and
/// the number is at most `limit`.
pub open spec fn number(s: Seq<u8>, limit: nat) -> Option<nat> {
    if s.len() > 0 && all_digits(s) && digits_value(s) <= limit {
        Some(digits_value(s))
    } else {
        None
    }
}

/// A prefix of a digit string writes no larger a number than the whole.
pub proof fn lemma_digits_value_prefix(s: Seq<u8>, k: int)
    requires
        all_digits(s),
        0 <= k <= s.len(),
    ensures
        digits_value(s.take(k)) <= digits_value(s),
    decreases s.len() - k,
{
    if k < s.len() {
        let longer = s.take(k + 1);
        assert(longer.drop_last() =~= s.take(k));
        assert(is_digit(s[k]));
        assert(longer.last() == s[k]);
        lemma_digits_value_prefix(s, k + 1);
    } else {
        assert(s.take(k) =~= s);
    }
}

/// Reads an unsigned decimal number of at most `limit`.
pub fn parse_number(s: &[u8], limit: u64) -> (value: Option<u64>)
    ensures
        match value {
            Some(v) => number(s@, limit as nat) == Some(v as nat),
            None => number(s@, limit as nat) is None,
        },
{
    let len = s.len();
    if len == 0 {
        return None;
    }
    let mut acc: u64 = 0;
    let mut i: usize = 0;
    while i < len
        invariant
            i <= len,
            len == s@.len(),
            all_digits(s@.take(i as int)),
            acc == digits_value(s@.take(i as int)),
            acc <= limit,
        decreases len - i,
    {
        let b = s[i];
        if b < 48 || b > 57 {
            assert(!is_digit(s@[i as int]));
            return None;
        }
        let d: u64 = (b - 48) as u64;
        proof {
            let longer = s@.take(i + 1);
            assert(longer.drop_last() =~= s@.take(i as int));
            assert(longer.last() == b);
            assert forall|j: int| 0 <= j < longer.len() implies is_digit(#[trigger] longer[j]) by {
                if j < i {
                    assert(longer[j] == s@.take(i as int)[j]);
                }
            }
            if acc * 10 + d > limit {
                if all_digits(s@) {
                    lemma_digits_value_prefix(s@, i + 1);
                }
            }
        }
        if d > limit || acc > (limit - d) / 10 {
            return None;
        }
        acc = acc * 10 + d;
        i += 1;
    }
    assert(s@.take(len as int) =~= s@);
    Some(acc)
}

} // verus!
