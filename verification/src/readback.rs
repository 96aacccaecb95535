//! What is written can be read back: the mastering display string that
//! the encoders are given is read by the grammar as the display that was
//! written, in steps.

use vstd::prelude::*;
use vstd::string::*;
use vstd::utf8::{encode_utf8, is_ascii_chars, is_ascii_chars_encode_utf8};
use crate::display::{
    coordinate,
    display_of,
    expected,
    five_pairs,
    leading,
    lemma_digit_run_is,
    master_display,
    pair,
    tagged,
    MasterDisplay,
};
use crate::encoder::{master_display_text, pair_text};
use crate::metadata::ColorCoordinates;
use crate::ratio::Ratio;
use crate::render::{decimal_text, digit};
use crate::text::{all_digits, digits_value, is_digit, text};

verus! {

/// The bytes of ASCII text: each character as one byte.
pub open spec fn ascii(chars: Seq<char>) -> Seq<u8> {
    Seq::new(chars.len(), |i: int| chars[i] as u8)
}

/// The decimal digits of `n` as bytes, without leading zeros.
pub open spec fn digit_string(n: nat) -> Seq<u8>
    decreases n,
{
    if n < 10 {
        seq![(48 + n) as u8]
    } else {
        digit_string(n / 10) + seq![(48 + n % 10) as u8]
    }
}

/// The bytes of `tag(a,b)`.
pub open spec fn pair_string(tag: Seq<u8>, a: nat, b: nat) -> Seq<u8> {
    tag + seq![40u8] + digit_string(a) + seq![44u8] + digit_string(b) + seq![41u8]
}

/// The UTF-8 encoding of ASCII text is the text, byte for character.
pub proof fn lemma_ascii_encoding(chars: Seq<char>)
    requires
        is_ascii_chars(chars),
    ensures
        encode_utf8(chars) == ascii(chars),
{
    is_ascii_chars_encode_utf8(chars);
    assert(encode_utf8(chars) =~= ascii(chars));
}

/// The bytes of two texts in a row are the bytes of the one, then those
/// of the other.
pub proof fn lemma_ascii_concat(a: Seq<char>, b: Seq<char>)
    ensures
        ascii(a + b) == ascii(a) + ascii(b),
        is_ascii_chars(a) && is_ascii_chars(b) ==> is_ascii_chars(a + b),
{
    assert(ascii(a + b) =~= ascii(a) + ascii(b));
    if is_ascii_chars(a) && is_ascii_chars(b) {
        assert forall|i: int| 0 <= i < (a + b).len() implies '\0' <= #[trigger] (a + b)[i]
            <= '\u{7f}' by {
            if i < a.len() {
                assert((a + b)[i] == a[i]);
            } else {
                assert((a + b)[i] == b[i - a.len()]);
            }
        }
    }
}

/// The text of a digit is the one byte of that digit.
pub proof fn lemma_digit_bytes(d: nat)
    requires
        d < 10,
    ensures
        is_ascii_chars(digit(d)),
        ascii(digit(d)) == seq![(48 + d) as u8],
{
    reveal_strlit("0");
    reveal_strlit("1");
    reveal_strlit("2");
    reveal_strlit("3");
    reveal_strlit("4");
    reveal_strlit("5");
    reveal_strlit("6");
    reveal_strlit("7");
    reveal_strlit("8");
    reveal_strlit("9");
    assert(ascii(digit(d)) =~= seq![(48 + d) as u8]);
}

/// The decimal text of a number is its digits, byte for character.
pub proof fn lemma_decimal_text_bytes(n: nat)
    ensures
        is_ascii_chars(decimal_text(n)),
        ascii(decimal_text(n)) == digit_string(n),
    decreases n,
{
    if n < 10 {
        lemma_digit_bytes(n);
    } else {
        lemma_decimal_text_bytes(n / 10);
        lemma_digit_bytes(n % 10);
        lemma_ascii_concat(decimal_text(n / 10), digit(n % 10));
    }
}

/// The digits of a number are digits, and write that number.
pub proof fn lemma_digit_string_value(n: nat)
    ensures
        digit_string(n).len() > 0,
        all_digits(digit_string(n)),
        digits_value(digit_string(n)) == n,
    decreases n,
{
    let s = digit_string(n);
    if n < 10 {
        assert(s.drop_last() =~= Seq::<u8>::empty());
        assert(digits_value(s.drop_last()) == 0);
        assert(s.last() == (48 + n) as u8);
    } else {
        let head = digit_string(n / 10);
        lemma_digit_string_value(n / 10);
        assert(s.drop_last() =~= head);
        assert(s.last() == (48 + n % 10) as u8);
        assert forall|i: int| 0 <= i < s.len() implies is_digit(#[trigger] s[i]) by {
            if i < head.len() {
                assert(s[i] == head[i]);
            }
        }
    }
}

/// The digits of a number, followed by something that is no digit, are
/// read as that number, and what follows is left over.
pub proof fn lemma_leading_digit_string(n: nat, rest: Seq<u8>)
    requires
        n <= u64::MAX,
        rest.len() == 0 || !is_digit(rest[0]),
    ensures
        leading(digit_string(n) + rest) == Some((n, rest)),
{
    let digits = digit_string(n);
    let s = digits + rest;
    lemma_digit_string_value(n);
    assert forall|k: int| 0 <= k < digits.len() implies is_digit(#[trigger] s[k]) by {
        assert(s[k] == digits[k]);
    }
    if digits.len() < s.len() {
        assert(s[digits.len() as int] == rest[0]);
    }
    lemma_digit_run_is(s, digits.len() as int);
    assert(s.take(digits.len() as int) =~= digits);
    assert(s.skip(digits.len() as int) =~= rest);
}

/// A tag at the start of the input is moved over.
pub proof fn lemma_expected_tag(tag: Seq<u8>, rest: Seq<u8>)
    ensures
        expected(tag + rest, tag) == Some(rest),
{
    let s = tag + rest;
    assert(s.subrange(0, tag.len() as int) =~= tag);
    assert(s.skip(tag.len() as int) =~= rest);
}

/// The three marks of a pair, as bytes.
pub proof fn lemma_marks()
    ensures
        text("(") == seq![40u8],
        text(",") == seq![44u8],
        text(")") == seq![41u8],
{
    reveal_strlit("(");
    reveal_strlit(",");
    reveal_strlit(")");
    is_ascii_spec_bytes("(");
    is_ascii_spec_bytes(",");
    is_ascii_spec_bytes(")");
    assert(text("(") =~= seq![40u8]);
    assert(text(",") =~= seq![44u8]);
    assert(text(")") =~= seq![41u8]);
}

/// The bytes of `tag(a,b)` are read as the pair `(a, b)` under `tag`.
pub proof fn lemma_tagged_pair_string(tag: Seq<u8>, a: nat, b: nat, rest: Seq<u8>)
    requires
        a <= u64::MAX,
        b <= u64::MAX,
    ensures
        tagged(pair_string(tag, a, b) + rest, tag) == Some(((a, b), rest)),
{
    lemma_marks();
    let s5 = seq![41u8] + rest;
    let s4 = digit_string(b) + s5;
    let s3 = seq![44u8] + s4;
    let s2 = digit_string(a) + s3;
    let s1 = seq![40u8] + s2;
    let s0 = tag + s1;
    assert(pair_string(tag, a, b) + rest =~= s0);
    lemma_expected_tag(tag, s1);
    lemma_expected_tag(seq![40u8], s2);
    assert(s3[0] == 44u8);
    lemma_leading_digit_string(a, s3);
    lemma_expected_tag(seq![44u8], s4);
    assert(s5[0] == 41u8);
    lemma_leading_digit_string(b, s5);
    lemma_expected_tag(seq![41u8], rest);
    assert(pair(s1) == Some(((a, b), rest)));
}

/// The text `tag(a,b)` is ASCII, and its bytes are those of the tag and of
/// the pair.
pub proof fn lemma_pair_text_bytes(tag: Seq<char>, a: nat, b: nat)
    requires
        is_ascii_chars(tag),
    ensures
        is_ascii_chars(pair_text(tag, a, b)),
        ascii(pair_text(tag, a, b)) == pair_string(ascii(tag), a, b),
{
    reveal_strlit("(");
    reveal_strlit(",");
    reveal_strlit(")");
    lemma_decimal_text_bytes(a);
    lemma_decimal_text_bytes(b);
    let t1 = tag + "("@;
    let t2 = t1 + decimal_text(a);
    let t3 = t2 + ","@;
    let t4 = t3 + decimal_text(b);
    let t5 = t4 + ")"@;
    lemma_ascii_concat(tag, "("@);
    lemma_ascii_concat(t1, decimal_text(a));
    lemma_ascii_concat(t2, ","@);
    lemma_ascii_concat(t3, decimal_text(b));
    lemma_ascii_concat(t4, ")"@);
    assert(ascii("("@) =~= seq![40u8]);
    assert(ascii(","@) =~= seq![44u8]);
    assert(ascii(")"@) =~= seq![41u8]);
    assert(pair_text(tag, a, b) == t5);
}

/// The display that is read back from a written string: every quantity in
/// the steps to which the string rounds it.
pub open spec fn in_steps(coords: ColorCoordinates, max_luma: u32, min_luma: Ratio)
    -> MasterDisplay {
    MasterDisplay {
        coords: ColorCoordinates {
            red: (coordinate(coords.red.0.scaled(50000)), coordinate(coords.red.1.scaled(50000))),
            green: (
                coordinate(coords.green.0.scaled(50000)),
                coordinate(coords.green.1.scaled(50000)),
            ),
            blue: (
                coordinate(coords.blue.0.scaled(50000)),
                coordinate(coords.blue.1.scaled(50000)),
            ),
            white: (
                coordinate(coords.white.0.scaled(50000)),
                coordinate(coords.white.1.scaled(50000)),
            ),
        },
        max_luma,
        min_luma: Ratio::of(min_luma.scaled(10000) as u64, 10000),
    }
}

/// Every quantity of the display, counted in steps, fits in 64 bits.
pub open spec fn steps_fit(coords: ColorCoordinates, min_luma: Ratio) -> bool {
    &&& coords.red.0.scaled(50000) <= u64::MAX
    &&& coords.red.1.scaled(50000) <= u64::MAX
    &&& coords.green.0.scaled(50000) <= u64::MAX
    &&& coords.green.1.scaled(50000) <= u64::MAX
    &&& coords.blue.0.scaled(50000) <= u64::MAX
    &&& coords.blue.1.scaled(50000) <= u64::MAX
    &&& coords.white.0.scaled(50000) <= u64::MAX
    &&& coords.white.1.scaled(50000) <= u64::MAX
    &&& min_luma.scaled(10000) <= u64::MAX
}

/// The bytes of five pairs under the five tags of the grammar, in its
/// order.
pub open spec fn five_pair_strings(pairs: Seq<(nat, nat)>) -> Seq<u8> {
    pair_string(text("G"), pairs[0].0, pairs[0].1) + pair_string(
        text("B"),
        pairs[1].0,
        pairs[1].1,
    ) + pair_string(text("R"), pairs[2].0, pairs[2].1) + pair_string(
        text("WP"),
        pairs[3].0,
        pairs[3].1,
    ) + pair_string(text("L"), pairs[4].0, pairs[4].1)
}

/// The pairs that a display is written as: green, blue, red, white point
/// and luminance, in steps.
pub open spec fn written_pairs(coords: ColorCoordinates, max_luma: u32, min_luma: Ratio) -> Seq<
    (nat, nat),
> {
    seq![
        (coords.green.0.scaled(50000), coords.green.1.scaled(50000)),
        (coords.blue.0.scaled(50000), coords.blue.1.scaled(50000)),
        (coords.red.0.scaled(50000), coords.red.1.scaled(50000)),
        (coords.white.0.scaled(50000), coords.white.1.scaled(50000)),
        (max_luma as nat * 10000, min_luma.scaled(10000)),
    ]
}

/// The five tags are ASCII text.
proof fn lemma_tags()
    ensures
        is_ascii_chars("G"@) && text("G") == ascii("G"@),
        is_ascii_chars("B"@) && text("B") == ascii("B"@),
        is_ascii_chars("R"@) && text("R") == ascii("R"@),
        is_ascii_chars("WP"@) && text("WP") == ascii("WP"@),
        is_ascii_chars("L"@) && text("L") == ascii("L"@),
{
    reveal_strlit("G");
    reveal_strlit("B");
    reveal_strlit("R");
    reveal_strlit("WP");
    reveal_strlit("L");
    is_ascii_spec_bytes("G");
    is_ascii_spec_bytes("B");
    is_ascii_spec_bytes("R");
    is_ascii_spec_bytes("WP");
    is_ascii_spec_bytes("L");
    assert(text("G") =~= ascii("G"@));
    assert(text("B") =~= ascii("B"@));
    assert(text("R") =~= ascii("R"@));
    assert(text("WP") =~= ascii("WP"@));
    assert(text("L") =~= ascii("L"@));
}

/// The bytes of a written mastering display string are those of its five
/// pairs.
pub proof fn lemma_master_display_bytes(coords: ColorCoordinates, max_luma: u32, min_luma: Ratio)
    ensures
        encode_utf8(master_display_text(coords, max_luma, min_luma)) == five_pair_strings(
            written_pairs(coords, max_luma, min_luma),
        ),
{
    lemma_tags();
    let p = written_pairs(coords, max_luma, min_luma);
    let tg = pair_text("G"@, p[0].0, p[0].1);
    let tb = pair_text("B"@, p[1].0, p[1].1);
    let tr = pair_text("R"@, p[2].0, p[2].1);
    let tw = pair_text("WP"@, p[3].0, p[3].1);
    let tl = pair_text("L"@, p[4].0, p[4].1);
    lemma_pair_text_bytes("G"@, p[0].0, p[0].1);
    lemma_pair_text_bytes("B"@, p[1].0, p[1].1);
    lemma_pair_text_bytes("R"@, p[2].0, p[2].1);
    lemma_pair_text_bytes("WP"@, p[3].0, p[3].1);
    lemma_pair_text_bytes("L"@, p[4].0, p[4].1);
    let t1 = tg + tb;
    let t2 = t1 + tr;
    let t3 = t2 + tw;
    let t4 = t3 + tl;
    lemma_ascii_concat(tg, tb);
    lemma_ascii_concat(t1, tr);
    lemma_ascii_concat(t2, tw);
    lemma_ascii_concat(t3, tl);
    assert(master_display_text(coords, max_luma, min_luma) == t4);
    lemma_ascii_encoding(t4);
}

/// The bytes of five pairs are read as those five pairs, whatever
/// follows them.
pub proof fn lemma_five_pair_strings_are_read(pairs: Seq<(nat, nat)>, rest: Seq<u8>)
    requires
        pairs.len() == 5,
        forall|i: int| 0 <= i < 5 ==> pairs[i].0 <= u64::MAX && pairs[i].1 <= u64::MAX,
    ensures
        five_pairs(five_pair_strings(pairs) + rest) == Some(pairs),
{
    let s4 = pair_string(text("L"), pairs[4].0, pairs[4].1) + rest;
    let s3 = pair_string(text("WP"), pairs[3].0, pairs[3].1) + s4;
    let s2 = pair_string(text("R"), pairs[2].0, pairs[2].1) + s3;
    let s1 = pair_string(text("B"), pairs[1].0, pairs[1].1) + s2;
    let s0 = pair_string(text("G"), pairs[0].0, pairs[0].1) + s1;
    assert(five_pair_strings(pairs) + rest =~= s0);
    lemma_tagged_pair_string(text("G"), pairs[0].0, pairs[0].1, s1);
    lemma_tagged_pair_string(text("B"), pairs[1].0, pairs[1].1, s2);
    lemma_tagged_pair_string(text("R"), pairs[2].0, pairs[2].1, s3);
    lemma_tagged_pair_string(text("WP"), pairs[3].0, pairs[3].1, s4);
    lemma_tagged_pair_string(text("L"), pairs[4].0, pairs[4].1, rest);
    assert(seq![pairs[0], pairs[1], pairs[2], pairs[3], pairs[4]] =~= pairs);
}

/// The mastering display string that is written for a display is read by
/// the grammar, in the same order of tokens, as that display in steps:
/// whatever follows the string.
pub proof fn lemma_master_display_reads_back(
    coords: ColorCoordinates,
    max_luma: u32,
    min_luma: Ratio,
    rest: Seq<u8>,
)
    requires
        steps_fit(coords, min_luma),
    ensures
        master_display(encode_utf8(master_display_text(coords, max_luma, min_luma)) + rest)
            == Some(in_steps(coords, max_luma, min_luma)),
{
    let pairs = written_pairs(coords, max_luma, min_luma);
    lemma_master_display_bytes(coords, max_luma, min_luma);
    lemma_five_pair_strings_are_read(pairs, rest);
    assert(pairs[4].0 / 10000 == max_luma as nat);
    assert(display_of(pairs) == Some(in_steps(coords, max_luma, min_luma)));
}

/// A quantity that is a whole count of steps is its own rounding.
pub proof fn lemma_steps_are_kept(steps: u64, scale: u64)
    requires
        scale > 0,
    ensures
        Ratio::of(steps, scale).scaled(scale as nat) == steps,
{
    Ratio::lemma_of(steps, scale);
    let n = steps as nat;
    let d = scale as nat;
    assert((2 * n * d + d) / (2 * d) == n) by (nonlinear_arith)
        requires
            d > 0,
    ;
}

/// A display whose quantities are whole counts of steps is read back from
/// its string exactly as it is.
pub proof fn lemma_display_in_steps_reads_back(display: MasterDisplay, steps: Seq<u64>)
    requires
        steps.len() == 9,
        display.coords.green == (coordinate(steps[0] as nat), coordinate(steps[1] as nat)),
        display.coords.blue == (coordinate(steps[2] as nat), coordinate(steps[3] as nat)),
        display.coords.red == (coordinate(steps[4] as nat), coordinate(steps[5] as nat)),
        display.coords.white == (coordinate(steps[6] as nat), coordinate(steps[7] as nat)),
        display.min_luma == Ratio::of(steps[8], 10000),
    ensures
        master_display(
            encode_utf8(
                master_display_text(display.coords, display.max_luma, display.min_luma),
            ),
        ) == Some(display),
{
    lemma_steps_are_kept(steps[0], 50000);
    lemma_steps_are_kept(steps[1], 50000);
    lemma_steps_are_kept(steps[2], 50000);
    lemma_steps_are_kept(steps[3], 50000);
    lemma_steps_are_kept(steps[4], 50000);
    lemma_steps_are_kept(steps[5], 50000);
    lemma_steps_are_kept(steps[6], 50000);
    lemma_steps_are_kept(steps[7], 50000);
    lemma_steps_are_kept(steps[8], 10000);
    let written = encode_utf8(
        master_display_text(display.coords, display.max_luma, display.min_luma),
    );
    lemma_master_display_reads_back(
        display.coords,
        display.max_luma,
        display.min_luma,
        Seq::empty(),
    );
    assert(written + Seq::<u8>::empty() =~= written);
}

} // verus!
