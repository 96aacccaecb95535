//! The mastering display string of the encoder settings:
//! `G(x,y)B(x,y)R(x,y)WP(x,y)L(max,min)`, read with a cursor that moves
//! over the input from the left.
//!
//! Coordinates are counted in steps of 1/50000, luminance in steps of
//! 1/10000 cd/m².

use vstd::prelude::*;
use vstd::slice::*;
use vstd::string::*;
use crate::error::Error;
use crate::metadata::ColorCoordinates;
use crate::ratio::Ratio;
use crate::text::{
    first_occurrence,
    find,
    has_prefix,
    is_digit,
    number,
    parse_number,
    starts_with,
    text,
};

verus! {

/// What a mastering display string describes.
#[derive(Clone, Copy, Debug, PartialEq, Eq)]
pub struct MasterDisplay {
    pub coords: ColorCoordinates,
    pub max_luma: u32,
    pub min_luma: Ratio,
}

/// The count of decimal digits with which `s` begins.
pub open spec fn digit_run(s: Seq<u8>) -> int
    decreases s.len(),
{
    if s.len() == 0 || !is_digit(s[0]) {
        0
    } else {
        1 + digit_run(s.drop_first())
    }
}

/// What follows `tag`, where `s` begins with it.
pub open spec fn expected(s: Seq<u8>, tag: Seq<u8>) -> Option<Seq<u8>> {
    if has_prefix(s, tag) {
        Some(s.skip(tag.len() as int))
    } else {
        None
    }
}

/// The number that the digits at the start of `s` write, and what follows
/// them. There must be a digit, and the number must fit in 64 bits.
pub open spec fn leading(s: Seq<u8>) -> Option<(nat, Seq<u8>)> {
    let n = digit_run(s);
    match number(s.take(n), u64::MAX as nat) {
        Some(v) => Some((v, s.skip(n))),
        None => None,
    }
}

/// The pair `(x,y)` at the start of `s`, and what follows it.
pub open spec fn pair(s: Seq<u8>) -> Option<((nat, nat), Seq<u8>)> {
    match expected(s, text("(")) {
        Some(a) => match leading(a) {
            Some((x, b)) => match expected(b, text(",")) {
                Some(c) => match leading(c) {
                    Some((y, d)) => match expected(d, text(")")) {
                        Some(e) => Some(((x, y), e)),
                        None => None,
                    },
                    None => None,
                },
                None => None,
            },
            None => None,
        },
        None => None,
    }
}

/// The pair that follows `tag` at the start of `s`, and what follows it.
pub open spec fn tagged(s: Seq<u8>, tag: Seq<u8>) -> Option<((nat, nat), Seq<u8>)> {
    match expected(s, tag) {
        Some(rest) => pair(rest),
        None => None,
    }
}

/// The five pairs of a mastering display string, in the order in which
/// they must stand: green, blue, red, white point, luminance.
pub open spec fn five_pairs(s: Seq<u8>) -> Option<Seq<(nat, nat)>> {
    match tagged(s, text("G")) {
        Some((g, a)) => match tagged(a, text("B")) {
            Some((b, c)) => match tagged(c, text("R")) {
                Some((r, d)) => match tagged(d, text("WP")) {
                    Some((w, e)) => match tagged(e, text("L")) {
                        Some((l, f)) => Some(seq![g, b, r, w, l]),
                        None => None,
                    },
                    None => None,
                },
                None => None,
            },
            None => None,
        },
        None => None,
    }
}

/// `steps` steps of 1/50000.
pub open spec fn coordinate(steps: nat) -> Ratio {
    Ratio::of(steps as u64, 50000)
}

/// The display that five pairs describe. The maximum luminance is kept in
/// whole cd/m² and must fit in 32 bits.
pub open spec fn display_of(pairs: Seq<(nat, nat)>) -> Option<MasterDisplay> {
    if pairs[4].0 / 10000 <= u32::MAX {
        Some(
            MasterDisplay {
                coords: ColorCoordinates {
                    red: (coordinate(pairs[2].0), coordinate(pairs[2].1)),
                    green: (coordinate(pairs[0].0), coordinate(pairs[0].1)),
                    blue: (coordinate(pairs[1].0), coordinate(pairs[1].1)),
                    white: (coordinate(pairs[3].0), coordinate(pairs[3].1)),
                },
                max_luma: (pairs[4].0 / 10000) as u32,
                min_luma: Ratio::of(pairs[4].1 as u64, 10000),
            },
        )
    } else {
        None
    }
}

/// What the mastering display string at the start of `s` describes.
/// Anything may follow the string.
pub open spec fn master_display(s: Seq<u8>) -> Option<MasterDisplay> {
    match five_pairs(s) {
        Some(pairs) => display_of(pairs),
        None => None,
    }
}

/// What the encoder settings `s` say of the mastering display: the string
/// that follows the first `master-display=`.
pub open spec fn settings_display(s: Seq<u8>) -> Option<MasterDisplay> {
    match first_occurrence(s, text("master-display=")) {
        Some(i) => master_display(s.skip(i + text("master-display=").len())),
        None => None,
    }
}

/// A count of leading digits that is followed by the end or by a byte that
/// is no digit is `digit_run`.
pub proof fn lemma_digit_run_is(s: Seq<u8>, n: int)
    requires
        0 <= n <= s.len(),
        forall|k: int| 0 <= k < n ==> is_digit(#[trigger] s[k]),
        n < s.len() ==> !is_digit(s[n]),
    ensures
        digit_run(s) == n,
    decreases s.len(),
{
    if n > 0 {
        let rest = s.drop_first();
        assert(is_digit(s[0]));
        assert forall|k: int| 0 <= k < n - 1 implies is_digit(#[trigger] rest[k]) by {
            assert(rest[k] == s[k + 1]);
        }
        lemma_digit_run_is(rest, n - 1);
    }
}

/// Moves over `tag` at the start of `input`.
pub fn expect<'a>(input: &'a [u8], tag: &str) -> (rest: Option<&'a [u8]>)
    ensures
        match rest {
            Some(r) => expected(input@, text(tag)) == Some(r@),
            None => expected(input@, text(tag)) is None,
        },
{
    let pattern = tag.as_bytes();
    if starts_with(input, pattern) {
        Some(slice_subrange(input, pattern.len(), input.len()))
    } else {
        None
    }
}

/// Reads the number at the start of `input`.
pub fn leading_number<'a>(input: &'a [u8]) -> (read: Option<(u64, &'a [u8])>)
    ensures
        match read {
            Some((v, r)) => leading(input@) == Some((v as nat, r@)),
            None => leading(input@) is None,
        },
{
    let len = input.len();
    let mut n: usize = 0;
    while n < len && input[n] >= 48 && input[n] <= 57
        invariant
            n <= len,
            len == input@.len(),
            forall|k: int| 0 <= k < n ==> is_digit(#[trigger] input@[k]),
        decreases len - n,
    {
        n += 1;
    }
    proof {
        lemma_digit_run_is(input@, n as int);
    }
    let digits = slice_subrange(input, 0, n);
    match parse_number(digits, u64::MAX) {
        Some(v) => Some((v, slice_subrange(input, n, len))),
        None => None,
    }
}

/// Reads the pair `(x,y)` at the start of `input`.
pub fn get_coordinate_pair<'a>(input: &'a [u8]) -> (read: Option<((u64, u64), &'a [u8])>)
    ensures
        match read {
            Some((p, r)) => pair(input@) == Some(((p.0 as nat, p.1 as nat), r@)),
            None => pair(input@) is None,
        },
{
    let a = match expect(input, "(") {
        Some(a) => a,
        None => {
            return None;
        },
    };
    let (x, b) = match leading_number(a) {
        Some(read) => read,
        None => {
            return None;
        },
    };
    let c = match expect(b, ",") {
        Some(c) => c,
        None => {
            return None;
        },
    };
    let (y, d) = match leading_number(c) {
        Some(read) => read,
        None => {
            return None;
        },
    };
    match expect(d, ")") {
        Some(e) => Some(((x, y), e)),
        None => None,
    }
}

/// Reads the pair that follows `tag` at the start of `input`.
pub fn tagged_pair<'a>(input: &'a [u8], tag: &str) -> (read: Option<((u64, u64), &'a [u8])>)
    ensures
        match read {
            Some((p, r)) => tagged(input@, text(tag)) == Some(((p.0 as nat, p.1 as nat), r@)),
            None => tagged(input@, text(tag)) is None,
        },
{
    match expect(input, tag) {
        Some(rest) => get_coordinate_pair(rest),
        None => None,
    }
}

/// `steps` steps of 1/50000.
fn coordinate_of(steps: u64) -> (ratio: Ratio)
    ensures
        ratio == coordinate(steps as nat),
{
    match Ratio::new(steps, 50000) {
        Some(ratio) => ratio,
        None => Ratio::zero(),
    }
}

/// Reads the mastering display string at the start of `input`.
pub fn parse_master_display(input: &[u8]) -> (display: Option<MasterDisplay>)
    ensures
        display == master_display(input@),
{
    let (g, a) = match tagged_pair(input, "G") {
        Some(read) => read,
        None => {
            return None;
        },
    };
    let (b, c) = match tagged_pair(a, "B") {
        Some(read) => read,
        None => {
            return None;
        },
    };
    let (r, d) = match tagged_pair(c, "R") {
        Some(read) => read,
        None => {
            return None;
        },
    };
    let (w, e) = match tagged_pair(d, "WP") {
        Some(read) => read,
        None => {
            return None;
        },
    };
    let (l, f) = match tagged_pair(e, "L") {
        Some(read) => read,
        None => {
            return None;
        },
    };
    let ghost pairs = seq![
        (g.0 as nat, g.1 as nat),
        (b.0 as nat, b.1 as nat),
        (r.0 as nat, r.1 as nat),
        (w.0 as nat, w.1 as nat),
        (l.0 as nat, l.1 as nat),
    ];
    assert(five_pairs(input@) == Some(pairs));
    let max = l.0 / 10000;
    if max > u32::MAX as u64 {
        return None;
    }
    let min_luma = match Ratio::new(l.1, 10000) {
        Some(ratio) => ratio,
        None => Ratio::zero(),
    };
    Some(
        MasterDisplay {
            coords: ColorCoordinates {
                red: (coordinate_of(r.0), coordinate_of(r.1)),
                green: (coordinate_of(g.0), coordinate_of(g.1)),
                blue: (coordinate_of(b.0), coordinate_of(b.1)),
                white: (coordinate_of(w.0), coordinate_of(w.1)),
            },
            max_luma: max as u32,
            min_luma,
        },
    )
}

/// Reads the mastering display out of a line of encoder settings: the
/// string that follows the first `master-display=`. Settings without one,
/// or with one that does not follow the grammar, are `MalformedField`.
pub fn parse_x265_settings(settings: &[u8]) -> (display: Result<MasterDisplay, Error>)
    ensures
        display == match settings_display(settings@) {
            Some(d) => Ok::<MasterDisplay, Error>(d),
            None => Err(Error::MalformedField),
        },
{
    let header = "master-display=".as_bytes();
    match find(settings, header) {
        Some(i) => {
            let end = settings.len();
            let rest = slice_subrange(settings, i + header.len(), end);
            assert(rest@ =~= settings@.skip(i + text("master-display=").len()));
            match parse_master_display(rest) {
                Some(d) => Ok(d),
                None => Err(Error::MalformedField),
            }
        },
        None => Err(Error::MalformedField),
    }
}

} // verus!
