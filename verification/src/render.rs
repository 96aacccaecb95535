//! Writing numbers as text: whole numbers in decimal, and fractions with a
//! fixed count of decimal places.

use vstd::prelude::*;
use vstd::string::*;
use crate::ratio::{lemma_pow10_bounds, pow10, power_of_ten, Ratio};

verus! {

/// The text of the decimal digit `d`.
pub open spec fn digit(d: nat) -> Seq<char> {
    if d == 0 {
        "0"@
    } else if d == 1 {
        "1"@
    } else if d == 2 {
        "2"@
    } else if d == 3 {
        "3"@
    } else if d == 4 {
        "4"@
    } else if d == 5 {
        "5"@
    } else if d == 6 {
        "6"@
    } else if d == 7 {
        "7"@
    } else if d == 8 {
        "8"@
    } else {
        "9"@
    }
}

/// The decimal text of `n`, without leading zeros.
pub open spec fn decimal_text(n: nat) -> Seq<char>
    decreases n,
{
    if n < 10 {
        digit(n)
    } else {
        decimal_text(n / 10) + digit(n % 10)
    }
}

/// The last `width` decimal digits of `n`, with leading zeros.
pub open spec fn padded_text(n: nat, width: nat) -> Seq<char>
    decreases width,
{
    if width == 0 {
        Seq::empty()
    } else {
        padded_text(n / 10, (width - 1) as nat) + digit(n % 10)
    }
}

/// The text of `units / 10^places` with exactly `places` digits after the
/// point.
pub open spec fn fixed_text(units: nat, places: nat) -> Seq<char> {
    decimal_text(units / pow10(places)) + "."@ + padded_text(units % pow10(places), places)
}

/// The text of `ratio`, rounded to `places` decimal places, a half going
/// up.
pub open spec fn ratio_text(ratio: Ratio, places: nat) -> Seq<char> {
    fixed_text(ratio.scaled(pow10(places)), places)
}

/// The text of one decimal digit.
pub fn digit_text(d: u8) -> (t: &'static str)
    requires
        d < 10,
    ensures
        t@ == digit(d as nat),
{
    match d {
        0 => "0",
        1 => "1",
        2 => "2",
        3 => "3",
        4 => "4",
        5 => "5",
        6 => "6",
        7 => "7",
        8 => "8",
        _ => "9",
    }
}

/// Appends the decimal text of `n` to `out`.
pub fn push_number(out: &mut String, n: u128)
    ensures
        final(out)@ == old(out)@ + decimal_text(n as nat),
    decreases n,
{
    let ghost before = out@;
    if n >= 10 {
        push_number(out, n / 10);
    }
    out.append(digit_text((n % 10) as u8));
    assert(out@ =~= before + decimal_text(n as nat));
}

/// Appends the last `width` decimal digits of `n` to `out`.
pub fn push_padded(out: &mut String, n: u128, width: usize)
    ensures
        final(out)@ == old(out)@ + padded_text(n as nat, width as nat),
    decreases width,
{
    let ghost before = out@;
    if width > 0 {
        push_padded(out, n / 10, width - 1);
        out.append(digit_text((n % 10) as u8));
    }
    assert(out@ =~= before + padded_text(n as nat, width as nat));
}

/// Appends `units / 10^places` with exactly `places` digits after the
/// point.
pub fn push_fixed(out: &mut String, units: u128, places: usize)
    requires
        places <= 19,
    ensures
        final(out)@ == old(out)@ + fixed_text(units as nat, places as nat),
{
    let ghost before = out@;
    proof {
        lemma_pow10_bounds(places as nat);
    }
    let scale: u128 = power_of_ten(places) as u128;
    push_number(out, units / scale);
    out.append(".");
    push_padded(out, units % scale, places);
    assert(out@ =~= before + fixed_text(units as nat, places as nat));
}

/// Appends `ratio`, rounded to `places` decimal places.
pub fn push_ratio(out: &mut String, ratio: &Ratio, places: usize)
    requires
        places <= 9,
    ensures
        final(out)@ == old(out)@ + ratio_text(*ratio, places as nat),
{
    proof {
        lemma_pow10_small(places as nat);
    }
    let scale: u64 = power_of_ten(places);
    let units = ratio.scale(scale as u32);
    push_fixed(out, units, places);
}

/// Powers of ten up to the ninth fit in 32 bits.
pub proof fn lemma_pow10_small(n: nat)
    requires
        n <= 9,
    ensures
        pow10(n) <= 1_000_000_000,
{
    reveal_with_fuel(pow10, 10);
}

/// The decimal text of `n`.
pub fn number_text(n: u128) -> (t: String)
    ensures
        t@ == decimal_text(n as nat),
{
    let mut t = String::new();
    push_number(&mut t, n);
    assert(t@ =~= decimal_text(n as nat));
    t
}

} // verus!
