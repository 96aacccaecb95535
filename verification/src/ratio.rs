//! Exact fractions, which stand for the fractional quantities of the
//! metadata model: chromaticity coordinates and minimum luminance.

use vstd::prelude::*;
use vstd::string::*;
use crate::text::{all_digits, digits_value, parse_number, split_at_first, split_once, text};

verus! {

/// A non-negative fraction with a non-zero denominator. It is kept as
/// written: `1/2` and `2/4` are different values that stand for the same
/// number.
#[derive(Clone, Copy, Debug, PartialEq, Eq)]
pub struct Ratio {
    num: u64,
    den: u64,
}

/// Ten to the power `n`.
pub open spec fn pow10(n: nat) -> nat
    decreases n,
{
    if n == 0 {
        1
    } else {
        10 * pow10((n - 1) as nat)
    }
}

/// The nearest whole number to `num * factor / den`, a half going up.
pub open spec fn round_scaled(num: nat, den: nat, factor: nat) -> nat {
    (2 * num * factor + den) / (2 * den)
}

impl Ratio {
    #[verifier::type_invariant]
    spec fn nonzero_denominator(self) -> bool {
        self.den != 0
    }

    /// The fraction `num / den`.
    pub closed spec fn of(num: u64, den: u64) -> Ratio {
        Ratio { num, den }
    }

    /// The numerator.
    pub closed spec fn numer(self) -> nat {
        self.num as nat
    }

    /// The denominator.
    pub closed spec fn denom(self) -> nat {
        self.den as nat
    }

    /// The nearest whole number to this fraction times `factor`, a half
    /// going up.
    pub open spec fn scaled(self, factor: nat) -> nat {
        round_scaled(self.numer(), self.denom(), factor)
    }

    /// The fraction is at most one.
    pub open spec fn at_most_one(self) -> bool {
        self.numer() <= self.denom()
    }

    /// `of` keeps numerator and denominator.
    pub broadcast proof fn lemma_of(num: u64, den: u64)
        ensures
            (#[trigger] Ratio::of(num, den)).numer() == num,
            Ratio::of(num, den).denom() == den,
    {
    }

    /// The fraction `num / den`, unless `den` is zero.
    pub fn new(num: u64, den: u64) -> (ratio: Option<Ratio>)
        ensures
            den == 0 ==> ratio is None,
            den != 0 ==> ratio == Some(Ratio::of(num, den)),
    {
        if den == 0 {
            None
        } else {
            Some(Ratio { num, den })
        }
    }

    /// The fraction `0 / 1`.
    pub fn zero() -> (ratio: Ratio)
        ensures
            ratio == Ratio::of(0, 1),
    {
        Ratio { num: 0, den: 1 }
    }

    /// The numerator.
    pub fn num(&self) -> (n: u64)
        ensures
            n == self.numer(),
    {
        self.num
    }

    /// The denominator, which is never zero.
    pub fn den(&self) -> (d: u64)
        ensures
            d == self.denom(),
            d > 0,
    {
        proof {
            use_type_invariant(self);
        }
        self.den
    }

    /// Whether the fraction is zero.
    pub fn is_zero(&self) -> (yes: bool)
        ensures
            yes == (self.numer() == 0),
    {
        self.num == 0
    }

    /// Whether the fraction is at most one.
    pub fn is_at_most_one(&self) -> (yes: bool)
        ensures
            yes == self.at_most_one(),
    {
        self.num <= self.den
    }

    /// The nearest whole number to this fraction times `factor`, a half
    /// going up.
    pub fn scale(&self, factor: u32) -> (units: u128)
        ensures
            units == self.scaled(factor as nat),
    {
        proof {
            use_type_invariant(self);
        }
        let n: u128 = self.num as u128;
        let d: u128 = self.den as u128;
        let f: u128 = factor as u128;
        assert(2 * n * f <= 2 * 0xffff_ffff_ffff_ffff * 0xffff_ffff) by (nonlinear_arith)
            requires
                n <= 0xffff_ffff_ffff_ffff,
                f <= 0xffff_ffff,
        ;
        (2 * n * f + d) / (2 * d)
    }

}

/// The two digit strings of a decimal number: what stands before the first
/// point and what stands after it.
pub open spec fn decimal_parts(s: Seq<u8>) -> (Seq<u8>, Seq<u8>) {
    match split_once(s, text(".")) {
        Some(parts) => parts,
        None => (s, Seq::empty()),
    }
}

/// The numerator of the decimal number with the digit strings `whole` and
/// `frac`, over the denominator `pow10(frac.len())`.
pub open spec fn decimal_numer(whole: Seq<u8>, frac: Seq<u8>) -> nat {
    digits_value(whole) * pow10(frac.len()) + digits_value(frac)
}

/// The fraction that the plain decimal number `s` writes: digits, with at
/// most one point among them and at most nineteen digits after it. There is
/// no sign and no exponent, and the digits without the point must fit in 64
/// bits.
pub open spec fn decimal(s: Seq<u8>) -> Option<Ratio> {
    let (whole, frac) = decimal_parts(s);
    if whole.len() + frac.len() > 0 && all_digits(whole) && all_digits(frac) && frac.len() <= 19
        && decimal_numer(whole, frac) <= u64::MAX {
        Some(Ratio::of(decimal_numer(whole, frac) as u64, pow10(frac.len()) as u64))
    } else {
        None
    }
}

/// Powers of ten grow with the exponent, and the nineteenth fits in 64 bits.
pub proof fn lemma_pow10_bounds(n: nat)
    ensures
        pow10(n) >= 1,
        n <= 19 ==> pow10(n) <= 10_000_000_000_000_000_000,
    decreases n,
{
    if n > 0 {
        lemma_pow10_bounds((n - 1) as nat);
        if n <= 19 {
            lemma_pow10_step((n - 1) as nat);
        }
    }
}

proof fn lemma_pow10_step(n: nat)
    requires
        n <= 18,
    ensures
        pow10(n) <= 1_000_000_000_000_000_000,
    decreases n,
{
    reveal_with_fuel(pow10, 20);
}

/// Ten to the power `n`, for an exponent whose power fits in 64 bits.
pub fn power_of_ten(n: usize) -> (p: u64)
    requires
        n <= 19,
    ensures
        p == pow10(n as nat),
{
    let mut p: u64 = 1;
    let mut k: usize = 0;
    while k < n
        invariant
            k <= n <= 19,
            p == pow10(k as nat),
        decreases n - k,
    {
        proof {
            lemma_pow10_bounds((k + 1) as nat);
        }
        p = p * 10;
        k += 1;
    }
    p
}

/// Reads digits that may be absent: an empty string counts as zero.
fn parse_digits(s: &[u8]) -> (value: Option<u64>)
    ensures
        match value {
            Some(v) => all_digits(s@) && v == digits_value(s@),
            None => !all_digits(s@) || digits_value(s@) > u64::MAX,
        },
{
    if s.len() == 0 {
        assert(digits_value(s@) == 0);
        Some(0)
    } else {
        parse_number(s, u64::MAX)
    }
}

/// Reads a plain decimal number as an exact fraction.
pub fn parse_decimal(s: &[u8]) -> (ratio: Option<Ratio>)
    ensures
        ratio == decimal(s@),
{
    let (whole, frac) = match split_at_first(s, ".".as_bytes()) {
        Some(parts) => parts,
        None => {
            let none = vstd::slice::slice_subrange(s, 0, 0);
            assert(none@ =~= Seq::<u8>::empty());
            (s, none)
        },
    };
    assert((whole@, frac@) == decimal_parts(s@));
    if (whole.len() == 0 && frac.len() == 0) || frac.len() > 19 {
        return None;
    }
    proof {
        lemma_pow10_bounds(frac@.len());
    }
    let scale = power_of_ten(frac.len());
    let w = match parse_digits(whole) {
        Some(w) => w,
        None => {
            assert(decimal_numer(whole@, frac@) > u64::MAX || !all_digits(whole@))
                by (nonlinear_arith)
                requires
                    !all_digits(whole@) || digits_value(whole@) > u64::MAX,
                    pow10(frac@.len()) >= 1,
                    decimal_numer(whole@, frac@) == digits_value(whole@) * pow10(frac@.len())
                        + digits_value(frac@),
            ;
            return None;
        },
    };
    let f = match parse_digits(frac) {
        Some(f) => f,
        None => {
            assert(decimal_numer(whole@, frac@) > u64::MAX || !all_digits(frac@))
                by (nonlinear_arith)
                requires
                    !all_digits(frac@) || digits_value(frac@) > u64::MAX,
                    decimal_numer(whole@, frac@) == digits_value(whole@) * pow10(frac@.len())
                        + digits_value(frac@),
            ;
            return None;
        },
    };
    assert(w * scale <= 0xffff_ffff_ffff_ffff * 0xffff_ffff_ffff_ffff) by (nonlinear_arith)
        requires
            w <= 0xffff_ffff_ffff_ffff,
            scale <= 0xffff_ffff_ffff_ffff,
    ;
    let total: u128 = (w as u128) * (scale as u128) + (f as u128);
    if total > u64::MAX as u128 {
        return None;
    }
    Some(Ratio { num: total as u64, den: scale })
}

} // verus!
