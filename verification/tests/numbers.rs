use hdrcopier::error::Error;
use hdrcopier::ratio::{parse_decimal, power_of_ten, Ratio};
use hdrcopier::render::{number_text, push_fixed, push_padded, push_ratio};
use hdrcopier::text::{
    ends_with, find, has, matches_at, next_line, parse_number, split_at_first, starts_with,
    strip_prefix, strip_suffix, value_after,
};

fn ratio(num: u64, den: u64) -> Ratio {
    Ratio::new(num, den).unwrap()
}

fn shown(r: Ratio, places: usize) -> String {
    let mut out = String::new();
    push_ratio(&mut out, &r, places);
    out
}

#[test]
fn ratios_keep_their_parts() {
    assert_eq!(Ratio::new(1, 0), None);
    let r = ratio(3, 4);
    assert_eq!((r.num(), r.den()), (3, 4));
    assert_ne!(ratio(1, 2), ratio(2, 4));
    assert_eq!(Ratio::zero(), ratio(0, 1));
    assert!(Ratio::zero().is_zero());
    assert!(ratio(0, 9).is_zero());
    assert!(!ratio(1, 9).is_zero());
    assert!(ratio(1, 1).is_at_most_one());
    assert!(ratio(0, 3).is_at_most_one());
    assert!(!ratio(4, 3).is_at_most_one());
}

#[test]
fn scaling_rounds_to_nearest_with_halves_up() {
    assert_eq!(ratio(1, 2).scale(1), 1);
    assert_eq!(ratio(1, 3).scale(1), 0);
    assert_eq!(ratio(2, 3).scale(1), 1);
    assert_eq!(ratio(1, 3).scale(50000), 16667);
    assert_eq!(ratio(3, 200000).scale(50000), 1);
    assert_eq!(ratio(1, 200000).scale(50000), 0);
    assert_eq!(ratio(15999, 50000).scale(100000), 31998);
    assert_eq!(
        ratio(u64::MAX, 1).scale(u32::MAX),
        u64::MAX as u128 * u32::MAX as u128
    );
}

#[test]
fn decimals_are_read_exactly() {
    assert_eq!(parse_decimal(b"0.005"), Some(ratio(5, 1000)));
    assert_eq!(parse_decimal(b"1000"), Some(ratio(1000, 1)));
    assert_eq!(parse_decimal(b"12.50"), Some(ratio(1250, 100)));
    assert_eq!(parse_decimal(b".5"), Some(ratio(5, 10)));
    assert_eq!(parse_decimal(b"5."), Some(ratio(5, 1)));
    assert_eq!(parse_decimal(b"0.0000000000000000001"), Some(ratio(1, 10000000000000000000)));
    assert_eq!(parse_decimal(b"18446744073709551615"), Some(ratio(u64::MAX, 1)));
    assert_eq!(parse_decimal(b""), None);
    assert_eq!(parse_decimal(b"."), None);
    assert_eq!(parse_decimal(b"1.2.3"), None);
    assert_eq!(parse_decimal(b"-1"), None);
    assert_eq!(parse_decimal(b"+1"), None);
    assert_eq!(parse_decimal(b"1e5"), None);
    assert_eq!(parse_decimal(b" 1"), None);
    assert_eq!(parse_decimal(b"18446744073709551616"), None);
    assert_eq!(parse_decimal(b"1844674407370955161.6"), None);
    assert_eq!(parse_decimal(b"0.00000000000000000001"), None);
}

#[test]
fn fixed_point_text() {
    assert_eq!(shown(ratio(15999, 50000), 5), "0.31998");
    assert_eq!(shown(ratio(50, 10000), 4), "0.0050");
    assert_eq!(shown(ratio(4999999888241291, 1000000000000000000), 4), "0.0050");
    assert_eq!(shown(ratio(3199799954891205, 10000000000000000), 5), "0.31998");
    assert_eq!(shown(ratio(1, 3), 5), "0.33333");
    assert_eq!(shown(ratio(2, 3), 5), "0.66667");
    assert_eq!(shown(ratio(5, 1000000), 5), "0.00001");
    assert_eq!(shown(ratio(4, 1000000), 5), "0.00000");
    assert_eq!(shown(ratio(12345, 10), 4), "1234.5000");
    assert_eq!(shown(ratio(999995, 1000000), 5), "1.00000");
    assert_eq!(shown(ratio(7, 2), 0), "4.");
    assert_eq!(shown(ratio(u64::MAX, 1), 9), "18446744073709551615.000000000");
    let mut out = String::from("x=");
    push_fixed(&mut out, 1234, 3);
    assert_eq!(out, "x=1.234");
    let mut out = String::new();
    push_padded(&mut out, 1234, 2);
    push_padded(&mut out, 7, 3);
    push_padded(&mut out, 9, 0);
    assert_eq!(out, "34007");
}

#[test]
fn whole_number_text() {
    assert_eq!(number_text(0), "0");
    assert_eq!(number_text(9), "9");
    assert_eq!(number_text(10), "10");
    assert_eq!(number_text(1234567890), "1234567890");
    assert_eq!(number_text(u128::MAX), "340282366920938463463374607431768211455");
    assert_eq!(power_of_ten(0), 1);
    assert_eq!(power_of_ten(19), 10000000000000000000);
}

#[test]
fn whole_numbers_are_read_within_their_limit() {
    assert_eq!(parse_number(b"0", 255), Some(0));
    assert_eq!(parse_number(b"255", 255), Some(255));
    assert_eq!(parse_number(b"256", 255), None);
    assert_eq!(parse_number(b"007", 255), Some(7));
    assert_eq!(parse_number(b"", 255), None);
    assert_eq!(parse_number(b"12a", 255), None);
    assert_eq!(parse_number(b"18446744073709551615", u64::MAX), Some(u64::MAX));
    assert_eq!(parse_number(b"18446744073709551616", u64::MAX), None);
    assert_eq!(parse_number(b"99999999999999999999999", u64::MAX), None);
    assert_eq!(parse_number(b"5", 0), None);
    assert_eq!(parse_number(b"0", 0), Some(0));
}

#[test]
fn searching_and_splitting() {
    assert_eq!(find(b"a: b: c", b": "), Some(1));
    assert_eq!(find(b"abc", b""), Some(0));
    assert_eq!(find(b"", b""), Some(0));
    assert_eq!(find(b"abc", b"abcd"), None);
    assert_eq!(find(b"aab", b"ab"), Some(1));
    assert!(has(b"xx label: 1", b"label:"));
    assert!(!has(b"xx Label: 1", b"label:"));
    assert!(matches_at(b"hello", b"llo", 2));
    assert!(!matches_at(b"hello", b"llo", 3));
    assert!(!matches_at(b"hello", b"", 6));
    assert!(starts_with(b"red_x=1", b"red_x="));
    assert!(!starts_with(b" red_x=1", b"red_x="));
    assert!(ends_with(b"944 cd/m2", b" cd/m2"));
    assert!(!ends_with(b"m2", b" cd/m2"));
    assert_eq!(split_at_first(b"a: b: c", b": "), Some((&b"a"[..], &b"b: c"[..])));
    assert_eq!(split_at_first(b"abc", b": "), None);
    assert_eq!(value_after(b"k=v=w", b"="), Some(&b"v=w"[..]));
    assert_eq!(value_after(b"k=", b"="), Some(&b""[..]));
    assert_eq!(strip_prefix(b"min: min: 1", b"min: "), b"min: 1");
    assert_eq!(strip_prefix(b"max: 1", b"min: "), b"max: 1");
    assert_eq!(strip_suffix(b"1 cd/m2 cd/m2", b" cd/m2"), b"1 cd/m2");
    assert_eq!(strip_suffix(b"1", b" cd/m2"), b"1");
}

#[test]
fn lines_end_at_line_feeds() {
    let text = b"one\r\ntwo\n\nlast\r";
    let mut pos = 0;
    let mut seen: Vec<Vec<u8>> = Vec::new();
    while pos < text.len() {
        let (line, next) = next_line(text, pos);
        seen.push(line.to_vec());
        pos = next;
    }
    assert_eq!(seen, vec![b"one".to_vec(), b"two".to_vec(), b"".to_vec(), b"last\r".to_vec()]);
    assert_eq!(next_line(b"\n", 0), (&b""[..], 1));
    assert_eq!(next_line(b"\r\n", 0), (&b""[..], 2));
}

#[test]
fn errors_describe_themselves() {
    assert_eq!(Error::ProbeUnavailable.describe(), "probe tool unavailable");
    assert_eq!(Error::MalformedField.describe(), "malformed field");
    assert_eq!(Error::UnrecognizedValue.describe(), "unrecognized value");
    assert_eq!(Error::UnsupportedByTarget.describe(), "value not supported by the target");
    assert_eq!(Error::ApplyFailed.describe(), "failed to apply metadata");
    assert!(Error::ProbeUnavailable.is_recoverable());
    assert!(Error::MalformedField.is_recoverable());
    assert!(!Error::UnrecognizedValue.is_recoverable());
    assert!(!Error::UnsupportedByTarget.is_recoverable());
    assert!(!Error::ApplyFailed.is_recoverable());
}
