//! The value dictionaries: for each colour property, the canonical numeric
//! codes with their names and with the tokens of each output dialect.
//!
//! Every property has one table. A row holds the code's name and, where the
//! dialect can express the code, the token of each encoder dialect. The
//! property editor's dialect is the code itself, written as a number.

use vstd::prelude::*;
use vstd::string::*;
use vstd::utf8::encode_utf8;
use crate::error::Error;
use crate::metadata::ChromaLocation;
use crate::text::text;

verus! {

/// One row of a dictionary, as text.
pub struct Row {
    /// The name shown to people.
    pub label: Seq<char>,
    /// The token of the x265 dialect, where it has one.
    pub x265: Option<Seq<char>>,
    /// The token of the rav1e dialect, where it has one.
    pub rav1e: Option<Seq<char>>,
}

/// One row of a dictionary.
#[derive(Clone, Copy, Debug, PartialEq, Eq)]
pub struct Entry {
    /// The name shown to people.
    pub label: &'static str,
    /// The token of the x265 dialect, where it has one.
    pub x265: Option<&'static str>,
    /// The token of the rav1e dialect, where it has one.
    pub rav1e: Option<&'static str>,
}

impl Entry {
    /// The row as text.
    pub open spec fn row(self) -> Row {
        Row {
            label: self.label@,
            x265: match self.x265 {
                Some(token) => Some(token@),
                None => None,
            },
            rav1e: match self.rav1e {
                Some(token) => Some(token@),
                None => None,
            },
        }
    }
}

/// The small letter of an ASCII capital; any other byte unchanged.
pub open spec fn lower(b: u8) -> u8 {
    if 65 <= b <= 90 {
        (b + 32) as u8
    } else {
        b
    }
}

/// `s` with every ASCII capital replaced by its small letter.
pub open spec fn lowercase(s: Seq<u8>) -> Seq<u8> {
    Seq::new(s.len(), |i: int| lower(s[i]))
}

/// The result of looking a name up: its code, or `UnrecognizedValue`.
pub open spec fn named(code: Option<u8>) -> Result<u8, Error> {
    match code {
        Some(c) => Ok(c),
        None => Err(Error::UnrecognizedValue),
    }
}

/// A looked-up text as a sequence of characters.
pub open spec fn shown(found: Result<&'static str, Error>) -> Result<Seq<char>, Error> {
    match found {
        Ok(s) => Ok(s@),
        Err(e) => Err(e),
    }
}

/// The name of a row, or `UnrecognizedValue` where there is no row.
pub open spec fn labelled(row: Option<Row>) -> Result<Seq<char>, Error> {
    match row {
        Some(r) => Ok(r.label),
        None => Err(Error::UnrecognizedValue),
    }
}

/// The x265 token of a row: `UnrecognizedValue` where there is
/// no row, `UnsupportedByTarget` where the row has no such token.
pub open spec fn x265_token(row: Option<Row>) -> Result<Seq<char>, Error> {
    match row {
        Some(r) => match r.x265 {
            Some(token) => Ok(token),
            None => Err(Error::UnsupportedByTarget),
        },
        None => Err(Error::UnrecognizedValue),
    }
}

/// The rav1e token of a row: `UnrecognizedValue` where there
/// is no row, `UnsupportedByTarget` where the row has no such token.
pub open spec fn rav1e_token(row: Option<Row>) -> Result<Seq<char>, Error> {
    match row {
        Some(r) => match r.rav1e {
            Some(token) => Ok(token),
            None => Err(Error::UnsupportedByTarget),
        },
        None => Err(Error::UnrecognizedValue),
    }
}

/// Whether `value`, capitals counting as small letters, is `name`.
pub fn is_name(value: &[u8], name: &str) -> (same: bool)
    ensures
        same == (lowercase(value@) == text(name)),
{
    let pattern = name.as_bytes();
    if value.len() != pattern.len() {
        return false;
    }
    let mut i: usize = 0;
    while i < value.len()
        invariant
            i <= value.len(),
            value.len() == pattern.len(),
            pattern@ == text(name),
            forall|j: int| 0 <= j < i ==> lower(value@[j]) == pattern@[j],
        decreases value.len() - i,
    {
        let b = value[i];
        let folded: u8 = if b >= 65 && b <= 90 {
            b + 32
        } else {
            b
        };
        if folded != pattern[i] {
            assert(lowercase(value@)[i as int] != pattern@[i as int]);
            return false;
        }
        i += 1;
    }
    assert(lowercase(value@) =~= pattern@);
    true
}

/// The dictionary of colour range: the row of `code`, where it has one.
pub open spec fn range_row(code: u8) -> Option<Row> {
    if code == 0 {
        Some(Row { label: "Full"@, x265: Some("full"@), rav1e: Some("Full"@) })
    } else if code == 1 {
        Some(Row { label: "Limited"@, x265: Some("limited"@), rav1e: Some("Limited"@) })
    } else {
        None
    }
}

/// The code that the name `value` stands for in the dictionary of
/// colour range, capitals counting as small letters.
pub open spec fn range_code(value: Seq<u8>) -> Option<u8> {
    let name = lowercase(value);
    if name == text("limited") {
        Some(1)
    } else if name == text("full") {
        Some(0)
    } else {
        None
    }
}

/// Looks `code` up in the dictionary of colour range.
pub fn range_entry(code: u8) -> (entry: Option<Entry>)
    ensures
        match entry {
            Some(e) => range_row(code) == Some(e.row()),
            None => range_row(code) is None,
        },
{
    match code {
        0 => Some(Entry { label: "Full", x265: Some("full"), rav1e: Some("Full") }),
        1 => Some(Entry { label: "Limited", x265: Some("limited"), rav1e: Some("Limited") }),
        _ => None,
    }
}

/// Finds the code of the name `value` in the dictionary of
/// colour range.
pub fn find_color_range(value: &[u8]) -> (code: Result<u8, Error>)
    ensures
        code == named(range_code(value@)),
{
    if is_name(value, "limited") {
        Ok(1)
    } else if is_name(value, "full") {
        Ok(0)
    } else {
        Err(Error::UnrecognizedValue)
    }
}

/// The code of the name `value` in the dictionary of colour range;
/// `UnrecognizedValue` for a name that it does not hold.
pub fn parse_color_range(value: &str) -> (code: Result<u8, Error>)
    ensures
        code == named(range_code(text(value))),
{
    find_color_range(value.as_bytes())
}

/// The name of `value` in the dictionary of colour range;
/// `UnrecognizedValue` for a code that it does not hold.
pub fn print_color_range(value: u8) -> (name: Result<&'static str, Error>)
    ensures
        shown(name) == labelled(range_row(value)),
{
    match range_entry(value) {
        Some(entry) => Ok(entry.label),
        None => Err(Error::UnrecognizedValue),
    }
}

/// The token of the x265 dialect for `value`:
/// `UnrecognizedValue` for a code that the dictionary of
/// colour range does not hold, `UnsupportedByTarget` for one that
/// it holds without a token for this dialect.
pub fn print_x265_color_range(value: u8) -> (token: Result<&'static str, Error>)
    ensures
        shown(token) == x265_token(range_row(value)),
{
    match range_entry(value) {
        Some(entry) => match entry.x265 {
            Some(token) => Ok(token),
            None => Err(Error::UnsupportedByTarget),
        },
        None => Err(Error::UnrecognizedValue),
    }
}

/// The token of the rav1e dialect for `value`:
/// `UnrecognizedValue` for a code that the dictionary of
/// colour range does not hold, `UnsupportedByTarget` for one that
/// it holds without a token for this dialect.
pub fn print_rav1e_color_range(value: u8) -> (token: Result<&'static str, Error>)
    ensures
        shown(token) == rav1e_token(range_row(value)),
{
    match range_entry(value) {
        Some(entry) => match entry.rav1e {
            Some(token) => Ok(token),
            None => Err(Error::UnsupportedByTarget),
        },
        None => Err(Error::UnrecognizedValue),
    }
}

/// The dictionary of matrix coefficients: the row of `code`, where it has one.
pub open spec fn matrix_row(code: u8) -> Option<Row> {
    if code == 0 {
        Some(Row { label: "RGB"@, x265: None, rav1e: None })
    } else if code == 1 {
        Some(Row { label: "BT.709"@, x265: Some("bt709"@), rav1e: Some("BT709"@) })
    } else if code == 2 {
        Some(Row { label: "Unspecified"@, x265: Some("unknown"@), rav1e: Some("Unspecified"@) })
    } else if code == 4 {
        Some(Row { label: "FCC"@, x265: Some("fcc"@), rav1e: Some("FCC"@) })
    } else if code == 5 {
        Some(Row { label: "BT.470 BG"@, x265: Some("bt470bg"@), rav1e: Some("BT470BG"@) })
    } else if code == 6 {
        Some(Row { label: "SMPTE 170m/BT.601"@, x265: Some("smpte170m"@), rav1e: Some("BT601"@) })
    } else if code == 7 {
        Some(Row { label: "SMPTE 240m"@, x265: Some("smpte240m"@), rav1e: Some("SMPTE240"@) })
    } else if code == 8 {
        Some(Row { label: "YCgCo"@, x265: Some("ycgco"@), rav1e: Some("YCgCo"@) })
    } else if code == 9 {
        Some(Row { label: "BT.2020 Non-Constant Light"@, x265: Some("bt2020nc"@), rav1e: Some("BT2020NCL"@) })
    } else if code == 10 {
        Some(Row { label: "BT.2020 Constant Light"@, x265: Some("bt2020c"@), rav1e: Some("BT2020CL"@) })
    } else if code == 12 {
        Some(Row { label: "Chroma-Derived Non-Constant Light"@, x265: Some("chroma-derived-nc"@), rav1e: Some("ChromatNCL"@) })
    } else if code == 13 {
        Some(Row { label: "Chroma-Derived Constant Light"@, x265: Some("chroma-derived-c"@), rav1e: Some("ChromatCL"@) })
    } else {
        None
    }
}

/// The code that the name `value` stands for in the dictionary of
/// matrix coefficients, capitals counting as small letters.
pub open spec fn matrix_code(value: Seq<u8>) -> Option<u8> {
    let name = lowercase(value);
    if name == text("rgb") {
        Some(0)
    } else if name == text("bt.709") {
        Some(1)
    } else if name == text("unspecified") {
        Some(2)
    } else if name == text("unset") {
        Some(2)
    } else if name == text("fcc") {
        Some(4)
    } else if name == text("bt.470 bg") {
        Some(5)
    } else if name == text("smpte 170m") {
        Some(6)
    } else if name == text("bt.601") {
        Some(6)
    } else if name == text("smpte 170m/bt.601") {
        Some(6)
    } else if name == text("smpte 240m") {
        Some(7)
    } else if name == text("ycgco") {
        Some(8)
    } else if name == text("bt.2020 non-constant") {
        Some(9)
    } else if name == text("bt.2020 non-constant light") {
        Some(9)
    } else if name == text("bt.2020 constant") {
        Some(10)
    } else if name == text("bt.2020 constant light") {
        Some(10)
    } else if name == text("chroma-derived non-constant light") {
        Some(12)
    } else if name == text("chroma-derived constant light") {
        Some(13)
    } else {
        None
    }
}

/// Looks `code` up in the dictionary of matrix coefficients.
pub fn matrix_entry(code: u8) -> (entry: Option<Entry>)
    ensures
        match entry {
            Some(e) => matrix_row(code) == Some(e.row()),
            None => matrix_row(code) is None,
        },
{
    match code {
        0 => Some(Entry { label: "RGB", x265: None, rav1e: None }),
        1 => Some(Entry { label: "BT.709", x265: Some("bt709"), rav1e: Some("BT709") }),
        2 => Some(Entry { label: "Unspecified", x265: Some("unknown"), rav1e: Some("Unspecified") }),
        4 => Some(Entry { label: "FCC", x265: Some("fcc"), rav1e: Some("FCC") }),
        5 => Some(Entry { label: "BT.470 BG", x265: Some("bt470bg"), rav1e: Some("BT470BG") }),
        6 => Some(Entry { label: "SMPTE 170m/BT.601", x265: Some("smpte170m"), rav1e: Some("BT601") }),
        7 => Some(Entry { label: "SMPTE 240m", x265: Some("smpte240m"), rav1e: Some("SMPTE240") }),
        8 => Some(Entry { label: "YCgCo", x265: Some("ycgco"), rav1e: Some("YCgCo") }),
        9 => Some(Entry { label: "BT.2020 Non-Constant Light", x265: Some("bt2020nc"), rav1e: Some("BT2020NCL") }),
        10 => Some(Entry { label: "BT.2020 Constant Light", x265: Some("bt2020c"), rav1e: Some("BT2020CL") }),
        12 => Some(Entry { label: "Chroma-Derived Non-Constant Light", x265: Some("chroma-derived-nc"), rav1e: Some("ChromatNCL") }),
        13 => Some(Entry { label: "Chroma-Derived Constant Light", x265: Some("chroma-derived-c"), rav1e: Some("ChromatCL") }),
        _ => None,
    }
}

/// Finds the code of the name `value` in the dictionary of
/// matrix coefficients.
pub fn find_matrix_coefficients(value: &[u8]) -> (code: Result<u8, Error>)
    ensures
        code == named(matrix_code(value@)),
{
    if is_name(value, "rgb") {
        Ok(0)
    } else if is_name(value, "bt.709") {
        Ok(1)
    } else if is_name(value, "unspecified") {
        Ok(2)
    } else if is_name(value, "unset") {
        Ok(2)
    } else if is_name(value, "fcc") {
        Ok(4)
    } else if is_name(value, "bt.470 bg") {
        Ok(5)
    } else if is_name(value, "smpte 170m") {
        Ok(6)
    } else if is_name(value, "bt.601") {
        Ok(6)
    } else if is_name(value, "smpte 170m/bt.601") {
        Ok(6)
    } else if is_name(value, "smpte 240m") {
        Ok(7)
    } else if is_name(value, "ycgco") {
        Ok(8)
    } else if is_name(value, "bt.2020 non-constant") {
        Ok(9)
    } else if is_name(value, "bt.2020 non-constant light") {
        Ok(9)
    } else if is_name(value, "bt.2020 constant") {
        Ok(10)
    } else if is_name(value, "bt.2020 constant light") {
        Ok(10)
    } else if is_name(value, "chroma-derived non-constant light") {
        Ok(12)
    } else if is_name(value, "chroma-derived constant light") {
        Ok(13)
    } else {
        Err(Error::UnrecognizedValue)
    }
}

/// The code of the name `value` in the dictionary of matrix coefficients;
/// `UnrecognizedValue` for a name that it does not hold.
pub fn parse_matrix_coefficients(value: &str) -> (code: Result<u8, Error>)
    ensures
        code == named(matrix_code(text(value))),
{
    find_matrix_coefficients(value.as_bytes())
}

/// The name of `value` in the dictionary of matrix coefficients;
/// `UnrecognizedValue` for a code that it does not hold.
pub fn print_matrix_coefficients(value: u8) -> (name: Result<&'static str, Error>)
    ensures
        shown(name) == labelled(matrix_row(value)),
{
    match matrix_entry(value) {
        Some(entry) => Ok(entry.label),
        None => Err(Error::UnrecognizedValue),
    }
}

/// The token of the x265 dialect for `value`:
/// `UnrecognizedValue` for a code that the dictionary of
/// matrix coefficients does not hold, `UnsupportedByTarget` for one that
/// it holds without a token for this dialect.
pub fn print_x265_matrix_coefficients(value: u8) -> (token: Result<&'static str, Error>)
    ensures
        shown(token) == x265_token(matrix_row(value)),
{
    match matrix_entry(value) {
        Some(entry) => match entry.x265 {
            Some(token) => Ok(token),
            None => Err(Error::UnsupportedByTarget),
        },
        None => Err(Error::UnrecognizedValue),
    }
}

/// The token of the rav1e dialect for `value`:
/// `UnrecognizedValue` for a code that the dictionary of
/// matrix coefficients does not hold, `UnsupportedByTarget` for one that
/// it holds without a token for this dialect.
pub fn print_rav1e_matrix_coefficients(value: u8) -> (token: Result<&'static str, Error>)
    ensures
        shown(token) == rav1e_token(matrix_row(value)),
{
    match matrix_entry(value) {
        Some(entry) => match entry.rav1e {
            Some(token) => Ok(token),
            None => Err(Error::UnsupportedByTarget),
        },
        None => Err(Error::UnrecognizedValue),
    }
}

/// The dictionary of transfer characteristics: the row of `code`, where it has one.
pub open spec fn transfer_row(code: u8) -> Option<Row> {
    if code == 1 {
        Some(Row { label: "BT.709"@, x265: Some("bt709"@), rav1e: Some("BT709"@) })
    } else if code == 2 {
        Some(Row { label: "Unspecified"@, x265: Some("unknown"@), rav1e: Some("Unspecified"@) })
    } else if code == 4 {
        Some(Row { label: "BT.470 M"@, x265: Some("bt470m"@), rav1e: Some("BT470M"@) })
    } else if code == 5 {
        Some(Row { label: "BT.470 BG"@, x265: Some("bt470bg"@), rav1e: Some("BT470BG"@) })
    } else if code == 6 {
        Some(Row { label: "SMPTE 170m/BT.601"@, x265: Some("smpte170m"@), rav1e: Some("BT601"@) })
    } else if code == 7 {
        Some(Row { label: "SMPTE 240m"@, x265: Some("smpte240m"@), rav1e: Some("SMPTE240"@) })
    } else if code == 8 {
        Some(Row { label: "Linear"@, x265: Some("linear"@), rav1e: Some("Linear"@) })
    } else if code == 9 {
        Some(Row { label: "Log 100"@, x265: Some("log100"@), rav1e: Some("Log100"@) })
    } else if code == 10 {
        Some(Row { label: "Log 316"@, x265: Some("log316"@), rav1e: Some("Log100Sqrt10"@) })
    } else if code == 11 {
        Some(Row { label: "IEC 61966-2-4"@, x265: Some("iec61966-2-4"@), rav1e: Some("IEC61966"@) })
    } else if code == 13 {
        Some(Row { label: "IEC 61966-2-1"@, x265: Some("iec61966-2-1"@), rav1e: Some("SRGB"@) })
    } else if code == 14 {
        Some(Row { label: "BT.2020 10-bit"@, x265: Some("bt2020-10"@), rav1e: Some("BT2020_10Bit"@) })
    } else if code == 15 {
        Some(Row { label: "BT.2020 12-bit"@, x265: Some("bt2020-12"@), rav1e: Some("BT2020_12Bit"@) })
    } else if code == 16 {
        Some(Row { label: "PQ/SMPTE 2084"@, x265: Some("smpte2084"@), rav1e: Some("SMPTE2084"@) })
    } else if code == 18 {
        Some(Row { label: "ARIB B67"@, x265: Some("arib-std-b67"@), rav1e: None })
    } else {
        None
    }
}

/// The code that the name `value` stands for in the dictionary of
/// transfer characteristics, capitals counting as small letters.
pub open spec fn transfer_code(value: Seq<u8>) -> Option<u8> {
    let name = lowercase(value);
    if name == text("bt.709") {
        Some(1)
    } else if name == text("unspecified") {
        Some(2)
    } else if name == text("unset") {
        Some(2)
    } else if name == text("bt.470 m") {
        Some(4)
    } else if name == text("bt.470 bg") {
        Some(5)
    } else if name == text("bt.601") {
        Some(6)
    } else if name == text("smpte 170m/bt.601") {
        Some(6)
    } else if name == text("smpte 240m") {
        Some(7)
    } else if name == text("linear") {
        Some(8)
    } else if name == text("log 100") {
        Some(9)
    } else if name == text("log 316") {
        Some(10)
    } else if name == text("iec 61966-2-4") {
        Some(11)
    } else if name == text("iec 61966-2-1") {
        Some(13)
    } else if name == text("bt.2020 10-bit") {
        Some(14)
    } else if name == text("bt.2020 12-bit") {
        Some(15)
    } else if name == text("pq") {
        Some(16)
    } else if name == text("smpte 2084") {
        Some(16)
    } else if name == text("pq/smpte 2084") {
        Some(16)
    } else if name == text("arib b67") {
        Some(18)
    } else {
        None
    }
}

/// Looks `code` up in the dictionary of transfer characteristics.
pub fn transfer_entry(code: u8) -> (entry: Option<Entry>)
    ensures
        match entry {
            Some(e) => transfer_row(code) == Some(e.row()),
            None => transfer_row(code) is None,
        },
{
    match code {
        1 => Some(Entry { label: "BT.709", x265: Some("bt709"), rav1e: Some("BT709") }),
        2 => Some(Entry { label: "Unspecified", x265: Some("unknown"), rav1e: Some("Unspecified") }),
        4 => Some(Entry { label: "BT.470 M", x265: Some("bt470m"), rav1e: Some("BT470M") }),
        5 => Some(Entry { label: "BT.470 BG", x265: Some("bt470bg"), rav1e: Some("BT470BG") }),
        6 => Some(Entry { label: "SMPTE 170m/BT.601", x265: Some("smpte170m"), rav1e: Some("BT601") }),
        7 => Some(Entry { label: "SMPTE 240m", x265: Some("smpte240m"), rav1e: Some("SMPTE240") }),
        8 => Some(Entry { label: "Linear", x265: Some("linear"), rav1e: Some("Linear") }),
        9 => Some(Entry { label: "Log 100", x265: Some("log100"), rav1e: Some("Log100") }),
        10 => Some(Entry { label: "Log 316", x265: Some("log316"), rav1e: Some("Log100Sqrt10") }),
        11 => Some(Entry { label: "IEC 61966-2-4", x265: Some("iec61966-2-4"), rav1e: Some("IEC61966") }),
        13 => Some(Entry { label: "IEC 61966-2-1", x265: Some("iec61966-2-1"), rav1e: Some("SRGB") }),
        14 => Some(Entry { label: "BT.2020 10-bit", x265: Some("bt2020-10"), rav1e: Some("BT2020_10Bit") }),
        15 => Some(Entry { label: "BT.2020 12-bit", x265: Some("bt2020-12"), rav1e: Some("BT2020_12Bit") }),
        16 => Some(Entry { label: "PQ/SMPTE 2084", x265: Some("smpte2084"), rav1e: Some("SMPTE2084") }),
        18 => Some(Entry { label: "ARIB B67", x265: Some("arib-std-b67"), rav1e: None }),
        _ => None,
    }
}

/// Finds the code of the name `value` in the dictionary of
/// transfer characteristics.
pub fn find_transfer_characteristics(value: &[u8]) -> (code: Result<u8, Error>)
    ensures
        code == named(transfer_code(value@)),
{
    if is_name(value, "bt.709") {
        Ok(1)
    } else if is_name(value, "unspecified") {
        Ok(2)
    } else if is_name(value, "unset") {
        Ok(2)
    } else if is_name(value, "bt.470 m") {
        Ok(4)
    } else if is_name(value, "bt.470 bg") {
        Ok(5)
    } else if is_name(value, "bt.601") {
        Ok(6)
    } else if is_name(value, "smpte 170m/bt.601") {
        Ok(6)
    } else if is_name(value, "smpte 240m") {
        Ok(7)
    } else if is_name(value, "linear") {
        Ok(8)
    } else if is_name(value, "log 100") {
        Ok(9)
    } else if is_name(value, "log 316") {
        Ok(10)
    } else if is_name(value, "iec 61966-2-4") {
        Ok(11)
    } else if is_name(value, "iec 61966-2-1") {
        Ok(13)
    } else if is_name(value, "bt.2020 10-bit") {
        Ok(14)
    } else if is_name(value, "bt.2020 12-bit") {
        Ok(15)
    } else if is_name(value, "pq") {
        Ok(16)
    } else if is_name(value, "smpte 2084") {
        Ok(16)
    } else if is_name(value, "pq/smpte 2084") {
        Ok(16)
    } else if is_name(value, "arib b67") {
        Ok(18)
    } else {
        Err(Error::UnrecognizedValue)
    }
}

/// The code of the name `value` in the dictionary of transfer characteristics;
/// `UnrecognizedValue` for a name that it does not hold.
pub fn parse_transfer_characteristics(value: &str) -> (code: Result<u8, Error>)
    ensures
        code == named(transfer_code(text(value))),
{
    find_transfer_characteristics(value.as_bytes())
}

/// The name of `value` in the dictionary of transfer characteristics;
/// `UnrecognizedValue` for a code that it does not hold.
pub fn print_transfer_characteristics(value: u8) -> (name: Result<&'static str, Error>)
    ensures
        shown(name) == labelled(transfer_row(value)),
{
    match transfer_entry(value) {
        Some(entry) => Ok(entry.label),
        None => Err(Error::UnrecognizedValue),
    }
}

/// The token of the x265 dialect for `value`:
/// `UnrecognizedValue` for a code that the dictionary of
/// transfer characteristics does not hold, `UnsupportedByTarget` for one that
/// it holds without a token for this dialect.
pub fn print_x265_transfer_characteristics(value: u8) -> (token: Result<&'static str, Error>)
    ensures
        shown(token) == x265_token(transfer_row(value)),
{
    match transfer_entry(value) {
        Some(entry) => match entry.x265 {
            Some(token) => Ok(token),
            None => Err(Error::UnsupportedByTarget),
        },
        None => Err(Error::UnrecognizedValue),
    }
}

/// The token of the rav1e dialect for `value`:
/// `UnrecognizedValue` for a code that the dictionary of
/// transfer characteristics does not hold, `UnsupportedByTarget` for one that
/// it holds without a token for this dialect.
pub fn print_rav1e_transfer_characteristics(value: u8) -> (token: Result<&'static str, Error>)
    ensures
        shown(token) == rav1e_token(transfer_row(value)),
{
    match transfer_entry(value) {
        Some(entry) => match entry.rav1e {
            Some(token) => Ok(token),
            None => Err(Error::UnsupportedByTarget),
        },
        None => Err(Error::UnrecognizedValue),
    }
}

/// The dictionary of colour primaries: the row of `code`, where it has one.
pub open spec fn primaries_row(code: u8) -> Option<Row> {
    if code == 1 {
        Some(Row { label: "BT.709"@, x265: Some("bt709"@), rav1e: Some("BT709"@) })
    } else if code == 2 {
        Some(Row { label: "Unspecified"@, x265: Some("unknown"@), rav1e: Some("Unspecified"@) })
    } else if code == 4 {
        Some(Row { label: "BT.470 M"@, x265: Some("bt470m"@), rav1e: Some("BT470M"@) })
    } else if code == 5 {
        Some(Row { label: "BT.470 BG"@, x265: Some("bt470bg"@), rav1e: Some("BT470BG"@) })
    } else if code == 6 {
        Some(Row { label: "SMPTE 170m/BT.601"@, x265: Some("smpte170m"@), rav1e: Some("BT601"@) })
    } else if code == 7 {
        Some(Row { label: "SMPTE 240m"@, x265: Some("smpte240m"@), rav1e: Some("SMPTE240"@) })
    } else if code == 8 {
        Some(Row { label: "Film"@, x265: Some("film"@), rav1e: Some("GenericFilm"@) })
    } else if code == 9 {
        Some(Row { label: "BT.2020"@, x265: Some("bt2020"@), rav1e: Some("BT2020"@) })
    } else if code == 10 {
        Some(Row { label: "SMPTE 428"@, x265: Some("smpte428"@), rav1e: Some("XYZ"@) })
    } else if code == 11 {
        Some(Row { label: "SMPTE 431.2"@, x265: Some("smpte431"@), rav1e: Some("SMPTE431"@) })
    } else if code == 12 {
        Some(Row { label: "SMPTE 432.1"@, x265: Some("smpte432"@), rav1e: Some("SMPTE432"@) })
    } else if code == 22 {
        Some(Row { label: "EBU 3213 E"@, x265: None, rav1e: Some("EBU3213"@) })
    } else {
        None
    }
}

/// The code that the name `value` stands for in the dictionary of
/// colour primaries, capitals counting as small letters.
pub open spec fn primaries_code(value: Seq<u8>) -> Option<u8> {
    let name = lowercase(value);
    if name == text("bt.709") {
        Some(1)
    } else if name == text("unspecified") {
        Some(2)
    } else if name == text("unset") {
        Some(2)
    } else if name == text("bt.470 m") {
        Some(4)
    } else if name == text("bt.470 bg") {
        Some(5)
    } else if name == text("smpte 170m") {
        Some(6)
    } else if name == text("bt.601") {
        Some(6)
    } else if name == text("smpte 170m/bt.601") {
        Some(6)
    } else if name == text("smpte 240m") {
        Some(7)
    } else if name == text("film") {
        Some(8)
    } else if name == text("ntsc") {
        Some(8)
    } else if name == text("bt.2020") {
        Some(9)
    } else if name == text("smpte 428") {
        Some(10)
    } else if name == text("smpte 431.2") {
        Some(11)
    } else if name == text("smpte 432.1") {
        Some(12)
    } else if name == text("ebu 3213 e") {
        Some(22)
    } else {
        None
    }
}

/// Looks `code` up in the dictionary of colour primaries.
pub fn primaries_entry(code: u8) -> (entry: Option<Entry>)
    ensures
        match entry {
            Some(e) => primaries_row(code) == Some(e.row()),
            None => primaries_row(code) is None,
        },
{
    match code {
        1 => Some(Entry { label: "BT.709", x265: Some("bt709"), rav1e: Some("BT709") }),
        2 => Some(Entry { label: "Unspecified", x265: Some("unknown"), rav1e: Some("Unspecified") }),
        4 => Some(Entry { label: "BT.470 M", x265: Some("bt470m"), rav1e: Some("BT470M") }),
        5 => Some(Entry { label: "BT.470 BG", x265: Some("bt470bg"), rav1e: Some("BT470BG") }),
        6 => Some(Entry { label: "SMPTE 170m/BT.601", x265: Some("smpte170m"), rav1e: Some("BT601") }),
        7 => Some(Entry { label: "SMPTE 240m", x265: Some("smpte240m"), rav1e: Some("SMPTE240") }),
        8 => Some(Entry { label: "Film", x265: Some("film"), rav1e: Some("GenericFilm") }),
        9 => Some(Entry { label: "BT.2020", x265: Some("bt2020"), rav1e: Some("BT2020") }),
        10 => Some(Entry { label: "SMPTE 428", x265: Some("smpte428"), rav1e: Some("XYZ") }),
        11 => Some(Entry { label: "SMPTE 431.2", x265: Some("smpte431"), rav1e: Some("SMPTE431") }),
        12 => Some(Entry { label: "SMPTE 432.1", x265: Some("smpte432"), rav1e: Some("SMPTE432") }),
        22 => Some(Entry { label: "EBU 3213 E", x265: None, rav1e: Some("EBU3213") }),
        _ => None,
    }
}

/// Finds the code of the name `value` in the dictionary of
/// colour primaries.
pub fn find_color_primaries(value: &[u8]) -> (code: Result<u8, Error>)
    ensures
        code == named(primaries_code(value@)),
{
    if is_name(value, "bt.709") {
        Ok(1)
    } else if is_name(value, "unspecified") {
        Ok(2)
    } else if is_name(value, "unset") {
        Ok(2)
    } else if is_name(value, "bt.470 m") {
        Ok(4)
    } else if is_name(value, "bt.470 bg") {
        Ok(5)
    } else if is_name(value, "smpte 170m") {
        Ok(6)
    } else if is_name(value, "bt.601") {
        Ok(6)
    } else if is_name(value, "smpte 170m/bt.601") {
        Ok(6)
    } else if is_name(value, "smpte 240m") {
        Ok(7)
    } else if is_name(value, "film") {
        Ok(8)
    } else if is_name(value, "ntsc") {
        Ok(8)
    } else if is_name(value, "bt.2020") {
        Ok(9)
    } else if is_name(value, "smpte 428") {
        Ok(10)
    } else if is_name(value, "smpte 431.2") {
        Ok(11)
    } else if is_name(value, "smpte 432.1") {
        Ok(12)
    } else if is_name(value, "ebu 3213 e") {
        Ok(22)
    } else {
        Err(Error::UnrecognizedValue)
    }
}

/// The code of the name `value` in the dictionary of colour primaries;
/// `UnrecognizedValue` for a name that it does not hold.
pub fn parse_color_primaries(value: &str) -> (code: Result<u8, Error>)
    ensures
        code == named(primaries_code(text(value))),
{
    find_color_primaries(value.as_bytes())
}

/// The name of `value` in the dictionary of colour primaries;
/// `UnrecognizedValue` for a code that it does not hold.
pub fn print_color_primaries(value: u8) -> (name: Result<&'static str, Error>)
    ensures
        shown(name) == labelled(primaries_row(value)),
{
    match primaries_entry(value) {
        Some(entry) => Ok(entry.label),
        None => Err(Error::UnrecognizedValue),
    }
}

/// The token of the x265 dialect for `value`:
/// `UnrecognizedValue` for a code that the dictionary of
/// colour primaries does not hold, `UnsupportedByTarget` for one that
/// it holds without a token for this dialect.
pub fn print_x265_color_primaries(value: u8) -> (token: Result<&'static str, Error>)
    ensures
        shown(token) == x265_token(primaries_row(value)),
{
    match primaries_entry(value) {
        Some(entry) => match entry.x265 {
            Some(token) => Ok(token),
            None => Err(Error::UnsupportedByTarget),
        },
        None => Err(Error::UnrecognizedValue),
    }
}

/// The token of the rav1e dialect for `value`:
/// `UnrecognizedValue` for a code that the dictionary of
/// colour primaries does not hold, `UnsupportedByTarget` for one that
/// it holds without a token for this dialect.
pub fn print_rav1e_color_primaries(value: u8) -> (token: Result<&'static str, Error>)
    ensures
        shown(token) == rav1e_token(primaries_row(value)),
{
    match primaries_entry(value) {
        Some(entry) => match entry.rav1e {
            Some(token) => Ok(token),
            None => Err(Error::UnsupportedByTarget),
        },
        None => Err(Error::UnrecognizedValue),
    }
}

/// The colour range as the property editor counts it: it keeps `0` for
/// "unset" and writes full range, canonically `0`, as `2`.
pub open spec fn mkvedit_range(value: u8) -> u8 {
    if value == 0 {
        2
    } else {
        value
    }
}

/// Translates the canonical colour range into the property editor's code.
pub fn color_range_to_mkvedit_prop(value: u8) -> (prop: u8)
    ensures
        prop == mkvedit_range(value),
{
    if value == 0 {
        return 2;
    }
    value
}

/// The container's `(horizontal, vertical)` siting codes of a chroma
/// location. Horizontally `1` is collocated with the left luma sample and
/// `2` is halfway between two; vertically `1` is collocated with the top
/// sample and `2` is halfway. The container has no code for samples at the
/// bottom, so the vertical code of those locations is `0`, unspecified.
pub open spec fn siting(location: ChromaLocation) -> (u8, u8) {
    match location {
        ChromaLocation::Left => (1, 2),
        ChromaLocation::Center => (2, 2),
        ChromaLocation::TopLeft => (1, 1),
        ChromaLocation::Top => (2, 1),
        ChromaLocation::BottomLeft => (1, 0),
        ChromaLocation::Bottom => (2, 0),
    }
}

/// The container's `(horizontal, vertical)` siting codes of `location`.
pub fn chroma_siting(location: ChromaLocation) -> (codes: (u8, u8))
    ensures
        codes == siting(location),
{
    match location {
        ChromaLocation::Left => (1, 2),
        ChromaLocation::Center => (2, 2),
        ChromaLocation::TopLeft => (1, 1),
        ChromaLocation::Top => (2, 1),
        ChromaLocation::BottomLeft => (1, 0),
        ChromaLocation::Bottom => (2, 0),
    }
}

/// The name of a chroma location.
pub open spec fn location_label(location: ChromaLocation) -> Seq<char> {
    match location {
        ChromaLocation::Left => "Left"@,
        ChromaLocation::Center => "Center"@,
        ChromaLocation::TopLeft => "Top Left"@,
        ChromaLocation::Top => "Top"@,
        ChromaLocation::BottomLeft => "Bottom Left"@,
        ChromaLocation::Bottom => "Bottom"@,
    }
}

/// The name of `location`.
pub fn print_chroma_location(location: ChromaLocation) -> (name: &'static str)
    ensures
        name@ == location_label(location),
{
    match location {
        ChromaLocation::Left => "Left",
        ChromaLocation::Center => "Center",
        ChromaLocation::TopLeft => "Top Left",
        ChromaLocation::Top => "Top",
        ChromaLocation::BottomLeft => "Bottom Left",
        ChromaLocation::Bottom => "Bottom",
    }
}

/// The number of a chroma location in the x265 dialect, which
/// counts all six.
pub open spec fn location_number(location: ChromaLocation) -> u8 {
    match location {
        ChromaLocation::Left => 0,
        ChromaLocation::Center => 1,
        ChromaLocation::TopLeft => 2,
        ChromaLocation::Top => 3,
        ChromaLocation::BottomLeft => 4,
        ChromaLocation::Bottom => 5,
    }
}

/// The number of `location` in the x265 dialect.
pub fn print_x265_chroma_location(location: ChromaLocation) -> (number: u8)
    ensures
        number == location_number(location),
{
    match location {
        ChromaLocation::Left => 0,
        ChromaLocation::Center => 1,
        ChromaLocation::TopLeft => 2,
        ChromaLocation::Top => 3,
        ChromaLocation::BottomLeft => 4,
        ChromaLocation::Bottom => 5,
    }
}

/// The token of a chroma location in the SVT-AV1 dialect, which
/// knows two of the six.
pub open spec fn location_position(location: ChromaLocation) -> Result<Seq<char>, Error> {
    match location {
        ChromaLocation::Left => Ok("left"@),
        ChromaLocation::TopLeft => Ok("topleft"@),
        _ => Err(Error::UnsupportedByTarget),
    }
}

/// The token of `location` in the SVT-AV1 dialect;
/// `UnsupportedByTarget` for a location that it cannot express.
pub fn print_svt_av1_chroma_location(location: ChromaLocation) -> (token: Result<
    &'static str,
    Error,
>)
    ensures
        shown(token) == location_position(location),
{
    match location {
        ChromaLocation::Left => Ok("left"),
        ChromaLocation::TopLeft => Ok("topleft"),
        _ => Err(Error::UnsupportedByTarget),
    }
}

/// The colour range as SVT-AV1 counts it: `0` is limited and
/// `1` is full, the reverse of the canonical codes.
pub open spec fn svt_av1_range(value: u8) -> Result<u8, Error> {
    if value == 0 {
        Ok(1u8)
    } else if value == 1 {
        Ok(0u8)
    } else {
        Err(Error::UnrecognizedValue)
    }
}

/// Translates the canonical colour range into SVT-AV1's code;
/// `UnrecognizedValue` for a code that is no colour range.
pub fn print_svt_av1_color_range(value: u8) -> (code: Result<u8, Error>)
    ensures
        code == svt_av1_range(value),
{
    match value {
        0 => Ok(1),
        1 => Ok(0),
        _ => Err(Error::UnrecognizedValue),
    }
}

/// A code of the SVT-AV1 dialect, which takes the canonical code
/// itself wherever the dictionary holds it.
pub open spec fn known_code(row: Option<Row>, value: u8) -> Result<u8, Error> {
    match row {
        Some(_) => Ok(value),
        None => Err(Error::UnrecognizedValue),
    }
}

/// Every name of the dictionary of colour range is read back as its own
/// code: showing a code and reading the name are inverse.
pub proof fn lemma_range_name_reads_back(code: u8)
    requires
        range_row(code) is Some,
    ensures
        range_code(encode_utf8(range_row(code)->0.label)) == Some(code),
{
    reveal_strlit("Full");
    reveal_strlit("Limited");
    reveal_strlit("limited");
    reveal_strlit("full");
    is_ascii_spec_bytes("Full");
    is_ascii_spec_bytes("Limited");
    is_ascii_spec_bytes("limited");
    is_ascii_spec_bytes("full");
    if code == 0 {
        assert(lowercase(text("Full")) =~= text("full"));
        assert(text("full").len() != text("limited").len());
    } else if code == 1 {
        assert(lowercase(text("Limited")) =~= text("limited"));
    }
}

/// Every code that a name of the dictionary of colour range stands
/// for has a row, so that it can be shown again.
pub proof fn lemma_range_code_has_row(value: Seq<u8>)
    requires
        range_code(value) is Some,
    ensures
        range_row(range_code(value)->0) is Some,
{
}

/// Every name of the dictionary of matrix coefficients is read back as its own
/// code: showing a code and reading the name are inverse.
pub proof fn lemma_matrix_name_reads_back(code: u8)
    requires
        matrix_row(code) is Some,
    ensures
        matrix_code(encode_utf8(matrix_row(code)->0.label)) == Some(code),
{
    reveal_strlit("RGB");
    reveal_strlit("BT.709");
    reveal_strlit("Unspecified");
    reveal_strlit("FCC");
    reveal_strlit("BT.470 BG");
    reveal_strlit("SMPTE 170m/BT.601");
    reveal_strlit("SMPTE 240m");
    reveal_strlit("YCgCo");
    reveal_strlit("BT.2020 Non-Constant Light");
    reveal_strlit("BT.2020 Constant Light");
    reveal_strlit("Chroma-Derived Non-Constant Light");
    reveal_strlit("Chroma-Derived Constant Light");
    reveal_strlit("rgb");
    reveal_strlit("bt.709");
    reveal_strlit("unspecified");
    reveal_strlit("unset");
    reveal_strlit("fcc");
    reveal_strlit("bt.470 bg");
    reveal_strlit("smpte 170m");
    reveal_strlit("bt.601");
    reveal_strlit("smpte 170m/bt.601");
    reveal_strlit("smpte 240m");
    reveal_strlit("ycgco");
    reveal_strlit("bt.2020 non-constant");
    reveal_strlit("bt.2020 non-constant light");
    reveal_strlit("bt.2020 constant");
    reveal_strlit("bt.2020 constant light");
    reveal_strlit("chroma-derived non-constant light");
    reveal_strlit("chroma-derived constant light");
    is_ascii_spec_bytes("RGB");
    is_ascii_spec_bytes("BT.709");
    is_ascii_spec_bytes("Unspecified");
    is_ascii_spec_bytes("FCC");
    is_ascii_spec_bytes("BT.470 BG");
    is_ascii_spec_bytes("SMPTE 170m/BT.601");
    is_ascii_spec_bytes("SMPTE 240m");
    is_ascii_spec_bytes("YCgCo");
    is_ascii_spec_bytes("BT.2020 Non-Constant Light");
    is_ascii_spec_bytes("BT.2020 Constant Light");
    is_ascii_spec_bytes("Chroma-Derived Non-Constant Light");
    is_ascii_spec_bytes("Chroma-Derived Constant Light");
    is_ascii_spec_bytes("rgb");
    is_ascii_spec_bytes("bt.709");
    is_ascii_spec_bytes("unspecified");
    is_ascii_spec_bytes("unset");
    is_ascii_spec_bytes("fcc");
    is_ascii_spec_bytes("bt.470 bg");
    is_ascii_spec_bytes("smpte 170m");
    is_ascii_spec_bytes("bt.601");
    is_ascii_spec_bytes("smpte 170m/bt.601");
    is_ascii_spec_bytes("smpte 240m");
    is_ascii_spec_bytes("ycgco");
    is_ascii_spec_bytes("bt.2020 non-constant");
    is_ascii_spec_bytes("bt.2020 non-constant light");
    is_ascii_spec_bytes("bt.2020 constant");
    is_ascii_spec_bytes("bt.2020 constant light");
    is_ascii_spec_bytes("chroma-derived non-constant light");
    is_ascii_spec_bytes("chroma-derived constant light");
    if code == 0 {
        assert(lowercase(text("RGB")) =~= text("rgb"));
    } else if code == 1 {
        assert(lowercase(text("BT.709")) =~= text("bt.709"));
        assert(text("bt.709").len() != text("rgb").len());
    } else if code == 2 {
        assert(lowercase(text("Unspecified")) =~= text("unspecified"));
        assert(text("unspecified").len() != text("rgb").len());
        assert(text("unspecified").len() != text("bt.709").len());
    } else if code == 4 {
        assert(lowercase(text("FCC")) =~= text("fcc"));
        assert(text("fcc")[0] != text("rgb")[0]);
        assert(text("fcc").len() != text("bt.709").len());
        assert(text("fcc").len() != text("unspecified").len());
        assert(text("fcc").len() != text("unset").len());
    } else if code == 5 {
        assert(lowercase(text("BT.470 BG")) =~= text("bt.470 bg"));
        assert(text("bt.470 bg").len() != text("rgb").len());
        assert(text("bt.470 bg").len() != text("bt.709").len());
        assert(text("bt.470 bg").len() != text("unspecified").len());
        assert(text("bt.470 bg").len() != text("unset").len());
        assert(text("bt.470 bg").len() != text("fcc").len());
    } else if code == 6 {
        assert(lowercase(text("SMPTE 170m/BT.601")) =~= text("smpte 170m/bt.601"));
        assert(text("smpte 170m/bt.601").len() != text("rgb").len());
        assert(text("smpte 170m/bt.601").len() != text("bt.709").len());
        assert(text("smpte 170m/bt.601").len() != text("unspecified").len());
        assert(text("smpte 170m/bt.601").len() != text("unset").len());
        assert(text("smpte 170m/bt.601").len() != text("fcc").len());
        assert(text("smpte 170m/bt.601").len() != text("bt.470 bg").len());
        assert(text("smpte 170m/bt.601").len() != text("smpte 170m").len());
        assert(text("smpte 170m/bt.601").len() != text("bt.601").len());
    } else if code == 7 {
        assert(lowercase(text("SMPTE 240m")) =~= text("smpte 240m"));
        assert(text("smpte 240m").len() != text("rgb").len());
        assert(text("smpte 240m").len() != text("bt.709").len());
        assert(text("smpte 240m").len() != text("unspecified").len());
        assert(text("smpte 240m").len() != text("unset").len());
        assert(text("smpte 240m").len() != text("fcc").len());
        assert(text("smpte 240m").len() != text("bt.470 bg").len());
        assert(text("smpte 240m")[6] != text("smpte 170m")[6]);
        assert(text("smpte 240m").len() != text("bt.601").len());
        assert(text("smpte 240m").len() != text("smpte 170m/bt.601").len());
    } else if code == 8 {
        assert(lowercase(text("YCgCo")) =~= text("ycgco"));
        assert(text("ycgco").len() != text("rgb").len());
        assert(text("ycgco").len() != text("bt.709").len());
        assert(text("ycgco").len() != text("unspecified").len());
        assert(text("ycgco")[0] != text("unset")[0]);
        assert(text("ycgco").len() != text("fcc").len());
        assert(text("ycgco").len() != text("bt.470 bg").len());
        assert(text("ycgco").len() != text("smpte 170m").len());
        assert(text("ycgco").len() != text("bt.601").len());
        assert(text("ycgco").len() != text("smpte 170m/bt.601").len());
        assert(text("ycgco").len() != text("smpte 240m").len());
    } else if code == 9 {
        assert(lowercase(text("BT.2020 Non-Constant Light")) =~= text("bt.2020 non-constant light"));
        assert(text("bt.2020 non-constant light").len() != text("rgb").len());
        assert(text("bt.2020 non-constant light").len() != text("bt.709").len());
        assert(text("bt.2020 non-constant light").len() != text("unspecified").len());
        assert(text("bt.2020 non-constant light").len() != text("unset").len());
        assert(text("bt.2020 non-constant light").len() != text("fcc").len());
        assert(text("bt.2020 non-constant light").len() != text("bt.470 bg").len());
        assert(text("bt.2020 non-constant light").len() != text("smpte 170m").len());
        assert(text("bt.2020 non-constant light").len() != text("bt.601").len());
        assert(text("bt.2020 non-constant light").len() != text("smpte 170m/bt.601").len());
        assert(text("bt.2020 non-constant light").len() != text("smpte 240m").len());
        assert(text("bt.2020 non-constant light").len() != text("ycgco").len());
        assert(text("bt.2020 non-constant light").len() != text("bt.2020 non-constant").len());
    } else if code == 10 {
        assert(lowercase(text("BT.2020 Constant Light")) =~= text("bt.2020 constant light"));
        assert(text("bt.2020 constant light").len() != text("rgb").len());
        assert(text("bt.2020 constant light").len() != text("bt.709").len());
        assert(text("bt.2020 constant light").len() != text("unspecified").len());
        assert(text("bt.2020 constant light").len() != text("unset").len());
        assert(text("bt.2020 constant light").len() != text("fcc").len());
        assert(text("bt.2020 constant light").len() != text("bt.470 bg").len());
        assert(text("bt.2020 constant light").len() != text("smpte 170m").len());
        assert(text("bt.2020 constant light").len() != text("bt.601").len());
        assert(text("bt.2020 constant light").len() != text("smpte 170m/bt.601").len());
        assert(text("bt.2020 constant light").len() != text("smpte 240m").len());
        assert(text("bt.2020 constant light").len() != text("ycgco").len());
        assert(text("bt.2020 constant light").len() != text("bt.2020 non-constant").len());
        assert(text("bt.2020 constant light").len() != text("bt.2020 non-constant light").len());
        assert(text("bt.2020 constant light").len() != text("bt.2020 constant").len());
    } else if code == 12 {
        assert(lowercase(text("Chroma-Derived Non-Constant Light")) =~= text("chroma-derived non-constant light"));
        assert(text("chroma-derived non-constant light").len() != text("rgb").len());
        assert(text("chroma-derived non-constant light").len() != text("bt.709").len());
        assert(text("chroma-derived non-constant light").len() != text("unspecified").len());
        assert(text("chroma-derived non-constant light").len() != text("unset").len());
        assert(text("chroma-derived non-constant light").len() != text("fcc").len());
        assert(text("chroma-derived non-constant light").len() != text("bt.470 bg").len());
        assert(text("chroma-derived non-constant light").len() != text("smpte 170m").len());
        assert(text("chroma-derived non-constant light").len() != text("bt.601").len());
        assert(text("chroma-derived non-constant light").len() != text("smpte 170m/bt.601").len());
        assert(text("chroma-derived non-constant light").len() != text("smpte 240m").len());
        assert(text("chroma-derived non-constant light").len() != text("ycgco").len());
        assert(text("chroma-derived non-constant light").len() != text("bt.2020 non-constant").len());
        assert(text("chroma-derived non-constant light").len() != text("bt.2020 non-constant light").len());
        assert(text("chroma-derived non-constant light").len() != text("bt.2020 constant").len());
        assert(text("chroma-derived non-constant light").len() != text("bt.2020 constant light").len());
    } else if code == 13 {
        assert(lowercase(text("Chroma-Derived Constant Light")) =~= text("chroma-derived constant light"));
        assert(text("chroma-derived constant light").len() != text("rgb").len());
        assert(text("chroma-derived constant light").len() != text("bt.709").len());
        assert(text("chroma-derived constant light").len() != text("unspecified").len());
        assert(text("chroma-derived constant light").len() != text("unset").len());
        assert(text("chroma-derived constant light").len() != text("fcc").len());
        assert(text("chroma-derived constant light").len() != text("bt.470 bg").len());
        assert(text("chroma-derived constant light").len() != text("smpte 170m").len());
        assert(text("chroma-derived constant light").len() != text("bt.601").len());
        assert(text("chroma-derived constant light").len() != text("smpte 170m/bt.601").len());
        assert(text("chroma-derived constant light").len() != text("smpte 240m").len());
        assert(text("chroma-derived constant light").len() != text("ycgco").len());
        assert(text("chroma-derived constant light").len() != text("bt.2020 non-constant").len());
        assert(text("chroma-derived constant light").len() != text("bt.2020 non-constant light").len());
        assert(text("chroma-derived constant light").len() != text("bt.2020 constant").len());
        assert(text("chroma-derived constant light").len() != text("bt.2020 constant light").len());
        assert(text("chroma-derived constant light").len() != text("chroma-derived non-constant light").len());
    }
}

/// Every code that a name of the dictionary of matrix coefficients stands
/// for has a row, so that it can be shown again.
pub proof fn lemma_matrix_code_has_row(value: Seq<u8>)
    requires
        matrix_code(value) is Some,
    ensures
        matrix_row(matrix_code(value)->0) is Some,
{
}

/// Every name of the dictionary of transfer characteristics is read back as its own
/// code: showing a code and reading the name are inverse.
pub proof fn lemma_transfer_name_reads_back(code: u8)
    requires
        transfer_row(code) is Some,
    ensures
        transfer_code(encode_utf8(transfer_row(code)->0.label)) == Some(code),
{
    reveal_strlit("BT.709");
    reveal_strlit("Unspecified");
    reveal_strlit("BT.470 M");
    reveal_strlit("BT.470 BG");
    reveal_strlit("SMPTE 170m/BT.601");
    reveal_strlit("SMPTE 240m");
    reveal_strlit("Linear");
    reveal_strlit("Log 100");
    reveal_strlit("Log 316");
    reveal_strlit("IEC 61966-2-4");
    reveal_strlit("IEC 61966-2-1");
    reveal_strlit("BT.2020 10-bit");
    reveal_strlit("BT.2020 12-bit");
    reveal_strlit("PQ/SMPTE 2084");
    reveal_strlit("ARIB B67");
    reveal_strlit("bt.709");
    reveal_strlit("unspecified");
    reveal_strlit("unset");
    reveal_strlit("bt.470 m");
    reveal_strlit("bt.470 bg");
    reveal_strlit("bt.601");
    reveal_strlit("smpte 170m/bt.601");
    reveal_strlit("smpte 240m");
    reveal_strlit("linear");
    reveal_strlit("log 100");
    reveal_strlit("log 316");
    reveal_strlit("iec 61966-2-4");
    reveal_strlit("iec 61966-2-1");
    reveal_strlit("bt.2020 10-bit");
    reveal_strlit("bt.2020 12-bit");
    reveal_strlit("pq");
    reveal_strlit("smpte 2084");
    reveal_strlit("pq/smpte 2084");
    reveal_strlit("arib b67");
    is_ascii_spec_bytes("BT.709");
    is_ascii_spec_bytes("Unspecified");
    is_ascii_spec_bytes("BT.470 M");
    is_ascii_spec_bytes("BT.470 BG");
    is_ascii_spec_bytes("SMPTE 170m/BT.601");
    is_ascii_spec_bytes("SMPTE 240m");
    is_ascii_spec_bytes("Linear");
    is_ascii_spec_bytes("Log 100");
    is_ascii_spec_bytes("Log 316");
    is_ascii_spec_bytes("IEC 61966-2-4");
    is_ascii_spec_bytes("IEC 61966-2-1");
    is_ascii_spec_bytes("BT.2020 10-bit");
    is_ascii_spec_bytes("BT.2020 12-bit");
    is_ascii_spec_bytes("PQ/SMPTE 2084");
    is_ascii_spec_bytes("ARIB B67");
    is_ascii_spec_bytes("bt.709");
    is_ascii_spec_bytes("unspecified");
    is_ascii_spec_bytes("unset");
    is_ascii_spec_bytes("bt.470 m");
    is_ascii_spec_bytes("bt.470 bg");
    is_ascii_spec_bytes("bt.601");
    is_ascii_spec_bytes("smpte 170m/bt.601");
    is_ascii_spec_bytes("smpte 240m");
    is_ascii_spec_bytes("linear");
    is_ascii_spec_bytes("log 100");
    is_ascii_spec_bytes("log 316");
    is_ascii_spec_bytes("iec 61966-2-4");
    is_ascii_spec_bytes("iec 61966-2-1");
    is_ascii_spec_bytes("bt.2020 10-bit");
    is_ascii_spec_bytes("bt.2020 12-bit");
    is_ascii_spec_bytes("pq");
    is_ascii_spec_bytes("smpte 2084");
    is_ascii_spec_bytes("pq/smpte 2084");
    is_ascii_spec_bytes("arib b67");
    if code == 1 {
        assert(lowercase(text("BT.709")) =~= text("bt.709"));
    } else if code == 2 {
        assert(lowercase(text("Unspecified")) =~= text("unspecified"));
        assert(text("unspecified").len() != text("bt.709").len());
    } else if code == 4 {
        assert(lowercase(text("BT.470 M")) =~= text("bt.470 m"));
        assert(text("bt.470 m").len() != text("bt.709").len());
        assert(text("bt.470 m").len() != text("unspecified").len());
        assert(text("bt.470 m").len() != text("unset").len());
    } else if code == 5 {
        assert(lowercase(text("BT.470 BG")) =~= text("bt.470 bg"));
        assert(text("bt.470 bg").len() != text("bt.709").len());
        assert(text("bt.470 bg").len() != text("unspecified").len());
        assert(text("bt.470 bg").len() != text("unset").len());
        assert(text("bt.470 bg").len() != text("bt.470 m").len());
    } else if code == 6 {
        assert(lowercase(text("SMPTE 170m/BT.601")) =~= text("smpte 170m/bt.601"));
        assert(text("smpte 170m/bt.601").len() != text("bt.709").len());
        assert(text("smpte 170m/bt.601").len() != text("unspecified").len());
        assert(text("smpte 170m/bt.601").len() != text("unset").len());
        assert(text("smpte 170m/bt.601").len() != text("bt.470 m").len());
        assert(text("smpte 170m/bt.601").len() != text("bt.470 bg").len());
        assert(text("smpte 170m/bt.601").len() != text("bt.601").len());
    } else if code == 7 {
        assert(lowercase(text("SMPTE 240m")) =~= text("smpte 240m"));
        assert(text("smpte 240m").len() != text("bt.709").len());
        assert(text("smpte 240m").len() != text("unspecified").len());
        assert(text("smpte 240m").len() != text("unset").len());
        assert(text("smpte 240m").len() != text("bt.470 m").len());
        assert(text("smpte 240m").len() != text("bt.470 bg").len());
        assert(text("smpte 240m").len() != text("bt.601").len());
        assert(text("smpte 240m").len() != text("smpte 170m/bt.601").len());
    } else if code == 8 {
        assert(lowercase(text("Linear")) =~= text("linear"));
        assert(text("linear")[0] != text("bt.709")[0]);
        assert(text("linear").len() != text("unspecified").len());
        assert(text("linear").len() != text("unset").len());
        assert(text("linear").len() != text("bt.470 m").len());
        assert(text("linear").len() != text("bt.470 bg").len());
        assert(text("linear")[0] != text("bt.601")[0]);
        assert(text("linear").len() != text("smpte 170m/bt.601").len());
        assert(text("linear").len() != text("smpte 240m").len());
    } else if code == 9 {
        assert(lowercase(text("Log 100")) =~= text("log 100"));
        assert(text("log 100").len() != text("bt.709").len());
        assert(text("log 100").len() != text("unspecified").len());
        assert(text("log 100").len() != text("unset").len());
        assert(text("log 100").len() != text("bt.470 m").len());
        assert(text("log 100").len() != text("bt.470 bg").len());
        assert(text("log 100").len() != text("bt.601").len());
        assert(text("log 100").len() != text("smpte 170m/bt.601").len());
        assert(text("log 100").len() != text("smpte 240m").len());
        assert(text("log 100").len() != text("linear").len());
    } else if code == 10 {
        assert(lowercase(text("Log 316")) =~= text("log 316"));
        assert(text("log 316").len() != text("bt.709").len());
        assert(text("log 316").len() != text("unspecified").len());
        assert(text("log 316").len() != text("unset").len());
        assert(text("log 316").len() != text("bt.470 m").len());
        assert(text("log 316").len() != text("bt.470 bg").len());
        assert(text("log 316").len() != text("bt.601").len());
        assert(text("log 316").len() != text("smpte 170m/bt.601").len());
        assert(text("log 316").len() != text("smpte 240m").len());
        assert(text("log 316").len() != text("linear").len());
        assert(text("log 316")[4] != text("log 100")[4]);
    } else if code == 11 {
        assert(lowercase(text("IEC 61966-2-4")) =~= text("iec 61966-2-4"));
        assert(text("iec 61966-2-4").len() != text("bt.709").len());
        assert(text("iec 61966-2-4").len() != text("unspecified").len());
        assert(text("iec 61966-2-4").len() != text("unset").len());
        assert(text("iec 61966-2-4").len() != text("bt.470 m").len());
        assert(text("iec 61966-2-4").len() != text("bt.470 bg").len());
        assert(text("iec 61966-2-4").len() != text("bt.601").len());
        assert(text("iec 61966-2-4").len() != text("smpte 170m/bt.601").len());
        assert(text("iec 61966-2-4").len() != text("smpte 240m").len());
        assert(text("iec 61966-2-4").len() != text("linear").len());
        assert(text("iec 61966-2-4").len() != text("log 100").len());
        assert(text("iec 61966-2-4").len() != text("log 316").len());
    } else if code == 13 {
        assert(lowercase(text("IEC 61966-2-1")) =~= text("iec 61966-2-1"));
        assert(text("iec 61966-2-1").len() != text("bt.709").len());
        assert(text("iec 61966-2-1").len() != text("unspecified").len());
        assert(text("iec 61966-2-1").len() != text("unset").len());
        assert(text("iec 61966-2-1").len() != text("bt.470 m").len());
        assert(text("iec 61966-2-1").len() != text("bt.470 bg").len());
        assert(text("iec 61966-2-1").len() != text("bt.601").len());
        assert(text("iec 61966-2-1").len() != text("smpte 170m/bt.601").len());
        assert(text("iec 61966-2-1").len() != text("smpte 240m").len());
        assert(text("iec 61966-2-1").len() != text("linear").len());
        assert(text("iec 61966-2-1").len() != text("log 100").len());
        assert(text("iec 61966-2-1").len() != text("log 316").len());
        assert(text("iec 61966-2-1")[12] != text("iec 61966-2-4")[12]);
    } else if code == 14 {
        assert(lowercase(text("BT.2020 10-bit")) =~= text("bt.2020 10-bit"));
        assert(text("bt.2020 10-bit").len() != text("bt.709").len());
        assert(text("bt.2020 10-bit").len() != text("unspecified").len());
        assert(text("bt.2020 10-bit").len() != text("unset").len());
        assert(text("bt.2020 10-bit").len() != text("bt.470 m").len());
        assert(text("bt.2020 10-bit").len() != text("bt.470 bg").len());
        assert(text("bt.2020 10-bit").len() != text("bt.601").len());
        assert(text("bt.2020 10-bit").len() != text("smpte 170m/bt.601").len());
        assert(text("bt.2020 10-bit").len() != text("smpte 240m").len());
        assert(text("bt.2020 10-bit").len() != text("linear").len());
        assert(text("bt.2020 10-bit").len() != text("log 100").len());
        assert(text("bt.2020 10-bit").len() != text("log 316").len());
        assert(text("bt.2020 10-bit").len() != text("iec 61966-2-4").len());
        assert(text("bt.2020 10-bit").len() != text("iec 61966-2-1").len());
    } else if code == 15 {
        assert(lowercase(text("BT.2020 12-bit")) =~= text("bt.2020 12-bit"));
        assert(text("bt.2020 12-bit").len() != text("bt.709").len());
        assert(text("bt.2020 12-bit").len() != text("unspecified").len());
        assert(text("bt.2020 12-bit").len() != text("unset").len());
        assert(text("bt.2020 12-bit").len() != text("bt.470 m").len());
        assert(text("bt.2020 12-bit").len() != text("bt.470 bg").len());
        assert(text("bt.2020 12-bit").len() != text("bt.601").len());
        assert(text("bt.2020 12-bit").len() != text("smpte 170m/bt.601").len());
        assert(text("bt.2020 12-bit").len() != text("smpte 240m").len());
        assert(text("bt.2020 12-bit").len() != text("linear").len());
        assert(text("bt.2020 12-bit").len() != text("log 100").len());
        assert(text("bt.2020 12-bit").len() != text("log 316").len());
        assert(text("bt.2020 12-bit").len() != text("iec 61966-2-4").len());
        assert(text("bt.2020 12-bit").len() != text("iec 61966-2-1").len());
        assert(text("bt.2020 12-bit")[9] != text("bt.2020 10-bit")[9]);
    } else if code == 16 {
        assert(lowercase(text("PQ/SMPTE 2084")) =~= text("pq/smpte 2084"));
        assert(text("pq/smpte 2084").len() != text("bt.709").len());
        assert(text("pq/smpte 2084").len() != text("unspecified").len());
        assert(text("pq/smpte 2084").len() != text("unset").len());
        assert(text("pq/smpte 2084").len() != text("bt.470 m").len());
        assert(text("pq/smpte 2084").len() != text("bt.470 bg").len());
        assert(text("pq/smpte 2084").len() != text("bt.601").len());
        assert(text("pq/smpte 2084").len() != text("smpte 170m/bt.601").len());
        assert(text("pq/smpte 2084").len() != text("smpte 240m").len());
        assert(text("pq/smpte 2084").len() != text("linear").len());
        assert(text("pq/smpte 2084").len() != text("log 100").len());
        assert(text("pq/smpte 2084").len() != text("log 316").len());
        assert(text("pq/smpte 2084")[0] != text("iec 61966-2-4")[0]);
        assert(text("pq/smpte 2084")[0] != text("iec 61966-2-1")[0]);
        assert(text("pq/smpte 2084").len() != text("bt.2020 10-bit").len());
        assert(text("pq/smpte 2084").len() != text("bt.2020 12-bit").len());
        assert(text("pq/smpte 2084").len() != text("pq").len());
        assert(text("pq/smpte 2084").len() != text("smpte 2084").len());
    } else if code == 18 {
        assert(lowercase(text("ARIB B67")) =~= text("arib b67"));
        assert(text("arib b67").len() != text("bt.709").len());
        assert(text("arib b67").len() != text("unspecified").len());
        assert(text("arib b67").len() != text("unset").len());
        assert(text("arib b67")[0] != text("bt.470 m")[0]);
        assert(text("arib b67").len() != text("bt.470 bg").len());
        assert(text("arib b67").len() != text("bt.601").len());
        assert(text("arib b67").len() != text("smpte 170m/bt.601").len());
        assert(text("arib b67").len() != text("smpte 240m").len());
        assert(text("arib b67").len() != text("linear").len());
        assert(text("arib b67").len() != text("log 100").len());
        assert(text("arib b67").len() != text("log 316").len());
        assert(text("arib b67").len() != text("iec 61966-2-4").len());
        assert(text("arib b67").len() != text("iec 61966-2-1").len());
        assert(text("arib b67").len() != text("bt.2020 10-bit").len());
        assert(text("arib b67").len() != text("bt.2020 12-bit").len());
        assert(text("arib b67").len() != text("pq").len());
        assert(text("arib b67").len() != text("smpte 2084").len());
        assert(text("arib b67").len() != text("pq/smpte 2084").len());
    }
}

/// Every code that a name of the dictionary of transfer characteristics stands
/// for has a row, so that it can be shown again.
pub proof fn lemma_transfer_code_has_row(value: Seq<u8>)
    requires
        transfer_code(value) is Some,
    ensures
        transfer_row(transfer_code(value)->0) is Some,
{
}

/// Every name of the dictionary of colour primaries is read back as its own
/// code: showing a code and reading the name are inverse.
pub proof fn lemma_primaries_name_reads_back(code: u8)
    requires
        primaries_row(code) is Some,
    ensures
        primaries_code(encode_utf8(primaries_row(code)->0.label)) == Some(code),
{
    reveal_strlit("BT.709");
    reveal_strlit("Unspecified");
    reveal_strlit("BT.470 M");
    reveal_strlit("BT.470 BG");
    reveal_strlit("SMPTE 170m/BT.601");
    reveal_strlit("SMPTE 240m");
    reveal_strlit("Film");
    reveal_strlit("BT.2020");
    reveal_strlit("SMPTE 428");
    reveal_strlit("SMPTE 431.2");
    reveal_strlit("SMPTE 432.1");
    reveal_strlit("EBU 3213 E");
    reveal_strlit("bt.709");
    reveal_strlit("unspecified");
    reveal_strlit("unset");
    reveal_strlit("bt.470 m");
    reveal_strlit("bt.470 bg");
    reveal_strlit("smpte 170m");
    reveal_strlit("bt.601");
    reveal_strlit("smpte 170m/bt.601");
    reveal_strlit("smpte 240m");
    reveal_strlit("film");
    reveal_strlit("ntsc");
    reveal_strlit("bt.2020");
    reveal_strlit("smpte 428");
    reveal_strlit("smpte 431.2");
    reveal_strlit("smpte 432.1");
    reveal_strlit("ebu 3213 e");
    is_ascii_spec_bytes("BT.709");
    is_ascii_spec_bytes("Unspecified");
    is_ascii_spec_bytes("BT.470 M");
    is_ascii_spec_bytes("BT.470 BG");
    is_ascii_spec_bytes("SMPTE 170m/BT.601");
    is_ascii_spec_bytes("SMPTE 240m");
    is_ascii_spec_bytes("Film");
    is_ascii_spec_bytes("BT.2020");
    is_ascii_spec_bytes("SMPTE 428");
    is_ascii_spec_bytes("SMPTE 431.2");
    is_ascii_spec_bytes("SMPTE 432.1");
    is_ascii_spec_bytes("EBU 3213 E");
    is_ascii_spec_bytes("bt.709");
    is_ascii_spec_bytes("unspecified");
    is_ascii_spec_bytes("unset");
    is_ascii_spec_bytes("bt.470 m");
    is_ascii_spec_bytes("bt.470 bg");
    is_ascii_spec_bytes("smpte 170m");
    is_ascii_spec_bytes("bt.601");
    is_ascii_spec_bytes("smpte 170m/bt.601");
    is_ascii_spec_bytes("smpte 240m");
    is_ascii_spec_bytes("film");
    is_ascii_spec_bytes("ntsc");
    is_ascii_spec_bytes("bt.2020");
    is_ascii_spec_bytes("smpte 428");
    is_ascii_spec_bytes("smpte 431.2");
    is_ascii_spec_bytes("smpte 432.1");
    is_ascii_spec_bytes("ebu 3213 e");
    if code == 1 {
        assert(lowercase(text("BT.709")) =~= text("bt.709"));
    } else if code == 2 {
        assert(lowercase(text("Unspecified")) =~= text("unspecified"));
        assert(text("unspecified").len() != text("bt.709").len());
    } else if code == 4 {
        assert(lowercase(text("BT.470 M")) =~= text("bt.470 m"));
        assert(text("bt.470 m").len() != text("bt.709").len());
        assert(text("bt.470 m").len() != text("unspecified").len());
        assert(text("bt.470 m").len() != text("unset").len());
    } else if code == 5 {
        assert(lowercase(text("BT.470 BG")) =~= text("bt.470 bg"));
        assert(text("bt.470 bg").len() != text("bt.709").len());
        assert(text("bt.470 bg").len() != text("unspecified").len());
        assert(text("bt.470 bg").len() != text("unset").len());
        assert(text("bt.470 bg").len() != text("bt.470 m").len());
    } else if code == 6 {
        assert(lowercase(text("SMPTE 170m/BT.601")) =~= text("smpte 170m/bt.601"));
        assert(text("smpte 170m/bt.601").len() != text("bt.709").len());
        assert(text("smpte 170m/bt.601").len() != text("unspecified").len());
        assert(text("smpte 170m/bt.601").len() != text("unset").len());
        assert(text("smpte 170m/bt.601").len() != text("bt.470 m").len());
        assert(text("smpte 170m/bt.601").len() != text("bt.470 bg").len());
        assert(text("smpte 170m/bt.601").len() != text("smpte 170m").len());
        assert(text("smpte 170m/bt.601").len() != text("bt.601").len());
    } else if code == 7 {
        assert(lowercase(text("SMPTE 240m")) =~= text("smpte 240m"));
        assert(text("smpte 240m").len() != text("bt.709").len());
        assert(text("smpte 240m").len() != text("unspecified").len());
        assert(text("smpte 240m").len() != text("unset").len());
        assert(text("smpte 240m").len() != text("bt.470 m").len());
        assert(text("smpte 240m").len() != text("bt.470 bg").len());
        assert(text("smpte 240m")[6] != text("smpte 170m")[6]);
        assert(text("smpte 240m").len() != text("bt.601").len());
        assert(text("smpte 240m").len() != text("smpte 170m/bt.601").len());
    } else if code == 8 {
        assert(lowercase(text("Film")) =~= text("film"));
        assert(text("film").len() != text("bt.709").len());
        assert(text("film").len() != text("unspecified").len());
        assert(text("film").len() != text("unset").len());
        assert(text("film").len() != text("bt.470 m").len());
        assert(text("film").len() != text("bt.470 bg").len());
        assert(text("film").len() != text("smpte 170m").len());
        assert(text("film").len() != text("bt.601").len());
        assert(text("film").len() != text("smpte 170m/bt.601").len());
        assert(text("film").len() != text("smpte 240m").len());
    } else if code == 9 {
        assert(lowercase(text("BT.2020")) =~= text("bt.2020"));
        assert(text("bt.2020").len() != text("bt.709").len());
        assert(text("bt.2020").len() != text("unspecified").len());
        assert(text("bt.2020").len() != text("unset").len());
        assert(text("bt.2020").len() != text("bt.470 m").len());
        assert(text("bt.2020").len() != text("bt.470 bg").len());
        assert(text("bt.2020").len() != text("smpte 170m").len());
        assert(text("bt.2020").len() != text("bt.601").len());
        assert(text("bt.2020").len() != text("smpte 170m/bt.601").len());
        assert(text("bt.2020").len() != text("smpte 240m").len());
        assert(text("bt.2020").len() != text("film").len());
        assert(text("bt.2020").len() != text("ntsc").len());
    } else if code == 10 {
        assert(lowercase(text("SMPTE 428")) =~= text("smpte 428"));
        assert(text("smpte 428").len() != text("bt.709").len());
        assert(text("smpte 428").len() != text("unspecified").len());
        assert(text("smpte 428").len() != text("unset").len());
        assert(text("smpte 428").len() != text("bt.470 m").len());
        assert(text("smpte 428")[0] != text("bt.470 bg")[0]);
        assert(text("smpte 428").len() != text("smpte 170m").len());
        assert(text("smpte 428").len() != text("bt.601").len());
        assert(text("smpte 428").len() != text("smpte 170m/bt.601").len());
        assert(text("smpte 428").len() != text("smpte 240m").len());
        assert(text("smpte 428").len() != text("film").len());
        assert(text("smpte 428").len() != text("ntsc").len());
        assert(text("smpte 428").len() != text("bt.2020").len());
    } else if code == 11 {
        assert(lowercase(text("SMPTE 431.2")) =~= text("smpte 431.2"));
        assert(text("smpte 431.2").len() != text("bt.709").len());
        assert(text("smpte 431.2")[0] != text("unspecified")[0]);
        assert(text("smpte 431.2").len() != text("unset").len());
        assert(text("smpte 431.2").len() != text("bt.470 m").len());
        assert(text("smpte 431.2").len() != text("bt.470 bg").len());
        assert(text("smpte 431.2").len() != text("smpte 170m").len());
        assert(text("smpte 431.2").len() != text("bt.601").len());
        assert(text("smpte 431.2").len() != text("smpte 170m/bt.601").len());
        assert(text("smpte 431.2").len() != text("smpte 240m").len());
        assert(text("smpte 431.2").len() != text("film").len());
        assert(text("smpte 431.2").len() != text("ntsc").len());
        assert(text("smpte 431.2").len() != text("bt.2020").len());
        assert(text("smpte 431.2").len() != text("smpte 428").len());
    } else if code == 12 {
        assert(lowercase(text("SMPTE 432.1")) =~= text("smpte 432.1"));
        assert(text("smpte 432.1").len() != text("bt.709").len());
        assert(text("smpte 432.1")[0] != text("unspecified")[0]);
        assert(text("smpte 432.1").len() != text("unset").len());
        assert(text("smpte 432.1").len() != text("bt.470 m").len());
        assert(text("smpte 432.1").len() != text("bt.470 bg").len());
        assert(text("smpte 432.1").len() != text("smpte 170m").len());
        assert(text("smpte 432.1").len() != text("bt.601").len());
        assert(text("smpte 432.1").len() != text("smpte 170m/bt.601").len());
        assert(text("smpte 432.1").len() != text("smpte 240m").len());
        assert(text("smpte 432.1").len() != text("film").len());
        assert(text("smpte 432.1").len() != text("ntsc").len());
        assert(text("smpte 432.1").len() != text("bt.2020").len());
        assert(text("smpte 432.1").len() != text("smpte 428").len());
        assert(text("smpte 432.1")[8] != text("smpte 431.2")[8]);
    } else if code == 22 {
        assert(lowercase(text("EBU 3213 E")) =~= text("ebu 3213 e"));
        assert(text("ebu 3213 e").len() != text("bt.709").len());
        assert(text("ebu 3213 e").len() != text("unspecified").len());
        assert(text("ebu 3213 e").len() != text("unset").len());
        assert(text("ebu 3213 e").len() != text("bt.470 m").len());
        assert(text("ebu 3213 e").len() != text("bt.470 bg").len());
        assert(text("ebu 3213 e")[0] != text("smpte 170m")[0]);
        assert(text("ebu 3213 e").len() != text("bt.601").len());
        assert(text("ebu 3213 e").len() != text("smpte 170m/bt.601").len());
        assert(text("ebu 3213 e")[0] != text("smpte 240m")[0]);
        assert(text("ebu 3213 e").len() != text("film").len());
        assert(text("ebu 3213 e").len() != text("ntsc").len());
        assert(text("ebu 3213 e").len() != text("bt.2020").len());
        assert(text("ebu 3213 e").len() != text("smpte 428").len());
        assert(text("ebu 3213 e").len() != text("smpte 431.2").len());
        assert(text("ebu 3213 e").len() != text("smpte 432.1").len());
    }
}

/// Every code that a name of the dictionary of colour primaries stands
/// for has a row, so that it can be shown again.
pub proof fn lemma_primaries_code_has_row(value: Seq<u8>)
    requires
        primaries_code(value) is Some,
    ensures
        primaries_row(primaries_code(value)->0) is Some,
{
}

} // verus!
