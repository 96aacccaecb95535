//! The frame side-data probe: mastering display and light level metadata
//! as the first decoded frame carries them, one `name=value` pair on a
//! line, fractional values as `numerator/denominator`.

use vstd::prelude::*;
use vstd::string::*;
use crate::error::Error;
use crate::metadata::{Coordinate, HdrMetadata, Level};
use crate::ratio::Ratio;
use crate::text::{
    after_first,
    contains,
    has,
    has_prefix,
    lines,
    next_line,
    number,
    parse_number,
    split_at_first,
    split_once,
    starts_with,
    text,
    value_after,
};

verus! {

/// What a line of the side-data probe is about.
#[derive(Clone, Copy, Debug, PartialEq, Eq, Structural)]
pub enum SideDataLine {
    /// A chromaticity component, as a fraction.
    Chromaticity(Coordinate),
    /// The minimum luminance, as a fraction.
    MinLuminance,
    /// The maximum luminance, as a fraction of which the whole part is
    /// kept.
    MaxLuminance,
    /// A light level, as a whole number.
    Light(Level),
}

/// What `line` is about: the name with which it begins decides.
pub open spec fn side_data_line(line: Seq<u8>) -> Option<SideDataLine> {
    if has_prefix(line, text("red_x=")) {
        Some(SideDataLine::Chromaticity(Coordinate::RedX))
    } else if has_prefix(line, text("red_y=")) {
        Some(SideDataLine::Chromaticity(Coordinate::RedY))
    } else if has_prefix(line, text("green_x=")) {
        Some(SideDataLine::Chromaticity(Coordinate::GreenX))
    } else if has_prefix(line, text("green_y=")) {
        Some(SideDataLine::Chromaticity(Coordinate::GreenY))
    } else if has_prefix(line, text("blue_x=")) {
        Some(SideDataLine::Chromaticity(Coordinate::BlueX))
    } else if has_prefix(line, text("blue_y=")) {
        Some(SideDataLine::Chromaticity(Coordinate::BlueY))
    } else if has_prefix(line, text("white_point_x=")) {
        Some(SideDataLine::Chromaticity(Coordinate::WhiteX))
    } else if has_prefix(line, text("white_point_y=")) {
        Some(SideDataLine::Chromaticity(Coordinate::WhiteY))
    } else if has_prefix(line, text("min_luminance=")) {
        Some(SideDataLine::MinLuminance)
    } else if has_prefix(line, text("max_luminance=")) {
        Some(SideDataLine::MaxLuminance)
    } else if has_prefix(line, text("max_content=")) {
        Some(SideDataLine::Light(Level::MaxContentLight))
    } else if has_prefix(line, text("max_average=")) {
        Some(SideDataLine::Light(Level::MaxFrameLight))
    } else {
        None
    }
}

/// The fraction that `value` writes as `numerator/denominator`, both
/// whole numbers of at most `limit` and the denominator not zero.
pub open spec fn fraction(value: Seq<u8>, limit: nat) -> Option<(nat, nat)> {
    match split_once(value, text("/")) {
        Some((top, bottom)) => match (number(top, limit), number(bottom, limit)) {
            (Some(n), Some(d)) => if d != 0 {
                Some((n, d))
            } else {
                None
            },
            _ => None,
        },
        None => None,
    }
}

/// The block after a line about `kind` with the value `value` was read.
pub open spec fn side_data_store(hdr: HdrMetadata, kind: SideDataLine, value: Seq<u8>) -> Result<
    HdrMetadata,
    Error,
> {
    match kind {
        SideDataLine::Chromaticity(which) => match fraction(value, u64::MAX as nat) {
            Some((n, d)) => Ok(hdr.with_coordinate(which, Ratio::of(n as u64, d as u64))),
            None => Err(Error::MalformedField),
        },
        SideDataLine::MinLuminance => match fraction(value, u64::MAX as nat) {
            Some((n, d)) => Ok(hdr.with_min_luma(Ratio::of(n as u64, d as u64))),
            None => Err(Error::MalformedField),
        },
        SideDataLine::MaxLuminance => match fraction(value, u32::MAX as nat) {
            Some((n, d)) => Ok(hdr.with_level(Level::MaxLuminance, (n / d) as u32)),
            None => Err(Error::MalformedField),
        },
        SideDataLine::Light(which) => match number(value, u32::MAX as nat) {
            Some(n) => Ok(hdr.with_level(which, n as u32)),
            None => Err(Error::MalformedField),
        },
    }
}

/// The block after `line` was read. A line that begins with no known name
/// changes nothing; a known line holds its value after the first `=`.
pub open spec fn side_data_step(hdr: HdrMetadata, line: Seq<u8>) -> Result<HdrMetadata, Error> {
    match side_data_line(line) {
        None => Ok(hdr),
        Some(kind) => match after_first(line, text("=")) {
            Some(value) => side_data_store(hdr, kind, value),
            None => Err(Error::MalformedField),
        },
    }
}

/// The block after all of `rows` were read in order, or the first error.
pub open spec fn side_data_scan(rows: Seq<Seq<u8>>, hdr: HdrMetadata) -> Result<HdrMetadata, Error>
    decreases rows.len(),
{
    if rows.len() == 0 {
        Ok(hdr)
    } else {
        match side_data_step(hdr, rows[0]) {
            Ok(next) => side_data_scan(rows.drop_first(), next),
            Err(e) => Err(e),
        }
    }
}

/// Reading `first` and then `rest` is one step and then the scan of `rest`.
pub proof fn lemma_side_data_scan_unfolds(first: Seq<u8>, rest: Seq<Seq<u8>>, hdr: HdrMetadata)
    ensures
        side_data_scan(seq![first] + rest, hdr) == match side_data_step(hdr, first) {
            Ok(next) => side_data_scan(rest, next),
            Err(e) => Err(e),
        },
{
    let rows = seq![first] + rest;
    assert(rows.drop_first() =~= rest);
    assert(rows[0] == first);
}

/// The output names both kinds of side data that make up the HDR
/// description.
pub open spec fn has_side_data(output: Seq<u8>) -> bool {
    contains(output, text("side_data_type=Mastering display metadata")) && contains(
        output,
        text("side_data_type=Content light level metadata"),
    )
}

/// What the side-data probe's output says of the stream: no HDR block
/// unless both kinds of side data are named, else the block that its lines
/// fill.
pub open spec fn side_data_metadata(output: Seq<u8>) -> Result<Option<HdrMetadata>, Error> {
    if !has_side_data(output) {
        Ok(None)
    } else {
        match side_data_scan(lines(output), HdrMetadata::blank()) {
            Ok(hdr) => Ok(Some(hdr)),
            Err(e) => Err(e),
        }
    }
}

/// Tells what `line` is about.
pub fn classify_side_data_line(line: &[u8]) -> (kind: Option<SideDataLine>)
    ensures
        kind == side_data_line(line@),
{
    if starts_with(line, "red_x=".as_bytes()) {
        Some(SideDataLine::Chromaticity(Coordinate::RedX))
    } else if starts_with(line, "red_y=".as_bytes()) {
        Some(SideDataLine::Chromaticity(Coordinate::RedY))
    } else if starts_with(line, "green_x=".as_bytes()) {
        Some(SideDataLine::Chromaticity(Coordinate::GreenX))
    } else if starts_with(line, "green_y=".as_bytes()) {
        Some(SideDataLine::Chromaticity(Coordinate::GreenY))
    } else if starts_with(line, "blue_x=".as_bytes()) {
        Some(SideDataLine::Chromaticity(Coordinate::BlueX))
    } else if starts_with(line, "blue_y=".as_bytes()) {
        Some(SideDataLine::Chromaticity(Coordinate::BlueY))
    } else if starts_with(line, "white_point_x=".as_bytes()) {
        Some(SideDataLine::Chromaticity(Coordinate::WhiteX))
    } else if starts_with(line, "white_point_y=".as_bytes()) {
        Some(SideDataLine::Chromaticity(Coordinate::WhiteY))
    } else if starts_with(line, "min_luminance=".as_bytes()) {
        Some(SideDataLine::MinLuminance)
    } else if starts_with(line, "max_luminance=".as_bytes()) {
        Some(SideDataLine::MaxLuminance)
    } else if starts_with(line, "max_content=".as_bytes()) {
        Some(SideDataLine::Light(Level::MaxContentLight))
    } else if starts_with(line, "max_average=".as_bytes()) {
        Some(SideDataLine::Light(Level::MaxFrameLight))
    } else {
        None
    }
}

/// Reads `numerator/denominator`, both of at most `limit`.
pub fn parse_fraction(value: &[u8], limit: u64) -> (parts: Option<(u64, u64)>)
    ensures
        match parts {
            Some((n, d)) => fraction(value@, limit as nat) == Some((n as nat, d as nat)) && d != 0
                && n <= limit && d <= limit,
            None => fraction(value@, limit as nat) is None,
        },
{
    match split_at_first(value, "/".as_bytes()) {
        Some((top, bottom)) => {
            let n = parse_number(top, limit);
            let d = parse_number(bottom, limit);
            match (n, d) {
                (Some(n), Some(d)) => if d != 0 {
                    Some((n, d))
                } else {
                    None
                },
                _ => None,
            }
        },
        None => None,
    }
}

/// Reads `value` as the field that `kind` names and stores it in `hdr`.
pub fn store_side_data_value(hdr: HdrMetadata, kind: SideDataLine, value: &[u8]) -> (next: Result<
    HdrMetadata,
    Error,
>)
    ensures
        next == side_data_store(hdr, kind, value@),
{
    let mut hdr = hdr;
    match kind {
        SideDataLine::Chromaticity(which) => match parse_fraction(value, u64::MAX) {
            Some((n, d)) => match Ratio::new(n, d) {
                Some(ratio) => {
                    hdr.set_coordinate(which, ratio);
                    Ok(hdr)
                },
                None => Err(Error::MalformedField),
            },
            None => Err(Error::MalformedField),
        },
        SideDataLine::MinLuminance => match parse_fraction(value, u64::MAX) {
            Some((n, d)) => match Ratio::new(n, d) {
                Some(ratio) => {
                    hdr.min_luma = ratio;
                    Ok(hdr)
                },
                None => Err(Error::MalformedField),
            },
            None => Err(Error::MalformedField),
        },
        SideDataLine::MaxLuminance => match parse_fraction(value, u32::MAX as u64) {
            Some((n, d)) => {
                hdr.set_level(Level::MaxLuminance, (n / d) as u32);
                Ok(hdr)
            },
            None => Err(Error::MalformedField),
        },
        SideDataLine::Light(which) => match parse_number(value, u32::MAX as u64) {
            Some(n) => {
                hdr.set_level(which, n as u32);
                Ok(hdr)
            },
            None => Err(Error::MalformedField),
        },
    }
}

/// Reads one line of the side-data probe into `hdr`.
pub fn read_side_data_line(hdr: HdrMetadata, line: &[u8]) -> (next: Result<HdrMetadata, Error>)
    ensures
        next == side_data_step(hdr, line@),
{
    match classify_side_data_line(line) {
        None => Ok(hdr),
        Some(kind) => match value_after(line, "=".as_bytes()) {
            Some(value) => store_side_data_value(hdr, kind, value),
            None => Err(Error::MalformedField),
        },
    }
}

/// Reads the output of the frame side-data probe.
///
/// Unless the output names both the mastering display and the content
/// light level side data, there is no HDR block. Else every line that
/// begins with a known name sets its field, and the first value that
/// cannot be read ends the reading with `MalformedField`. This probe never
/// says anything of the basic block.
pub fn parse_ffprobe(output: &[u8]) -> (hdr: Result<Option<HdrMetadata>, Error>)
    ensures
        hdr == side_data_metadata(output@),
{
    if !(has(output, "side_data_type=Mastering display metadata".as_bytes()) && has(
        output,
        "side_data_type=Content light level metadata".as_bytes(),
    )) {
        return Ok(None);
    }
    let len = output.len();
    let mut hdr = HdrMetadata::default();
    let mut pos: usize = 0;
    assert(output@.skip(0) =~= output@);
    while pos < len
        invariant
            pos <= len,
            len == output@.len(),
            has_side_data(output@),
            side_data_scan(lines(output@), HdrMetadata::blank()) == side_data_scan(
                lines(output@.skip(pos as int)),
                hdr,
            ),
        decreases len - pos,
    {
        let (line, next) = next_line(output, pos);
        proof {
            lemma_side_data_scan_unfolds(line@, lines(output@.skip(next as int)), hdr);
        }
        match read_side_data_line(hdr, line) {
            Ok(updated) => {
                hdr = updated;
            },
            Err(e) => {
                return Err(e);
            },
        }
        pos = next;
    }
    assert(output@.skip(len as int) =~= Seq::<u8>::empty());
    Ok(Some(hdr))
}

/// Lines that begin with no known name leave the block as it was.
pub proof fn lemma_side_data_scan_skips_unlabelled(rows: Seq<Seq<u8>>, hdr: HdrMetadata)
    requires
        forall|i: int| 0 <= i < rows.len() ==> side_data_line(#[trigger] rows[i]) is None,
    ensures
        side_data_scan(rows, hdr) == Ok::<HdrMetadata, Error>(hdr),
    decreases rows.len(),
{
    if rows.len() > 0 {
        let rest = rows.drop_first();
        assert(side_data_line(rows[0]) is None);
        assert forall|i: int| 0 <= i < rest.len() implies side_data_line(#[trigger] rest[i])
            is None by {
            assert(rest[i] == rows[i + 1]);
        }
        lemma_side_data_scan_skips_unlabelled(rest, hdr);
    }
}

/// Output that does not name both kinds of side data has no HDR block,
/// whatever else it holds, and the reading does not fail. Empty output is
/// such output. Output that names both but holds no known line has a blank
/// block.
pub proof fn lemma_side_data_output_without_fields(output: Seq<u8>)
    ensures
        !has_side_data(output) ==> side_data_metadata(output) == Ok::<
            Option<HdrMetadata>,
            Error,
        >(None),
        side_data_metadata(Seq::empty()) == Ok::<Option<HdrMetadata>, Error>(None),
        has_side_data(output) && (forall|i: int|
            0 <= i < lines(output).len() ==> side_data_line(#[trigger] lines(output)[i]) is None)
            ==> side_data_metadata(output) == Ok::<Option<HdrMetadata>, Error>(
            Some(HdrMetadata::blank()),
        ),
{
    if has_side_data(output) && (forall|i: int|
        0 <= i < lines(output).len() ==> side_data_line(#[trigger] lines(output)[i]) is None) {
        lemma_side_data_scan_skips_unlabelled(lines(output), HdrMetadata::blank());
    }
    let name = "side_data_type=Mastering display metadata";
    reveal_strlit("side_data_type=Mastering display metadata");
    assert(name@.len() > 0);
    assert(vstd::string::is_ascii(name));
    vstd::string::is_ascii_spec_bytes(name);
    assert(text(name).len() > 0);
    assert(!contains(Seq::<u8>::empty(), text(name)));
}

/// Reading side data fails only with `MalformedField`, which is
/// recoverable.
pub proof fn lemma_side_data_scan_fails_recoverably(rows: Seq<Seq<u8>>, hdr: HdrMetadata)
    ensures
        side_data_scan(rows, hdr) is Err ==> side_data_scan(rows, hdr)->Err_0
            == Error::MalformedField,
    decreases rows.len(),
{
    if rows.len() > 0 {
        match side_data_step(hdr, rows[0]) {
            Ok(next) => {
                lemma_side_data_scan_fails_recoverably(rows.drop_first(), next);
            },
            Err(e) => {},
        }
    }
}

/// The side-data probe's output is never a fatal failure: it is read, or
/// it is `MalformedField`.
pub proof fn lemma_side_data_output_fails_recoverably(output: Seq<u8>)
    ensures
        side_data_metadata(output) is Err ==> side_data_metadata(output)->Err_0
            == Error::MalformedField && side_data_metadata(output)->Err_0.recoverable(),
{
    lemma_side_data_scan_fails_recoverably(lines(output), HdrMetadata::blank());
}

} // verus!
