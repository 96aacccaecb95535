//! The stream header probe: colour properties as the video stream's own
//! header holds them, one `label : value` pair on a line, values as names
//! and as numbers with a unit.

use vstd::prelude::*;
use vstd::string::*;
use crate::display::{parse_x265_settings, settings_display, MasterDisplay};
use crate::error::Error;
use crate::metadata::{BasicField, HdrMetadata, Level, Metadata, Partial};
use crate::ratio::{decimal, parse_decimal};
use crate::text::{
    after_first,
    contains,
    has,
    lines,
    next_line,
    number,
    parse_number,
    split_at_first,
    split_once,
    strip_prefix,
    strip_suffix,
    text,
    value_after,
    without_prefix,
    without_suffix,
};
use crate::values::{
    find_color_primaries,
    find_color_range,
    find_matrix_coefficients,
    find_transfer_characteristics,
    matrix_code,
    primaries_code,
    range_code,
    transfer_code,
};

verus! {

/// What a line of the stream header probe is about.
#[derive(Clone, Copy, Debug, PartialEq, Eq, Structural)]
pub enum StreamLine {
    /// One of the four colour properties, by name.
    Code(BasicField),
    /// The line that opens the mastering display description.
    Header,
    /// A light level, with its unit.
    Light(Level),
    /// Both luminance bounds of the mastering display.
    Luminance,
    /// Encoder settings that hold a mastering display string.
    Settings,
}

/// What `line` is about: the first label of this list that occurs in it
/// decides. Encoder settings count only where they name a mastering
/// display.
pub open spec fn stream_line(line: Seq<u8>) -> Option<StreamLine> {
    if contains(line, text("Matrix coefficients")) {
        Some(StreamLine::Code(BasicField::Matrix))
    } else if contains(line, text("Color range")) {
        Some(StreamLine::Code(BasicField::Range))
    } else if contains(line, text("Transfer characteristics")) {
        Some(StreamLine::Code(BasicField::Transfer))
    } else if contains(line, text("Color primaries")) {
        Some(StreamLine::Code(BasicField::Primaries))
    } else if contains(line, text("Mastering display color primaries")) {
        Some(StreamLine::Header)
    } else if contains(line, text("Maximum Content Light Level")) {
        Some(StreamLine::Light(Level::MaxContentLight))
    } else if contains(line, text("Maximum Frame-Average Light Level")) {
        Some(StreamLine::Light(Level::MaxFrameLight))
    } else if contains(line, text("Mastering display luminance")) {
        Some(StreamLine::Luminance)
    } else if contains(line, text("Encoding settings")) && contains(line, text("master-display")) {
        Some(StreamLine::Settings)
    } else {
        None
    }
}

/// The code that the name `value` stands for in the dictionary of `field`.
pub open spec fn code_named(field: BasicField, value: Seq<u8>) -> Option<u8> {
    match field {
        BasicField::Matrix => matrix_code(value),
        BasicField::Range => range_code(value),
        BasicField::Transfer => transfer_code(value),
        BasicField::Primaries => primaries_code(value),
    }
}

/// `value` without the luminance unit that may end it.
pub open spec fn without_unit(value: Seq<u8>) -> Seq<u8> {
    without_suffix(value, text(" cd/m2"))
}

/// The two bounds that `value` gives as `min: X cd/m2, max: Y cd/m2`: the
/// minimum as a decimal number, the maximum as a whole number.
pub open spec fn luminance_bounds(value: Seq<u8>) -> Option<(crate::ratio::Ratio, u32)> {
    match split_once(value, text(", ")) {
        Some((low, high)) => match (
            decimal(without_unit(without_prefix(low, text("min: ")))),
            number(without_unit(without_prefix(high, text("max: "))), u32::MAX as nat),
        ) {
            (Some(min), Some(max)) => Some((min, max as u32)),
            _ => None,
        },
        None => None,
    }
}

/// The HDR block with what a mastering display string describes: its
/// coordinates and both luminance bounds.
pub open spec fn with_display(hdr: HdrMetadata, display: MasterDisplay) -> HdrMetadata {
    HdrMetadata {
        color_coords: Some(display.coords),
        max_luma: display.max_luma,
        min_luma: display.min_luma,
        ..hdr
    }
}

/// The record after a line about `kind` with the value `value` was read.
/// A name that its dictionary does not hold is `UnrecognizedValue`; a
/// number that cannot be read is `MalformedField`.
pub open spec fn stream_store(acc: Partial, kind: StreamLine, value: Seq<u8>) -> Result<
    Partial,
    Error,
> {
    match kind {
        StreamLine::Header => Ok(acc.with_header()),
        StreamLine::Code(field) => match code_named(field, value) {
            Some(code) => Ok(acc.with_code(field, code)),
            None => Err(Error::UnrecognizedValue),
        },
        StreamLine::Light(which) => match number(without_unit(value), u32::MAX as nat) {
            Some(n) => Ok(acc.with_hdr(acc.hdr.with_level(which, n as u32))),
            None => Err(Error::MalformedField),
        },
        StreamLine::Luminance => match luminance_bounds(value) {
            Some((min, max)) => Ok(
                acc.with_hdr(acc.hdr.with_min_luma(min).with_level(Level::MaxLuminance, max)),
            ),
            None => Err(Error::MalformedField),
        },
        StreamLine::Settings => match settings_display(value) {
            Some(display) => Ok(acc.with_hdr(with_display(acc.hdr, display))),
            None => Err(Error::MalformedField),
        },
    }
}

/// The record after `line` was read. A line without a known label changes
/// nothing; the header needs no value; any other known line must hold
/// `": "` and, after it, its value.
pub open spec fn stream_step(acc: Partial, line: Seq<u8>) -> Result<Partial, Error> {
    match stream_line(line) {
        None => Ok(acc),
        Some(StreamLine::Header) => Ok(acc.with_header()),
        Some(kind) => match after_first(line, text(": ")) {
            Some(value) => stream_store(acc, kind, value),
            None => Err(Error::MalformedField),
        },
    }
}

/// The record after all of `rows` were read in order, or the first error.
pub open spec fn stream_scan(rows: Seq<Seq<u8>>, acc: Partial) -> Result<Partial, Error>
    decreases rows.len(),
{
    if rows.len() == 0 {
        Ok(acc)
    } else {
        match stream_step(acc, rows[0]) {
            Ok(next) => stream_scan(rows.drop_first(), next),
            Err(e) => Err(e),
        }
    }
}

/// What the stream header probe's output says of the stream.
pub open spec fn stream_metadata(output: Seq<u8>) -> Result<Metadata, Error> {
    match stream_scan(lines(output), Partial::start()) {
        Ok(acc) => Ok(acc.report()),
        Err(e) => Err(e),
    }
}

/// Reading `first` and then `rest` is one step and then the scan of `rest`.
pub proof fn lemma_stream_scan_unfolds(first: Seq<u8>, rest: Seq<Seq<u8>>, acc: Partial)
    ensures
        stream_scan(seq![first] + rest, acc) == match stream_step(acc, first) {
            Ok(next) => stream_scan(rest, next),
            Err(e) => Err(e),
        },
{
    let rows = seq![first] + rest;
    assert(rows.drop_first() =~= rest);
    assert(rows[0] == first);
}

/// Tells what `line` is about.
pub fn classify_stream_line(line: &[u8]) -> (kind: Option<StreamLine>)
    ensures
        kind == stream_line(line@),
{
    if has(line, "Matrix coefficients".as_bytes()) {
        Some(StreamLine::Code(BasicField::Matrix))
    } else if has(line, "Color range".as_bytes()) {
        Some(StreamLine::Code(BasicField::Range))
    } else if has(line, "Transfer characteristics".as_bytes()) {
        Some(StreamLine::Code(BasicField::Transfer))
    } else if has(line, "Color primaries".as_bytes()) {
        Some(StreamLine::Code(BasicField::Primaries))
    } else if has(line, "Mastering display color primaries".as_bytes()) {
        Some(StreamLine::Header)
    } else if has(line, "Maximum Content Light Level".as_bytes()) {
        Some(StreamLine::Light(Level::MaxContentLight))
    } else if has(line, "Maximum Frame-Average Light Level".as_bytes()) {
        Some(StreamLine::Light(Level::MaxFrameLight))
    } else if has(line, "Mastering display luminance".as_bytes()) {
        Some(StreamLine::Luminance)
    } else if has(line, "Encoding settings".as_bytes()) && has(line, "master-display".as_bytes()) {
        Some(StreamLine::Settings)
    } else {
        None
    }
}

/// Finds the code of the name `value` in the dictionary of `field`.
pub fn find_code(field: BasicField, value: &[u8]) -> (code: Option<u8>)
    ensures
        code == code_named(field, value@),
{
    let found = match field {
        BasicField::Matrix => find_matrix_coefficients(value),
        BasicField::Range => find_color_range(value),
        BasicField::Transfer => find_transfer_characteristics(value),
        BasicField::Primaries => find_color_primaries(value),
    };
    match found {
        Ok(code) => Some(code),
        Err(_) => None,
    }
}

/// Removes the luminance unit that may end `value`.
pub fn strip_unit<'a>(value: &'a [u8]) -> (rest: &'a [u8])
    ensures
        rest@ == without_unit(value@),
{
    strip_suffix(value, " cd/m2".as_bytes())
}

/// Reads `min: X cd/m2, max: Y cd/m2`.
pub fn parse_luminance_bounds(value: &[u8]) -> (bounds: Option<(crate::ratio::Ratio, u32)>)
    ensures
        bounds == luminance_bounds(value@),
{
    match split_at_first(value, ", ".as_bytes()) {
        Some((low, high)) => {
            let min = parse_decimal(strip_unit(strip_prefix(low, "min: ".as_bytes())));
            let max = parse_number(
                strip_unit(strip_prefix(high, "max: ".as_bytes())),
                u32::MAX as u64,
            );
            match (min, max) {
                (Some(min), Some(max)) => Some((min, max as u32)),
                _ => None,
            }
        },
        None => None,
    }
}

/// Reads `value` as the field that `kind` names and stores it in `acc`.
pub fn store_stream_value(acc: Partial, kind: StreamLine, value: &[u8]) -> (next: Result<
    Partial,
    Error,
>)
    ensures
        next == stream_store(acc, kind, value@),
{
    let mut acc = acc;
    match kind {
        StreamLine::Header => {
            acc.hdr_seen = true;
            Ok(acc)
        },
        StreamLine::Code(field) => match find_code(field, value) {
            Some(code) => {
                acc.set_code(field, code);
                Ok(acc)
            },
            None => Err(Error::UnrecognizedValue),
        },
        StreamLine::Light(which) => match parse_number(strip_unit(value), u32::MAX as u64) {
            Some(n) => {
                acc.hdr.set_level(which, n as u32);
                Ok(acc)
            },
            None => Err(Error::MalformedField),
        },
        StreamLine::Luminance => match parse_luminance_bounds(value) {
            Some((min, max)) => {
                acc.hdr.min_luma = min;
                acc.hdr.set_level(Level::MaxLuminance, max);
                Ok(acc)
            },
            None => Err(Error::MalformedField),
        },
        StreamLine::Settings => match parse_x265_settings(value) {
            Ok(display) => {
                acc.hdr.color_coords = Some(display.coords);
                acc.hdr.max_luma = display.max_luma;
                acc.hdr.min_luma = display.min_luma;
                Ok(acc)
            },
            Err(_) => Err(Error::MalformedField),
        },
    }
}

/// Reads one line of the stream header probe into `acc`.
pub fn read_stream_line(acc: Partial, line: &[u8]) -> (next: Result<Partial, Error>)
    ensures
        next == stream_step(acc, line@),
{
    match classify_stream_line(line) {
        None => Ok(acc),
        Some(StreamLine::Header) => store_stream_value(acc, StreamLine::Header, line),
        Some(kind) => match value_after(line, ": ".as_bytes()) {
            Some(value) => store_stream_value(acc, kind, value),
            None => Err(Error::MalformedField),
        },
    }
}

/// Reads the output of the stream header probe.
///
/// Lines are read in order. A line with a known label sets its field; a
/// line without one is skipped. The four colour properties are given by
/// name and looked up in their dictionaries. The HDR block is reported only
/// if the line that opens the mastering display description was seen, the
/// basic block only if one of its four properties was. The first line whose
/// value cannot be read ends the reading with its error.
pub fn parse_mediainfo(output: &[u8]) -> (metadata: Result<Metadata, Error>)
    ensures
        metadata == stream_metadata(output@),
{
    let len = output.len();
    let mut acc = Partial::new();
    let mut pos: usize = 0;
    assert(output@.skip(0) =~= output@);
    while pos < len
        invariant
            pos <= len,
            len == output@.len(),
            stream_scan(lines(output@), Partial::start()) == stream_scan(
                lines(output@.skip(pos as int)),
                acc,
            ),
        decreases len - pos,
    {
        let (line, next) = next_line(output, pos);
        proof {
            lemma_stream_scan_unfolds(line@, lines(output@.skip(next as int)), acc);
        }
        match read_stream_line(acc, line) {
            Ok(updated) => {
                acc = updated;
            },
            Err(e) => {
                return Err(e);
            },
        }
        pos = next;
    }
    assert(output@.skip(len as int) =~= Seq::<u8>::empty());
    Ok(acc.finish())
}

/// Lines without a known label leave the record as it was.
pub proof fn lemma_stream_scan_skips_unlabelled(rows: Seq<Seq<u8>>, acc: Partial)
    requires
        forall|i: int| 0 <= i < rows.len() ==> stream_line(#[trigger] rows[i]) is None,
    ensures
        stream_scan(rows, acc) == Ok::<Partial, Error>(acc),
    decreases rows.len(),
{
    if rows.len() > 0 {
        let rest = rows.drop_first();
        assert(stream_line(rows[0]) is None);
        assert forall|i: int| 0 <= i < rest.len() implies stream_line(#[trigger] rest[i])
            is None by {
            assert(rest[i] == rows[i + 1]);
        }
        lemma_stream_scan_skips_unlabelled(rest, acc);
    }
}

/// Output in which no line holds a known label says nothing of the stream:
/// both blocks are absent, and the reading does not fail. Empty output is
/// such output.
pub proof fn lemma_unlabelled_stream_output_is_empty(output: Seq<u8>)
    requires
        forall|i: int|
            0 <= i < lines(output).len() ==> stream_line(#[trigger] lines(output)[i]) is None,
    ensures
        stream_metadata(output) == Ok::<Metadata, Error>(Metadata::empty()),
        stream_metadata(Seq::empty()) == Ok::<Metadata, Error>(Metadata::empty()),
{
    lemma_stream_scan_skips_unlabelled(lines(output), Partial::start());
    assert(lines(Seq::<u8>::empty()).len() == 0);
    lemma_stream_scan_skips_unlabelled(lines(Seq::<u8>::empty()), Partial::start());
}

/// Reading stream header output fails only with `MalformedField` or with
/// `UnrecognizedValue`.
pub proof fn lemma_stream_scan_failures(rows: Seq<Seq<u8>>, acc: Partial)
    ensures
        stream_scan(rows, acc) is Err ==> stream_scan(rows, acc)->Err_0 == Error::MalformedField
            || stream_scan(rows, acc)->Err_0 == Error::UnrecognizedValue,
    decreases rows.len(),
{
    if rows.len() > 0 {
        match stream_step(acc, rows[0]) {
            Ok(next) => {
                lemma_stream_scan_failures(rows.drop_first(), next);
            },
            Err(e) => {},
        }
    }
}

} // verus!
