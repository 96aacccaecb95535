//! The container probe: colour properties as the container's own headers
//! hold them, one `label: value` pair on a line, values as plain numbers.

use vstd::prelude::*;
use vstd::string::*;
use crate::error::Error;
use crate::metadata::{BasicField, Coordinate, Level, Metadata, Partial};
use crate::ratio::{decimal, parse_decimal};
use crate::text::{
    after_first,
    contains,
    has,
    lines,
    next_line,
    number,
    parse_number,
    text,
    value_after,
};

verus! {

/// What a line of the container probe is about.
#[derive(Clone, Copy, Debug, PartialEq, Eq, Structural)]
pub enum ContainerLine {
    /// One of the four colour codes.
    Code(BasicField),
    /// The header of the mastering metadata section.
    Header,
    /// A whole-number quantity of the HDR block.
    Quantity(Level),
    /// A chromaticity component.
    Chromaticity(Coordinate),
    /// The minimum luminance.
    MinLuminance,
}

/// What `line` is about: the first label of this list that occurs in it
/// decides.
pub open spec fn container_line(line: Seq<u8>) -> Option<ContainerLine> {
    if contains(line, text("Colour matrix coefficients:")) {
        Some(ContainerLine::Code(BasicField::Matrix))
    } else if contains(line, text("Colour range:")) {
        Some(ContainerLine::Code(BasicField::Range))
    } else if contains(line, text("Colour transfer:")) {
        Some(ContainerLine::Code(BasicField::Transfer))
    } else if contains(line, text("Colour primaries:")) {
        Some(ContainerLine::Code(BasicField::Primaries))
    } else if contains(line, text("Video colour mastering metadata")) {
        Some(ContainerLine::Header)
    } else if contains(line, text("Maximum content light:")) {
        Some(ContainerLine::Quantity(Level::MaxContentLight))
    } else if contains(line, text("Maximum frame light:")) {
        Some(ContainerLine::Quantity(Level::MaxFrameLight))
    } else if contains(line, text("Red colour coordinate x:")) {
        Some(ContainerLine::Chromaticity(Coordinate::RedX))
    } else if contains(line, text("Red colour coordinate y:")) {
        Some(ContainerLine::Chromaticity(Coordinate::RedY))
    } else if contains(line, text("Green colour coordinate x:")) {
        Some(ContainerLine::Chromaticity(Coordinate::GreenX))
    } else if contains(line, text("Green colour coordinate y:")) {
        Some(ContainerLine::Chromaticity(Coordinate::GreenY))
    } else if contains(line, text("Blue colour coordinate x:")) {
        Some(ContainerLine::Chromaticity(Coordinate::BlueX))
    } else if contains(line, text("Blue colour coordinate y:")) {
        Some(ContainerLine::Chromaticity(Coordinate::BlueY))
    } else if contains(line, text("White colour coordinate x:")) {
        Some(ContainerLine::Chromaticity(Coordinate::WhiteX))
    } else if contains(line, text("White colour coordinate y:")) {
        Some(ContainerLine::Chromaticity(Coordinate::WhiteY))
    } else if contains(line, text("Maximum luminance:")) {
        Some(ContainerLine::Quantity(Level::MaxLuminance))
    } else if contains(line, text("Minimum luminance:")) {
        Some(ContainerLine::MinLuminance)
    } else {
        None
    }
}

/// The record after a line about `kind` with the value `value` was read.
pub open spec fn container_store(acc: Partial, kind: ContainerLine, value: Seq<u8>) -> Result<
    Partial,
    Error,
> {
    match kind {
        ContainerLine::Header => Ok(acc.with_header()),
        ContainerLine::Code(field) => match number(value, 255) {
            Some(code) => Ok(acc.with_code(field, code as u8)),
            None => Err(Error::MalformedField),
        },
        ContainerLine::Quantity(which) => match number(value, u32::MAX as nat) {
            Some(n) => Ok(acc.with_hdr(acc.hdr.with_level(which, n as u32))),
            None => Err(Error::MalformedField),
        },
        ContainerLine::Chromaticity(which) => match decimal(value) {
            Some(ratio) => Ok(acc.with_hdr(acc.hdr.with_coordinate(which, ratio))),
            None => Err(Error::MalformedField),
        },
        ContainerLine::MinLuminance => match decimal(value) {
            Some(ratio) => Ok(acc.with_hdr(acc.hdr.with_min_luma(ratio))),
            None => Err(Error::MalformedField),
        },
    }
}

/// The record after `line` was read. A line without a known label changes
/// nothing; the section header needs no value; any other known line must
/// hold `": "` and, after it, a value of its field's type.
pub open spec fn container_step(acc: Partial, line: Seq<u8>) -> Result<Partial, Error> {
    match container_line(line) {
        None => Ok(acc),
        Some(ContainerLine::Header) => Ok(acc.with_header()),
        Some(kind) => match after_first(line, text(": ")) {
            Some(value) => container_store(acc, kind, value),
            None => Err(Error::MalformedField),
        },
    }
}

/// The record after all of `rows` were read in order, or the first error.
pub open spec fn container_scan(rows: Seq<Seq<u8>>, acc: Partial) -> Result<Partial, Error>
    decreases rows.len(),
{
    if rows.len() == 0 {
        Ok(acc)
    } else {
        match container_step(acc, rows[0]) {
            Ok(next) => container_scan(rows.drop_first(), next),
            Err(e) => Err(e),
        }
    }
}

/// What the container probe's output says of the stream.
pub open spec fn container_metadata(output: Seq<u8>) -> Result<Metadata, Error> {
    match container_scan(lines(output), Partial::start()) {
        Ok(acc) => Ok(acc.report()),
        Err(e) => Err(e),
    }
}

/// Tells what `line` is about.
pub fn classify_container_line(line: &[u8]) -> (kind: Option<ContainerLine>)
    ensures
        kind == container_line(line@),
{
    if has(line, "Colour matrix coefficients:".as_bytes()) {
        Some(ContainerLine::Code(BasicField::Matrix))
    } else if has(line, "Colour range:".as_bytes()) {
        Some(ContainerLine::Code(BasicField::Range))
    } else if has(line, "Colour transfer:".as_bytes()) {
        Some(ContainerLine::Code(BasicField::Transfer))
    } else if has(line, "Colour primaries:".as_bytes()) {
        Some(ContainerLine::Code(BasicField::Primaries))
    } else if has(line, "Video colour mastering metadata".as_bytes()) {
        Some(ContainerLine::Header)
    } else if has(line, "Maximum content light:".as_bytes()) {
        Some(ContainerLine::Quantity(Level::MaxContentLight))
    } else if has(line, "Maximum frame light:".as_bytes()) {
        Some(ContainerLine::Quantity(Level::MaxFrameLight))
    } else if has(line, "Red colour coordinate x:".as_bytes()) {
        Some(ContainerLine::Chromaticity(Coordinate::RedX))
    } else if has(line, "Red colour coordinate y:".as_bytes()) {
        Some(ContainerLine::Chromaticity(Coordinate::RedY))
    } else if has(line, "Green colour coordinate x:".as_bytes()) {
        Some(ContainerLine::Chromaticity(Coordinate::GreenX))
    } else if has(line, "Green colour coordinate y:".as_bytes()) {
        Some(ContainerLine::Chromaticity(Coordinate::GreenY))
    } else if has(line, "Blue colour coordinate x:".as_bytes()) {
        Some(ContainerLine::Chromaticity(Coordinate::BlueX))
    } else if has(line, "Blue colour coordinate y:".as_bytes()) {
        Some(ContainerLine::Chromaticity(Coordinate::BlueY))
    } else if has(line, "White colour coordinate x:".as_bytes()) {
        Some(ContainerLine::Chromaticity(Coordinate::WhiteX))
    } else if has(line, "White colour coordinate y:".as_bytes()) {
        Some(ContainerLine::Chromaticity(Coordinate::WhiteY))
    } else if has(line, "Maximum luminance:".as_bytes()) {
        Some(ContainerLine::Quantity(Level::MaxLuminance))
    } else if has(line, "Minimum luminance:".as_bytes()) {
        Some(ContainerLine::MinLuminance)
    } else {
        None
    }
}

/// Reads `value` as the field that `kind` names and stores it in `acc`.
pub fn store_container_value(acc: Partial, kind: ContainerLine, value: &[u8]) -> (next: Result<
    Partial,
    Error,
>)
    ensures
        next == container_store(acc, kind, value@),
{
    let mut acc = acc;
    match kind {
        ContainerLine::Header => {
            acc.hdr_seen = true;
            Ok(acc)
        },
        ContainerLine::Code(field) => match parse_number(value, 255) {
            Some(code) => {
                acc.set_code(field, code as u8);
                Ok(acc)
            },
            None => Err(Error::MalformedField),
        },
        ContainerLine::Quantity(which) => match parse_number(value, u32::MAX as u64) {
            Some(n) => {
                acc.hdr.set_level(which, n as u32);
                Ok(acc)
            },
            None => Err(Error::MalformedField),
        },
        ContainerLine::Chromaticity(which) => match parse_decimal(value) {
            Some(ratio) => {
                acc.hdr.set_coordinate(which, ratio);
                Ok(acc)
            },
            None => Err(Error::MalformedField),
        },
        ContainerLine::MinLuminance => match parse_decimal(value) {
            Some(ratio) => {
                acc.hdr.min_luma = ratio;
                Ok(acc)
            },
            None => Err(Error::MalformedField),
        },
    }
}

/// Reads one line of the container probe into `acc`.
pub fn read_container_line(acc: Partial, line: &[u8]) -> (next: Result<Partial, Error>)
    ensures
        next == container_step(acc, line@),
{
    match classify_container_line(line) {
        None => Ok(acc),
        Some(ContainerLine::Header) => store_container_value(acc, ContainerLine::Header, line),
        Some(kind) => match value_after(line, ": ".as_bytes()) {
            Some(value) => store_container_value(acc, kind, value),
            None => Err(Error::MalformedField),
        },
    }
}

/// Reads the output of the container probe.
///
/// Lines are read in order. A line with a known label sets its field; a
/// line without one is skipped. The HDR block is reported only if the
/// header of the mastering metadata section was seen, the basic block only
/// if one of its four codes was. The first line whose value cannot be read
/// ends the reading with `MalformedField`.
pub fn parse_mkvinfo(output: &[u8]) -> (metadata: Result<Metadata, Error>)
    ensures
        metadata == container_metadata(output@),
{
    let len = output.len();
    let mut acc = Partial::new();
    let mut pos: usize = 0;
    assert(output@.skip(0) =~= output@);
    while pos < len
        invariant
            pos <= len,
            len == output@.len(),
            container_scan(lines(output@), Partial::start()) == container_scan(
                lines(output@.skip(pos as int)),
                acc,
            ),
        decreases len - pos,
    {
        let (line, next) = next_line(output, pos);
        let ghost rest = lines(output@.skip(next as int));
        assert((seq![line@] + rest).drop_first() =~= rest);
        match read_container_line(acc, line) {
            Ok(updated) => {
                acc = updated;
            },
            Err(e) => {
                return Err(e);
            },
        }
        pos = next;
    }
    assert(output@.skip(len as int) =~= Seq::<u8>::empty());
    Ok(acc.finish())
}

/// Lines without a known label leave the record as it was.
pub proof fn lemma_container_scan_skips_unlabelled(rows: Seq<Seq<u8>>, acc: Partial)
    requires
        forall|i: int| 0 <= i < rows.len() ==> container_line(#[trigger] rows[i]) is None,
    ensures
        container_scan(rows, acc) == Ok::<Partial, Error>(acc),
    decreases rows.len(),
{
    if rows.len() > 0 {
        let rest = rows.drop_first();
        assert(container_line(rows[0]) is None);
        assert forall|i: int| 0 <= i < rest.len() implies container_line(#[trigger] rest[i])
            is None by {
            assert(rest[i] == rows[i + 1]);
        }
        lemma_container_scan_skips_unlabelled(rest, acc);
    }
}

/// Output in which no line holds a known label says nothing of the stream:
/// both blocks are absent, and the reading does not fail. Empty output is
/// such output.
pub proof fn lemma_unlabelled_container_output_is_empty(output: Seq<u8>)
    requires
        forall|i: int|
            0 <= i < lines(output).len() ==> container_line(#[trigger] lines(output)[i]) is None,
    ensures
        container_metadata(output) == Ok::<Metadata, Error>(Metadata::empty()),
        container_metadata(Seq::empty()) == Ok::<Metadata, Error>(Metadata::empty()),
{
    lemma_container_scan_skips_unlabelled(lines(output), Partial::start());
    assert(lines(Seq::<u8>::empty()).len() == 0);
    lemma_container_scan_skips_unlabelled(lines(Seq::<u8>::empty()), Partial::start());
}

/// Reading container output fails only with `MalformedField`, which is
/// recoverable.
pub proof fn lemma_container_scan_fails_recoverably(rows: Seq<Seq<u8>>, acc: Partial)
    ensures
        container_scan(rows, acc) is Err ==> container_scan(rows, acc)->Err_0
            == Error::MalformedField,
    decreases rows.len(),
{
    if rows.len() > 0 {
        match container_step(acc, rows[0]) {
            Ok(next) => {
                lemma_container_scan_fails_recoverably(rows.drop_first(), next);
            },
            Err(e) => {},
        }
    }
}

/// The container probe's output is never a fatal failure: it is read, or
/// it is `MalformedField`.
pub proof fn lemma_container_output_fails_recoverably(output: Seq<u8>)
    ensures
        container_metadata(output) is Err ==> container_metadata(output)->Err_0
            == Error::MalformedField && container_metadata(output)->Err_0.recoverable(),
{
    lemma_container_scan_fails_recoverably(lines(output), Partial::start());
}

} // verus!
