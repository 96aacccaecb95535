//! The report for people, and the choice among the output formats.

use vstd::prelude::*;
use vstd::string::*;
use crate::command::{edit_arguments, joined};
use crate::encoder::{
    four_tokens,
    line_of,
    line_view,
    rav1e_arguments,
    svt_av1_arguments,
    x265_arguments,
};
use crate::error::Error;
use crate::metadata::{BasicMetadata, ColorCoordinates, HdrMetadata, Metadata};
use crate::ratio::Ratio;
use crate::render::{decimal_text, push_number, push_ratio, ratio_text};
use crate::text::text;
use crate::values::{
    labelled,
    location_label,
    matrix_row,
    primaries_row,
    print_chroma_location,
    print_color_primaries,
    print_color_range,
    print_matrix_coefficients,
    print_transfer_characteristics,
    range_row,
    transfer_row,
};

verus! {

/// One line of the report: a title, its value and a line feed.
pub open spec fn field_line(title: Seq<char>, value: Seq<char>) -> Seq<char> {
    title + ": "@ + value + "\n"@
}

/// The two coordinates of a point, each with five decimal places.
pub open spec fn point_text(point: (Ratio, Ratio)) -> Seq<char> {
    ratio_text(point.0, 5) + ", "@ + ratio_text(point.1, 5)
}

/// The lines of the basic block, each property by its name in the
/// dictionary; `UnrecognizedValue` for the first code without a name, in
/// the order range, primaries, transfer, matrix.
pub open spec fn basic_report(basic: BasicMetadata) -> Result<Seq<char>, Error> {
    match four_tokens(
        labelled(range_row(basic.range)),
        labelled(primaries_row(basic.primaries)),
        labelled(transfer_row(basic.transfer)),
        labelled(matrix_row(basic.matrix)),
    ) {
        Err(e) => Err(e),
        Ok(t) => Ok(
            field_line("Color Range"@, t[0]) + field_line("Color Primaries"@, t[1]) + field_line(
                "Transfer Characteristics"@,
                t[2],
            ) + field_line("Matrix Coefficients"@, t[3]) + field_line(
                "Chroma Location"@,
                location_label(basic.chroma_location),
            ),
        ),
    }
}

/// The lines of the chromaticity coordinates.
pub open spec fn coordinates_report(coords: ColorCoordinates) -> Seq<char> {
    field_line("Red Coordinates"@, point_text(coords.red)) + field_line(
        "Green Coordinates"@,
        point_text(coords.green),
    ) + field_line("Blue Coordinates"@, point_text(coords.blue)) + field_line(
        "White Point Coordinates"@,
        point_text(coords.white),
    )
}

/// The lines of the HDR block: the light levels, the luminance bounds, the
/// minimum with four decimal places, and the coordinates where they are
/// present.
pub open spec fn hdr_report(hdr: HdrMetadata) -> Seq<char> {
    field_line("Max Content Light Level"@, decimal_text(hdr.max_content_light as nat))
        + field_line("Max Frame-Average Light Level"@, decimal_text(hdr.max_frame_light as nat))
        + field_line("Maximum Luminance"@, decimal_text(hdr.max_luma as nat)) + field_line(
        "Minimum Luminance"@,
        ratio_text(hdr.min_luma, 4),
    ) + match hdr.color_coords {
        Some(coords) => coordinates_report(coords),
        None => Seq::empty(),
    }
}

/// The report of a record: the lines of each block that is present.
pub open spec fn report(metadata: Metadata) -> Result<Seq<char>, Error> {
    let first = match metadata.basic {
        Some(basic) => basic_report(basic),
        None => Ok(Seq::empty()),
    };
    match first {
        Err(e) => Err(e),
        Ok(lines) => Ok(
            lines + match metadata.hdr {
                Some(hdr) => hdr_report(hdr),
                None => Seq::empty(),
            },
        ),
    }
}

/// An output format.
#[derive(Clone, Copy, Debug, PartialEq, Eq, Structural)]
pub enum Format {
    /// The report for people.
    Report,
    /// The arguments of x265.
    X265,
    /// The arguments of rav1e.
    Rav1e,
    /// The arguments of SVT-AV1.
    SvtAv1,
    /// The arguments of the property editor.
    Mkvmerge,
}

/// The format that `name` names, where it names one.
pub open spec fn format_named(name: Seq<u8>) -> Option<Format> {
    if name == text("x265") {
        Some(Format::X265)
    } else if name == text("rav1e") {
        Some(Format::Rav1e)
    } else if name == text("svt-av1") {
        Some(Format::SvtAv1)
    } else if name == text("mkvmerge") {
        Some(Format::Mkvmerge)
    } else {
        None
    }
}

/// The format that a request asks for: the report where it names none;
/// `UnsupportedByTarget` where it names one that does not exist.
pub open spec fn format_requested(name: Option<Seq<u8>>) -> Result<Format, Error> {
    match name {
        None => Ok(Format::Report),
        Some(n) => match format_named(n) {
            Some(format) => Ok(format),
            None => Err(Error::UnsupportedByTarget),
        },
    }
}

/// The text of `metadata` in `format`.
pub open spec fn rendered(metadata: Metadata, format: Format) -> Result<Seq<char>, Error> {
    match format {
        Format::Report => report(metadata),
        Format::X265 => line_of(x265_arguments(metadata)),
        Format::Rav1e => line_of(rav1e_arguments(metadata)),
        Format::SvtAv1 => line_of(svt_av1_arguments(metadata)),
        Format::Mkvmerge => Ok(joined(edit_arguments(metadata))),
    }
}

/// The text of `metadata` in the format that a request asks for.
pub open spec fn printed(metadata: Metadata, name: Option<Seq<u8>>) -> Result<Seq<char>, Error> {
    match format_requested(name) {
        Ok(format) => rendered(metadata, format),
        Err(e) => Err(e),
    }
}

/// Whether two byte strings are the same.
fn same_bytes(a: &[u8], b: &[u8]) -> (same: bool)
    ensures
        same == (a@ == b@),
{
    if a.len() != b.len() {
        return false;
    }
    let mut i: usize = 0;
    while i < a.len()
        invariant
            i <= a.len(),
            a.len() == b.len(),
            forall|j: int| 0 <= j < i ==> a@[j] == b@[j],
        decreases a.len() - i,
    {
        if a[i] != b[i] {
            return false;
        }
        i += 1;
    }
    assert(a@ =~= b@);
    true
}

impl Format {
    /// The format that `name` names.
    pub fn named(name: &str) -> (format: Option<Format>)
        ensures
            format == format_named(text(name)),
    {
        let bytes = name.as_bytes();
        if same_bytes(bytes, "x265".as_bytes()) {
            Some(Format::X265)
        } else if same_bytes(bytes, "rav1e".as_bytes()) {
            Some(Format::Rav1e)
        } else if same_bytes(bytes, "svt-av1".as_bytes()) {
            Some(Format::SvtAv1)
        } else if same_bytes(bytes, "mkvmerge".as_bytes()) {
            Some(Format::Mkvmerge)
        } else {
            None
        }
    }
}

/// Appends a line of the report.
fn push_line(out: &mut String, title: &str, value: &str)
    ensures
        final(out)@ == old(out)@ + field_line(title@, value@),
{
    let ghost before = out@;
    out.append(title);
    out.append(": ");
    out.append(value);
    out.append("\n");
    assert(out@ =~= before + field_line(title@, value@));
}

/// Appends a line of the report that holds a number.
fn push_number_line(out: &mut String, title: &str, n: u32)
    ensures
        final(out)@ == old(out)@ + field_line(title@, decimal_text(n as nat)),
{
    let mut value = String::new();
    push_number(&mut value, n as u128);
    assert(value@ =~= decimal_text(n as nat));
    push_line(out, title, value.as_str());
}

/// Appends a line of the report that holds a point.
fn push_point_line(out: &mut String, title: &str, point: &(Ratio, Ratio))
    ensures
        final(out)@ == old(out)@ + field_line(title@, point_text(*point)),
{
    let mut value = String::new();
    push_ratio(&mut value, &point.0, 5);
    value.append(", ");
    push_ratio(&mut value, &point.1, 5);
    assert(value@ =~= point_text(*point));
    push_line(out, title, value.as_str());
}

fn push_basic_report(out: &mut String, basic: &BasicMetadata) -> (done: Result<(), Error>)
    ensures
        match done {
            Ok(_) => basic_report(*basic) is Ok && final(out)@ == old(out)@ + basic_report(
                *basic,
            )->Ok_0,
            Err(e) => basic_report(*basic) == Err::<Seq<char>, Error>(e),
        },
{
    let ghost before = out@;
    let range = match print_color_range(basic.range) {
        Ok(t) => t,
        Err(e) => {
            return Err(e);
        },
    };
    let primaries = match print_color_primaries(basic.primaries) {
        Ok(t) => t,
        Err(e) => {
            return Err(e);
        },
    };
    let transfer = match print_transfer_characteristics(basic.transfer) {
        Ok(t) => t,
        Err(e) => {
            return Err(e);
        },
    };
    let matrix = match print_matrix_coefficients(basic.matrix) {
        Ok(t) => t,
        Err(e) => {
            return Err(e);
        },
    };
    push_line(out, "Color Range", range);
    push_line(out, "Color Primaries", primaries);
    push_line(out, "Transfer Characteristics", transfer);
    push_line(out, "Matrix Coefficients", matrix);
    push_line(out, "Chroma Location", print_chroma_location(basic.chroma_location));
    assert(out@ =~= before + basic_report(*basic)->Ok_0);
    Ok(())
}

fn push_coordinates_report(out: &mut String, coords: &ColorCoordinates)
    ensures
        final(out)@ == old(out)@ + coordinates_report(*coords),
{
    let ghost before = out@;
    push_point_line(out, "Red Coordinates", &coords.red);
    push_point_line(out, "Green Coordinates", &coords.green);
    push_point_line(out, "Blue Coordinates", &coords.blue);
    push_point_line(out, "White Point Coordinates", &coords.white);
    assert(out@ =~= before + coordinates_report(*coords));
}

fn push_hdr_report(out: &mut String, hdr: &HdrMetadata)
    ensures
        final(out)@ == old(out)@ + hdr_report(*hdr),
{
    let ghost before = out@;
    push_number_line(out, "Max Content Light Level", hdr.max_content_light);
    push_number_line(out, "Max Frame-Average Light Level", hdr.max_frame_light);
    push_number_line(out, "Maximum Luminance", hdr.max_luma);
    let mut min = String::new();
    push_ratio(&mut min, &hdr.min_luma, 4);
    assert(min@ =~= ratio_text(hdr.min_luma, 4));
    push_line(out, "Minimum Luminance", min.as_str());
    match &hdr.color_coords {
        Some(coords) => {
            push_coordinates_report(out, coords);
        },
        None => {},
    }
    assert(out@ =~= before + hdr_report(*hdr));
}

impl Metadata {
    /// The report for people: one line for each field of each block that
    /// is present, the colour properties by their names.
    pub fn print_human_readable_format(&self) -> (text: Result<String, Error>)
        ensures
            line_view(text) == report(*self),
    {
        let mut out = String::new();
        match &self.basic {
            Some(basic) => {
                match push_basic_report(&mut out, basic) {
                    Ok(_) => {},
                    Err(e) => {
                        return Err(e);
                    },
                }
            },
            None => {},
        }
        match &self.hdr {
            Some(hdr) => {
                push_hdr_report(&mut out, hdr);
            },
            None => {},
        }
        assert(out@ =~= report(*self)->Ok_0);
        Ok(out)
    }

    /// The text of this record in `format`.
    pub fn render(&self, format: Format) -> (text: Result<String, Error>)
        ensures
            line_view(text) == rendered(*self, format),
    {
        match format {
            Format::Report => self.print_human_readable_format(),
            Format::X265 => self.print_x265_args(),
            Format::Rav1e => self.print_rav1e_args(),
            Format::SvtAv1 => self.print_svt_av1_args(),
            Format::Mkvmerge => Ok(self.print_mkvmerge_args()),
        }
    }

    /// The text of this record in the format that `format` names: the
    /// report for people where it names none. A name that is no format is
    /// `UnsupportedByTarget`.
    pub fn print(&self, format: Option<&str>) -> (out: Result<String, Error>)
        ensures
            line_view(out) == printed(
                *self,
                match format {
                    Some(name) => Some(text(name)),
                    None => None,
                },
            ),
    {
        match format {
            None => self.render(Format::Report),
            Some(name) => match Format::named(name) {
                Some(chosen) => self.render(chosen),
                None => Err(Error::UnsupportedByTarget),
            },
        }
    }
}

} // verus!
