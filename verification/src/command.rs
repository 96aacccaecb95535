//! The property-edit command: the list of property assignments that
//! carries a metadata record into a container, as an argument list for the
//! property editor, `mkvpropedit`, and as printable text.

use vstd::prelude::*;
use vstd::string::*;
use crate::metadata::{BasicMetadata, ColorCoordinates, HdrMetadata, Metadata};
use crate::ratio::Ratio;
use crate::render::{decimal_text, number_text, push_ratio, ratio_text};
use crate::values::{chroma_siting, color_range_to_mkvedit_prop, mkvedit_range, siting};

verus! {

/// The assignment of `value` to the property `name`.
pub open spec fn assignment(name: Seq<char>, value: Seq<char>) -> Seq<char> {
    name + "="@ + value
}

/// `[assignment(name, value)]` where `emit` holds, nothing otherwise.
pub open spec fn optional(emit: bool, name: Seq<char>, value: Seq<char>) -> Seq<Seq<char>> {
    if emit {
        seq![assignment(name, value)]
    } else {
        Seq::empty()
    }
}

/// The assignments of the basic block. The range is always written, in the
/// property editor's own code. Transfer, primaries and matrix are written
/// unless they are unspecified (code 2). The chroma siting pair is always
/// written.
pub open spec fn basic_assignments(basic: BasicMetadata) -> Seq<Seq<char>> {
    seq![assignment("colour-range"@, decimal_text(mkvedit_range(basic.range) as nat))]
        + optional(
        basic.transfer != 2,
        "colour-transfer-characteristics"@,
        decimal_text(basic.transfer as nat),
    ) + optional(basic.primaries != 2, "colour-primaries"@, decimal_text(basic.primaries as nat))
        + optional(
        basic.matrix != 2,
        "colour-matrix-coefficients"@,
        decimal_text(basic.matrix as nat),
    ) + seq![
        assignment(
            "chroma-siting-horizontal"@,
            decimal_text(siting(basic.chroma_location).0 as nat),
        ),
        assignment("chroma-siting-vertical"@, decimal_text(siting(basic.chroma_location).1 as nat)),
    ]
}

/// The assignments of the chromaticity coordinates, each with five decimal
/// places: the three primaries, then the white point.
pub open spec fn coordinate_assignments(coords: ColorCoordinates) -> Seq<Seq<char>> {
    seq![
        assignment("chromaticity-coordinates-red-x"@, ratio_text(coords.red.0, 5)),
        assignment("chromaticity-coordinates-red-y"@, ratio_text(coords.red.1, 5)),
        assignment("chromaticity-coordinates-green-x"@, ratio_text(coords.green.0, 5)),
        assignment("chromaticity-coordinates-green-y"@, ratio_text(coords.green.1, 5)),
        assignment("chromaticity-coordinates-blue-x"@, ratio_text(coords.blue.0, 5)),
        assignment("chromaticity-coordinates-blue-y"@, ratio_text(coords.blue.1, 5)),
        assignment("white-coordinates-x"@, ratio_text(coords.white.0, 5)),
        assignment("white-coordinates-y"@, ratio_text(coords.white.1, 5)),
    ]
}

/// The assignments of the HDR block. The light levels are written only
/// where they are not zero. The luminance bounds are always written, the
/// minimum with four decimal places. The coordinates are written where they
/// are present.
pub open spec fn hdr_assignments(hdr: HdrMetadata) -> Seq<Seq<char>> {
    optional(
        hdr.max_content_light != 0,
        "max-content-light"@,
        decimal_text(hdr.max_content_light as nat),
    ) + optional(
        hdr.max_frame_light != 0,
        "max-frame-light"@,
        decimal_text(hdr.max_frame_light as nat),
    ) + seq![
        assignment("max-luminance"@, decimal_text(hdr.max_luma as nat)),
        assignment("min-luminance"@, ratio_text(hdr.min_luma, 4)),
    ] + match hdr.color_coords {
        Some(coords) => coordinate_assignments(coords),
        None => Seq::empty(),
    }
}

/// The assignments of a record: those of the basic block, then those of
/// the HDR block, each where the block is present.
pub open spec fn assignments(metadata: Metadata) -> Seq<Seq<char>> {
    (match metadata.basic {
        Some(basic) => basic_assignments(basic),
        None => Seq::empty(),
    }) + (match metadata.hdr {
        Some(hdr) => hdr_assignments(hdr),
        None => Seq::empty(),
    })
}

/// Each assignment as two arguments: `-s`, then the assignment.
pub open spec fn settings(props: Seq<Seq<char>>) -> Seq<Seq<char>>
    decreases props.len(),
{
    if props.len() == 0 {
        Seq::empty()
    } else {
        settings(props.drop_last()) + seq!["-s"@, props.last()]
    }
}

/// The arguments that select the first video track and set its
/// properties: all arguments of the command but the files.
pub open spec fn edit_arguments(metadata: Metadata) -> Seq<Seq<char>> {
    seq!["-e"@, "track:v1"@] + settings(assignments(metadata))
}

/// The arguments of the property editor for the file `target`: the edit
/// arguments, then a chapter file where one is given, then the file.
pub open spec fn command_arguments(
    metadata: Metadata,
    target: Seq<char>,
    chapters: Option<Seq<char>>,
) -> Seq<Seq<char>> {
    edit_arguments(metadata) + (match chapters {
        Some(path) => seq!["-c"@, path],
        None => Seq::empty(),
    }) + seq![target]
}

/// The parts, with one space between each two.
pub open spec fn joined(parts: Seq<Seq<char>>) -> Seq<char>
    decreases parts.len(),
{
    if parts.len() == 0 {
        Seq::empty()
    } else if parts.len() == 1 {
        parts[0]
    } else {
        joined(parts.drop_last()) + " "@ + parts.last()
    }
}

/// Appends the assignment of `value` to `name`.
fn push_assignment(props: &mut Vec<String>, name: &str, value: String)
    ensures
        final(props).deep_view() == old(props).deep_view().push(assignment(name@, value@)),
{
    let mut entry = String::from_str(name);
    entry.append("=");
    entry.append(value.as_str());
    props.push(entry);
    assert(props.deep_view() =~= old(props).deep_view().push(assignment(name@, value@)));
}

/// Appends the assignment of `ratio`, with `places` decimal places, to
/// `name`.
fn push_ratio_assignment(props: &mut Vec<String>, name: &str, ratio: &Ratio, places: usize)
    requires
        places <= 9,
    ensures
        final(props).deep_view() == old(props).deep_view().push(
            assignment(name@, ratio_text(*ratio, places as nat)),
        ),
{
    let mut value = String::new();
    push_ratio(&mut value, ratio, places);
    assert(value@ =~= ratio_text(*ratio, places as nat));
    push_assignment(props, name, value);
}

/// Appends the assignment of the number `n` to `name` where `emit` holds.
fn push_number_assignment(props: &mut Vec<String>, emit: bool, name: &str, n: u32)
    ensures
        final(props).deep_view() == old(props).deep_view() + optional(
            emit,
            name@,
            decimal_text(n as nat),
        ),
{
    if emit {
        push_assignment(props, name, number_text(n as u128));
    }
    assert(props.deep_view() =~= old(props).deep_view() + optional(
        emit,
        name@,
        decimal_text(n as nat),
    ));
}

fn push_basic(props: &mut Vec<String>, basic: &BasicMetadata)
    ensures
        final(props).deep_view() == old(props).deep_view() + basic_assignments(*basic),
{
    let ghost before = props.deep_view();
    let codes = chroma_siting(basic.chroma_location);
    push_number_assignment(
        props,
        true,
        "colour-range",
        color_range_to_mkvedit_prop(basic.range) as u32,
    );
    push_number_assignment(
        props,
        basic.transfer != 2,
        "colour-transfer-characteristics",
        basic.transfer as u32,
    );
    push_number_assignment(props, basic.primaries != 2, "colour-primaries", basic.primaries as u32);
    push_number_assignment(
        props,
        basic.matrix != 2,
        "colour-matrix-coefficients",
        basic.matrix as u32,
    );
    push_number_assignment(props, true, "chroma-siting-horizontal", codes.0 as u32);
    push_number_assignment(props, true, "chroma-siting-vertical", codes.1 as u32);
    assert(props.deep_view() =~= before + basic_assignments(*basic));
}

fn push_coordinates(props: &mut Vec<String>, coords: &ColorCoordinates)
    ensures
        final(props).deep_view() == old(props).deep_view() + coordinate_assignments(*coords),
{
    let ghost before = props.deep_view();
    push_ratio_assignment(props, "chromaticity-coordinates-red-x", &coords.red.0, 5);
    push_ratio_assignment(props, "chromaticity-coordinates-red-y", &coords.red.1, 5);
    push_ratio_assignment(props, "chromaticity-coordinates-green-x", &coords.green.0, 5);
    push_ratio_assignment(props, "chromaticity-coordinates-green-y", &coords.green.1, 5);
    push_ratio_assignment(props, "chromaticity-coordinates-blue-x", &coords.blue.0, 5);
    push_ratio_assignment(props, "chromaticity-coordinates-blue-y", &coords.blue.1, 5);
    push_ratio_assignment(props, "white-coordinates-x", &coords.white.0, 5);
    push_ratio_assignment(props, "white-coordinates-y", &coords.white.1, 5);
    assert(props.deep_view() =~= before + coordinate_assignments(*coords));
}

fn push_hdr(props: &mut Vec<String>, hdr: &HdrMetadata)
    ensures
        final(props).deep_view() == old(props).deep_view() + hdr_assignments(*hdr),
{
    let ghost before = props.deep_view();
    push_number_assignment(
        props,
        hdr.max_content_light != 0,
        "max-content-light",
        hdr.max_content_light,
    );
    push_number_assignment(props, hdr.max_frame_light != 0, "max-frame-light", hdr.max_frame_light);
    push_number_assignment(props, true, "max-luminance", hdr.max_luma);
    push_ratio_assignment(props, "min-luminance", &hdr.min_luma, 4);
    match &hdr.color_coords {
        Some(coords) => {
            push_coordinates(props, coords);
        },
        None => {},
    }
    assert(props.deep_view() =~= before + hdr_assignments(*hdr));
}

/// Joins `parts` with single spaces.
pub fn join(parts: &Vec<String>) -> (line: String)
    ensures
        line@ == joined(parts.deep_view()),
{
    let mut line = String::new();
    let mut i: usize = 0;
    while i < parts.len()
        invariant
            i <= parts.len(),
            line@ == joined(parts.deep_view().take(i as int)),
        decreases parts.len() - i,
    {
        let ghost done = parts.deep_view().take(i as int);
        let ghost more = parts.deep_view().take(i + 1);
        assert(more.drop_last() =~= done);
        assert(more.last() == parts[i as int]@);
        if i > 0 {
            line.append(" ");
        }
        line.append(parts[i].as_str());
        assert(line@ =~= joined(more));
        i += 1;
    }
    assert(parts.deep_view().take(parts.len() as int) =~= parts.deep_view());
    line
}

impl Metadata {
    /// The property assignments that carry this record, in the order in
    /// which the property editor is given them.
    pub fn property_assignments(&self) -> (props: Vec<String>)
        ensures
            props.deep_view() == assignments(*self),
    {
        let mut props: Vec<String> = Vec::new();
        assert(props.deep_view() =~= Seq::<Seq<char>>::empty());
        match &self.basic {
            Some(basic) => {
                push_basic(&mut props, basic);
            },
            None => {},
        }
        match &self.hdr {
            Some(hdr) => {
                push_hdr(&mut props, hdr);
            },
            None => {},
        }
        assert(props.deep_view() =~= assignments(*self));
        props
    }

    /// The arguments that select the first video track and set its
    /// properties.
    pub fn build_edit_arguments(&self) -> (args: Vec<String>)
        ensures
            args.deep_view() == edit_arguments(*self),
    {
        let props = self.property_assignments();
        let mut args: Vec<String> = Vec::new();
        args.push(String::from_str("-e"));
        args.push(String::from_str("track:v1"));
        assert(args.deep_view() =~= seq!["-e"@, "track:v1"@]);
        assert(props.deep_view().take(0) =~= Seq::<Seq<char>>::empty());
        let mut i: usize = 0;
        while i < props.len()
            invariant
                i <= props.len(),
                args.deep_view() == seq!["-e"@, "track:v1"@] + settings(
                    props.deep_view().take(i as int),
                ),
            decreases props.len() - i,
        {
            let ghost before = args.deep_view();
            let ghost done = props.deep_view().take(i as int);
            let ghost more = props.deep_view().take(i + 1);
            assert(more.drop_last() =~= done);
            assert(more.last() == props[i as int]@);
            args.push(String::from_str("-s"));
            args.push(props[i].clone());
            assert(args.deep_view() =~= before + seq!["-s"@, props[i as int]@]);
            assert(args.deep_view() =~= seq!["-e"@, "track:v1"@] + settings(more));
            i += 1;
        }
        assert(props.deep_view().take(props.len() as int) =~= props.deep_view());
        args
    }

    /// The arguments with which the property editor writes this record
    /// into the file `target`, and the chapters of `chapters` with it where
    /// that is given.
    pub fn build_mkvmerge_command(&self, target: &str, chapters: Option<&str>) -> (args: Vec<
        String,
    >)
        ensures
            args.deep_view() == command_arguments(
                *self,
                target@,
                match chapters {
                    Some(path) => Some(path@),
                    None => None,
                },
            ),
    {
        let mut args = self.build_edit_arguments();
        let ghost edit = args.deep_view();
        match chapters {
            Some(path) => {
                args.push(String::from_str("-c"));
                args.push(String::from_str(path));
                assert(args.deep_view() =~= edit + seq!["-c"@, path@]);
            },
            None => {
                assert(args.deep_view() =~= edit + Seq::<Seq<char>>::empty());
            },
        }
        let ghost middle = args.deep_view();
        args.push(String::from_str(target));
        assert(args.deep_view() =~= middle + seq![target@]);
        args
    }

    /// The edit arguments as one line of text, for a dry run.
    pub fn print_mkvmerge_args(&self) -> (line: String)
        ensures
            line@ == joined(edit_arguments(*self)),
    {
        let args = self.build_edit_arguments();
        join(&args)
    }
}

/// The text of the command for a target without chapters is the dry-run
/// text, one space and the target: both come from the same argument list.
pub proof fn lemma_dry_run_is_command_without_target(metadata: Metadata, target: Seq<char>)
    ensures
        command_arguments(metadata, target, None) == edit_arguments(metadata) + seq![target],
        command_arguments(metadata, target, None).drop_last() == edit_arguments(metadata),
        joined(command_arguments(metadata, target, None)) == joined(edit_arguments(metadata))
            + " "@ + target,
{
    let edit = edit_arguments(metadata);
    let all = command_arguments(metadata, target, None);
    assert(all =~= edit + seq![target]);
    assert(all.drop_last() =~= edit);
    assert(edit.len() >= 2);
    assert(all.last() == target);
}

/// The basic block always ends with the siting pair of its chroma
/// location, horizontal before vertical, and begins with the range.
pub proof fn lemma_siting_pair_is_emitted(basic: BasicMetadata)
    ensures
        basic_assignments(basic).len() >= 3,
        basic_assignments(basic)[0] == assignment(
            "colour-range"@,
            decimal_text(mkvedit_range(basic.range) as nat),
        ),
        basic_assignments(basic)[basic_assignments(basic).len() - 2] == assignment(
            "chroma-siting-horizontal"@,
            decimal_text(siting(basic.chroma_location).0 as nat),
        ),
        basic_assignments(basic).last() == assignment(
            "chroma-siting-vertical"@,
            decimal_text(siting(basic.chroma_location).1 as nat),
        ),
{
}

} // verus!
