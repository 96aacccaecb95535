//! The argument strings of the three encoders: x265, rav1e and SVT-AV1.
//!
//! Each dialect has its own tokens for the colour properties and its own
//! rule for what is left out. All three write the mastering display in the
//! same string, `G(x,y)B(x,y)R(x,y)WP(x,y)L(max,min)`.

use vstd::prelude::*;
use vstd::string::*;
use crate::command::{join, joined};
use crate::error::Error;
use crate::metadata::{BasicMetadata, ColorCoordinates, HdrMetadata, Metadata};
use crate::ratio::Ratio;
use crate::render::{decimal_text, number_text, push_number, push_ratio, ratio_text};
use crate::values::{
    known_code,
    location_number,
    location_position,
    matrix_entry,
    matrix_row,
    primaries_entry,
    primaries_row,
    print_rav1e_color_primaries,
    print_rav1e_color_range,
    print_rav1e_matrix_coefficients,
    print_rav1e_transfer_characteristics,
    print_svt_av1_chroma_location,
    print_svt_av1_color_range,
    print_x265_chroma_location,
    print_x265_color_primaries,
    print_x265_color_range,
    print_x265_matrix_coefficients,
    print_x265_transfer_characteristics,
    range_row,
    rav1e_token,
    svt_av1_range,
    transfer_entry,
    transfer_row,
    x265_token,
};

verus! {

/// The text `tag(a,b)`.
pub open spec fn pair_text(tag: Seq<char>, a: nat, b: nat) -> Seq<char> {
    tag + "("@ + decimal_text(a) + ","@ + decimal_text(b) + ")"@
}

/// The mastering display string: green, blue, red and white point in steps
/// of 1/50000, then maximum and minimum luminance in steps of 1/10000
/// cd/m², each rounded to the nearest step.
pub open spec fn master_display_text(coords: ColorCoordinates, max_luma: u32, min_luma: Ratio)
    -> Seq<char> {
    pair_text("G"@, coords.green.0.scaled(50000), coords.green.1.scaled(50000)) + pair_text(
        "B"@,
        coords.blue.0.scaled(50000),
        coords.blue.1.scaled(50000),
    ) + pair_text("R"@, coords.red.0.scaled(50000), coords.red.1.scaled(50000)) + pair_text(
        "WP"@,
        coords.white.0.scaled(50000),
        coords.white.1.scaled(50000),
    ) + pair_text("L"@, max_luma as nat * 10000, min_luma.scaled(10000))
}

/// The text `a,b` of two light levels.
pub open spec fn light_text(content: u32, frame: u32) -> Seq<char> {
    decimal_text(content as nat) + ","@ + decimal_text(frame as nat)
}

/// `[flag, value]` where `emit` holds, nothing otherwise.
pub open spec fn flagged(emit: bool, flag: Seq<char>, value: Seq<char>) -> Seq<Seq<char>> {
    if emit {
        seq![flag, value]
    } else {
        Seq::empty()
    }
}

/// `[flag, string]` for the mastering display where the coordinates are
/// present, nothing otherwise.
pub open spec fn display_flag(flag: Seq<char>, hdr: HdrMetadata) -> Seq<Seq<char>> {
    match hdr.color_coords {
        Some(coords) => seq![flag, master_display_text(coords, hdr.max_luma, hdr.min_luma)],
        None => Seq::empty(),
    }
}

/// The four tokens of the basic block, if the dialect has all of them;
/// else the error of the first that it lacks, in the order range,
/// primaries, transfer, matrix.
pub open spec fn four_tokens(
    range: Result<Seq<char>, Error>,
    primaries: Result<Seq<char>, Error>,
    transfer: Result<Seq<char>, Error>,
    matrix: Result<Seq<char>, Error>,
) -> Result<Seq<Seq<char>>, Error> {
    match range {
        Err(e) => Err(e),
        Ok(r) => match primaries {
            Err(e) => Err(e),
            Ok(p) => match transfer {
                Err(e) => Err(e),
                Ok(t) => match matrix {
                    Err(e) => Err(e),
                    Ok(m) => Ok(seq![r, p, t, m]),
                },
            },
        },
    }
}

/// The basic block in the x265 dialect, which also numbers the
/// chroma location.
pub open spec fn x265_basic(basic: BasicMetadata) -> Result<Seq<Seq<char>>, Error> {
    match four_tokens(
        x265_token(range_row(basic.range)),
        x265_token(primaries_row(basic.primaries)),
        x265_token(transfer_row(basic.transfer)),
        x265_token(matrix_row(basic.matrix)),
    ) {
        Err(e) => Err(e),
        Ok(t) => Ok(
            seq![
                "--range"@,
                t[0],
                "--colorprim"@,
                t[1],
                "--transfer"@,
                t[2],
                "--colormatrix"@,
                t[3],
                "--chromaloc"@,
                decimal_text(location_number(basic.chroma_location) as nat),
            ],
        ),
    }
}

/// The HDR block in the x265 dialect. A luminance bound of zero
/// is left out; the light levels are always written; the mastering display
/// is written where the coordinates are present.
pub open spec fn x265_hdr(hdr: HdrMetadata) -> Seq<Seq<char>> {
    flagged(hdr.max_luma != 0, "--max-luma"@, decimal_text(hdr.max_luma as nat)) + flagged(
        hdr.min_luma.numer() != 0,
        "--min-luma"@,
        ratio_text(hdr.min_luma, 4),
    ) + seq!["--max-cll"@, light_text(hdr.max_content_light, hdr.max_frame_light)] + display_flag(
        "--master-display"@,
        hdr,
    )
}

/// The basic block in the rav1e dialect, which has no argument
/// for the chroma location.
pub open spec fn rav1e_basic(basic: BasicMetadata) -> Result<Seq<Seq<char>>, Error> {
    match four_tokens(
        rav1e_token(range_row(basic.range)),
        rav1e_token(primaries_row(basic.primaries)),
        rav1e_token(transfer_row(basic.transfer)),
        rav1e_token(matrix_row(basic.matrix)),
    ) {
        Err(e) => Err(e),
        Ok(t) => Ok(
            seq![
                "--range"@,
                t[0],
                "--primaries"@,
                t[1],
                "--transfer"@,
                t[2],
                "--matrix"@,
                t[3],
            ],
        ),
    }
}

/// The HDR block in the rav1e dialect: the light levels, and
/// the mastering display where the coordinates are present.
pub open spec fn rav1e_hdr(hdr: HdrMetadata) -> Seq<Seq<char>> {
    seq!["--content-light"@, light_text(hdr.max_content_light, hdr.max_frame_light)]
        + display_flag("--mastering-display"@, hdr)
}

/// A code as the text of its number.
pub open spec fn code_text(code: Result<u8, Error>) -> Result<Seq<char>, Error> {
    match code {
        Ok(c) => Ok(decimal_text(c as nat)),
        Err(e) => Err(e),
    }
}

/// The basic block in the SVT-AV1 dialect, which takes the codes
/// as numbers, counts the range its own way and names the chroma location.
pub open spec fn svt_av1_basic(basic: BasicMetadata) -> Result<Seq<Seq<char>>, Error> {
    match four_tokens(
        code_text(svt_av1_range(basic.range)),
        code_text(known_code(primaries_row(basic.primaries), basic.primaries)),
        code_text(known_code(transfer_row(basic.transfer), basic.transfer)),
        code_text(known_code(matrix_row(basic.matrix), basic.matrix)),
    ) {
        Err(e) => Err(e),
        Ok(t) => match location_position(basic.chroma_location) {
            Err(e) => Err(e),
            Ok(position) => Ok(
                seq![
                    "--color-range"@,
                    t[0],
                    "--color-primaries"@,
                    t[1],
                    "--transfer-characteristics"@,
                    t[2],
                    "--matrix-coefficients"@,
                    t[3],
                    "--chroma-sample-position"@,
                    position,
                ],
            ),
        },
    }
}

/// The HDR block in the SVT-AV1 dialect, which always writes the
/// mastering display: a block without coordinates is
/// `UnsupportedByTarget`.
pub open spec fn svt_av1_hdr(hdr: HdrMetadata) -> Result<Seq<Seq<char>>, Error> {
    match hdr.color_coords {
        Some(coords) => Ok(
            seq![
                "--content-light"@,
                light_text(hdr.max_content_light, hdr.max_frame_light),
                "--mastering-display"@,
                master_display_text(coords, hdr.max_luma, hdr.min_luma),
            ],
        ),
        None => Err(Error::UnsupportedByTarget),
    }
}

/// The arguments of a record: those of the basic block, then those of the
/// HDR block, each where the block is present; or the first error.
pub open spec fn both_blocks(
    basic: Option<Result<Seq<Seq<char>>, Error>>,
    hdr: Option<Result<Seq<Seq<char>>, Error>>,
) -> Result<Seq<Seq<char>>, Error> {
    let first = match basic {
        Some(b) => b,
        None => Ok(Seq::empty()),
    };
    let second = match hdr {
        Some(h) => h,
        None => Ok(Seq::empty()),
    };
    match first {
        Err(e) => Err(e),
        Ok(b) => match second {
            Err(e) => Err(e),
            Ok(h) => Ok(b + h),
        },
    }
}

/// The arguments of `metadata` in the x265 dialect.
pub open spec fn x265_arguments(metadata: Metadata) -> Result<Seq<Seq<char>>, Error> {
    both_blocks(
        match metadata.basic {
            Some(basic) => Some(x265_basic(basic)),
            None => None,
        },
        match metadata.hdr {
            Some(hdr) => Some(Ok(x265_hdr(hdr))),
            None => None,
        },
    )
}

/// The arguments of `metadata` in the rav1e dialect.
pub open spec fn rav1e_arguments(metadata: Metadata) -> Result<Seq<Seq<char>>, Error> {
    both_blocks(
        match metadata.basic {
            Some(basic) => Some(rav1e_basic(basic)),
            None => None,
        },
        match metadata.hdr {
            Some(hdr) => Some(Ok(rav1e_hdr(hdr))),
            None => None,
        },
    )
}

/// The arguments of `metadata` in the SVT-AV1 dialect.
pub open spec fn svt_av1_arguments(metadata: Metadata) -> Result<Seq<Seq<char>>, Error> {
    both_blocks(
        match metadata.basic {
            Some(basic) => Some(svt_av1_basic(basic)),
            None => None,
        },
        match metadata.hdr {
            Some(hdr) => Some(svt_av1_hdr(hdr)),
            None => None,
        },
    )
}

/// Arguments as one line of text, with one space between each two.
pub open spec fn line_of(args: Result<Seq<Seq<char>>, Error>) -> Result<Seq<char>, Error> {
    match args {
        Ok(a) => Ok(joined(a)),
        Err(e) => Err(e),
    }
}

/// The view of a line or its error.
pub open spec fn line_view(line: Result<String, Error>) -> Result<Seq<char>, Error> {
    match line {
        Ok(s) => Ok(s@),
        Err(e) => Err(e),
    }
}

/// The deep view of arguments or their error.
pub open spec fn args_view(args: Result<Vec<String>, Error>) -> Result<Seq<Seq<char>>, Error> {
    match args {
        Ok(a) => Ok(a.deep_view()),
        Err(e) => Err(e),
    }
}

/// Appends `tag(a,b)` to `out`.
fn push_pair(out: &mut String, tag: &str, a: u128, b: u128)
    ensures
        final(out)@ == old(out)@ + pair_text(tag@, a as nat, b as nat),
{
    let ghost before = out@;
    out.append(tag);
    out.append("(");
    push_number(out, a);
    out.append(",");
    push_number(out, b);
    out.append(")");
    assert(out@ =~= before + pair_text(tag@, a as nat, b as nat));
}

/// Writes the mastering display string.
pub fn format_master_display(coords: &ColorCoordinates, max_luma: u32, min_luma: &Ratio) -> (text:
    String)
    ensures
        text@ == master_display_text(*coords, max_luma, *min_luma),
{
    let mut text = String::new();
    push_pair(&mut text, "G", coords.green.0.scale(50000), coords.green.1.scale(50000));
    push_pair(&mut text, "B", coords.blue.0.scale(50000), coords.blue.1.scale(50000));
    push_pair(&mut text, "R", coords.red.0.scale(50000), coords.red.1.scale(50000));
    push_pair(&mut text, "WP", coords.white.0.scale(50000), coords.white.1.scale(50000));
    push_pair(&mut text, "L", max_luma as u128 * 10000, min_luma.scale(10000));
    assert(text@ =~= master_display_text(*coords, max_luma, *min_luma));
    text
}

/// Writes two light levels as `a,b`.
fn format_light(content: u32, frame: u32) -> (text: String)
    ensures
        text@ == light_text(content, frame),
{
    let mut text = String::new();
    push_number(&mut text, content as u128);
    text.append(",");
    push_number(&mut text, frame as u128);
    assert(text@ =~= light_text(content, frame));
    text
}

/// Appends an argument.
fn push_arg(args: &mut Vec<String>, arg: String)
    ensures
        final(args).deep_view() == old(args).deep_view().push(arg@),
{
    args.push(arg);
    assert(args.deep_view() =~= old(args).deep_view().push(arg@));
}

/// Appends a flag and its value.
fn push_flag(args: &mut Vec<String>, flag: &str, value: String)
    ensures
        final(args).deep_view() == old(args).deep_view() + seq![flag@, value@],
{
    let ghost before = args.deep_view();
    push_arg(args, String::from_str(flag));
    push_arg(args, value);
    assert(args.deep_view() =~= before + seq![flag@, value@]);
}

/// Appends a flag and a token.
fn push_token(args: &mut Vec<String>, flag: &str, token: &str)
    ensures
        final(args).deep_view() == old(args).deep_view() + seq![flag@, token@],
{
    push_flag(args, flag, String::from_str(token));
}

/// Appends the mastering display under `flag` where the coordinates are
/// present.
fn push_display(args: &mut Vec<String>, flag: &str, hdr: &HdrMetadata)
    ensures
        final(args).deep_view() == old(args).deep_view() + display_flag(flag@, *hdr),
{
    let ghost before = args.deep_view();
    match &hdr.color_coords {
        Some(coords) => {
            push_flag(args, flag, format_master_display(coords, hdr.max_luma, &hdr.min_luma));
        },
        None => {},
    }
    assert(args.deep_view() =~= before + display_flag(flag@, *hdr));
}

/// The text of a fraction with `places` decimal places.
fn ratio_string(ratio: &Ratio, places: usize) -> (text: String)
    requires
        places <= 9,
    ensures
        text@ == ratio_text(*ratio, places as nat),
{
    let mut text = String::new();
    push_ratio(&mut text, ratio, places);
    assert(text@ =~= ratio_text(*ratio, places as nat));
    text
}

fn x265_basic_args(basic: &BasicMetadata) -> (args: Result<Vec<String>, Error>)
    ensures
        args_view(args) == x265_basic(*basic),
{
    let range = match print_x265_color_range(basic.range) {
        Ok(t) => t,
        Err(e) => {
            return Err(e);
        },
    };
    let primaries = match print_x265_color_primaries(basic.primaries) {
        Ok(t) => t,
        Err(e) => {
            return Err(e);
        },
    };
    let transfer = match print_x265_transfer_characteristics(basic.transfer) {
        Ok(t) => t,
        Err(e) => {
            return Err(e);
        },
    };
    let matrix = match print_x265_matrix_coefficients(basic.matrix) {
        Ok(t) => t,
        Err(e) => {
            return Err(e);
        },
    };
    let mut args: Vec<String> = Vec::new();
    push_token(&mut args, "--range", range);
    push_token(&mut args, "--colorprim", primaries);
    push_token(&mut args, "--transfer", transfer);
    push_token(&mut args, "--colormatrix", matrix);
    push_flag(
        &mut args,
        "--chromaloc",
        number_text(print_x265_chroma_location(basic.chroma_location) as u128),
    );
    assert(args_view(Ok(args)) =~= x265_basic(*basic)) by {
        assert(args.deep_view() =~= x265_basic(*basic)->Ok_0);
    }
    Ok(args)
}

fn x265_hdr_args(hdr: &HdrMetadata) -> (args: Vec<String>)
    ensures
        args.deep_view() == x265_hdr(*hdr),
{
    let mut args: Vec<String> = Vec::new();
    if hdr.max_luma != 0 {
        push_flag(&mut args, "--max-luma", number_text(hdr.max_luma as u128));
    }
    if !hdr.min_luma.is_zero() {
        push_flag(&mut args, "--min-luma", ratio_string(&hdr.min_luma, 4));
    }
    push_flag(&mut args, "--max-cll", format_light(hdr.max_content_light, hdr.max_frame_light));
    push_display(&mut args, "--master-display", hdr);
    assert(args.deep_view() =~= x265_hdr(*hdr));
    args
}

fn rav1e_basic_args(basic: &BasicMetadata) -> (args: Result<Vec<String>, Error>)
    ensures
        args_view(args) == rav1e_basic(*basic),
{
    let range = match print_rav1e_color_range(basic.range) {
        Ok(t) => t,
        Err(e) => {
            return Err(e);
        },
    };
    let primaries = match print_rav1e_color_primaries(basic.primaries) {
        Ok(t) => t,
        Err(e) => {
            return Err(e);
        },
    };
    let transfer = match print_rav1e_transfer_characteristics(basic.transfer) {
        Ok(t) => t,
        Err(e) => {
            return Err(e);
        },
    };
    let matrix = match print_rav1e_matrix_coefficients(basic.matrix) {
        Ok(t) => t,
        Err(e) => {
            return Err(e);
        },
    };
    let mut args: Vec<String> = Vec::new();
    push_token(&mut args, "--range", range);
    push_token(&mut args, "--primaries", primaries);
    push_token(&mut args, "--transfer", transfer);
    push_token(&mut args, "--matrix", matrix);
    assert(args_view(Ok(args)) =~= rav1e_basic(*basic)) by {
        assert(args.deep_view() =~= rav1e_basic(*basic)->Ok_0);
    }
    Ok(args)
}

fn rav1e_hdr_args(hdr: &HdrMetadata) -> (args: Vec<String>)
    ensures
        args.deep_view() == rav1e_hdr(*hdr),
{
    let mut args: Vec<String> = Vec::new();
    push_flag(
        &mut args,
        "--content-light",
        format_light(hdr.max_content_light, hdr.max_frame_light),
    );
    push_display(&mut args, "--mastering-display", hdr);
    assert(args.deep_view() =~= rav1e_hdr(*hdr));
    args
}

fn svt_av1_basic_args(basic: &BasicMetadata) -> (args: Result<Vec<String>, Error>)
    ensures
        args_view(args) == svt_av1_basic(*basic),
{
    let range = match print_svt_av1_color_range(basic.range) {
        Ok(c) => c,
        Err(e) => {
            return Err(e);
        },
    };
    if primaries_entry(basic.primaries).is_none() {
        return Err(Error::UnrecognizedValue);
    }
    if transfer_entry(basic.transfer).is_none() {
        return Err(Error::UnrecognizedValue);
    }
    if matrix_entry(basic.matrix).is_none() {
        return Err(Error::UnrecognizedValue);
    }
    let position = match print_svt_av1_chroma_location(basic.chroma_location) {
        Ok(t) => t,
        Err(e) => {
            return Err(e);
        },
    };
    let mut args: Vec<String> = Vec::new();
    push_flag(&mut args, "--color-range", number_text(range as u128));
    push_flag(&mut args, "--color-primaries", number_text(basic.primaries as u128));
    push_flag(&mut args, "--transfer-characteristics", number_text(basic.transfer as u128));
    push_flag(&mut args, "--matrix-coefficients", number_text(basic.matrix as u128));
    push_token(&mut args, "--chroma-sample-position", position);
    assert(args_view(Ok(args)) =~= svt_av1_basic(*basic)) by {
        assert(args.deep_view() =~= svt_av1_basic(*basic)->Ok_0);
    }
    Ok(args)
}

fn svt_av1_hdr_args(hdr: &HdrMetadata) -> (args: Result<Vec<String>, Error>)
    ensures
        args_view(args) == svt_av1_hdr(*hdr),
{
    match &hdr.color_coords {
        Some(coords) => {
            let mut args: Vec<String> = Vec::new();
            push_flag(
                &mut args,
                "--content-light",
                format_light(hdr.max_content_light, hdr.max_frame_light),
            );
            push_flag(
                &mut args,
                "--mastering-display",
                format_master_display(coords, hdr.max_luma, &hdr.min_luma),
            );
            assert(args.deep_view() =~= svt_av1_hdr(*hdr)->Ok_0);
            Ok(args)
        },
        None => Err(Error::UnsupportedByTarget),
    }
}

/// Puts the arguments of the two blocks together.
fn combine(basic: Option<Result<Vec<String>, Error>>, hdr: Option<Result<Vec<String>, Error>>) -> (
    args: Result<Vec<String>, Error>)
    ensures
        args_view(args) == both_blocks(
            match basic {
                Some(b) => Some(args_view(b)),
                None => None,
            },
            match hdr {
                Some(h) => Some(args_view(h)),
                None => None,
            },
        ),
{
    let mut first = match basic {
        Some(Ok(b)) => b,
        Some(Err(e)) => {
            return Err(e);
        },
        None => Vec::new(),
    };
    let mut second = match hdr {
        Some(Ok(h)) => h,
        Some(Err(e)) => {
            return Err(e);
        },
        None => Vec::new(),
    };
    let ghost b = first.deep_view();
    let ghost h = second.deep_view();
    assert(basic is None ==> b =~= Seq::<Seq<char>>::empty());
    assert(hdr is None ==> h =~= Seq::<Seq<char>>::empty());
    let ghost left = first@;
    let ghost right = second@;
    first.append(&mut second);
    assert(first@ =~= left + right);
    assert(first.deep_view() =~= b + h);
    Ok(first)
}

impl Metadata {
    /// The arguments that hand this record to x265.
    pub fn print_x265_args(&self) -> (line: Result<String, Error>)
        ensures
            line_view(line) == line_of(x265_arguments(*self)),
    {
        let basic = match &self.basic {
            Some(basic) => Some(x265_basic_args(basic)),
            None => None,
        };
        let hdr = match &self.hdr {
            Some(hdr) => Some(Ok(x265_hdr_args(hdr))),
            None => None,
        };
        match combine(basic, hdr) {
            Ok(args) => Ok(join(&args)),
            Err(e) => Err(e),
        }
    }

    /// The arguments that hand this record to rav1e.
    pub fn print_rav1e_args(&self) -> (line: Result<String, Error>)
        ensures
            line_view(line) == line_of(rav1e_arguments(*self)),
    {
        let basic = match &self.basic {
            Some(basic) => Some(rav1e_basic_args(basic)),
            None => None,
        };
        let hdr = match &self.hdr {
            Some(hdr) => Some(Ok(rav1e_hdr_args(hdr))),
            None => None,
        };
        match combine(basic, hdr) {
            Ok(args) => Ok(join(&args)),
            Err(e) => Err(e),
        }
    }

    /// The arguments that hand this record to SVT-AV1.
    pub fn print_svt_av1_args(&self) -> (line: Result<String, Error>)
        ensures
            line_view(line) == line_of(svt_av1_arguments(*self)),
    {
        let basic = match &self.basic {
            Some(basic) => Some(svt_av1_basic_args(basic)),
            None => None,
        };
        let hdr = match &self.hdr {
            Some(hdr) => Some(svt_av1_hdr_args(hdr)),
            None => None,
        };
        match combine(basic, hdr) {
            Ok(args) => Ok(join(&args)),
            Err(e) => Err(e),
        }
    }
}

/// Neither x265 nor rav1e has a token for the RGB
/// matrix, code 0: a record with that matrix is rejected by both, and
/// where the other three properties have their tokens the error is
/// `UnsupportedByTarget`. No argument string is produced.
pub proof fn lemma_rgb_matrix_is_rejected(metadata: Metadata, basic: BasicMetadata)
    requires
        metadata.basic == Some(basic),
        basic.matrix == 0,
    ensures
        x265_token(matrix_row(0)) == Err::<Seq<char>, Error>(Error::UnsupportedByTarget),
        rav1e_token(matrix_row(0)) == Err::<Seq<char>, Error>(Error::UnsupportedByTarget),
        line_of(x265_arguments(metadata)) is Err,
        line_of(rav1e_arguments(metadata)) is Err,
        x265_token(range_row(basic.range)) is Ok && x265_token(primaries_row(basic.primaries))
            is Ok && x265_token(transfer_row(basic.transfer)) is Ok ==> line_of(
            x265_arguments(metadata),
        ) == Err::<Seq<char>, Error>(Error::UnsupportedByTarget),
        rav1e_token(range_row(basic.range)) is Ok && rav1e_token(primaries_row(basic.primaries))
            is Ok && rav1e_token(transfer_row(basic.transfer)) is Ok ==> line_of(
            rav1e_arguments(metadata),
        ) == Err::<Seq<char>, Error>(Error::UnsupportedByTarget),
{
}

/// A serializer fails only with `UnrecognizedValue` or with
/// `UnsupportedByTarget`.
pub proof fn lemma_serializer_errors(metadata: Metadata)
    ensures
        x265_arguments(metadata) is Err ==> x265_arguments(metadata)->Err_0
            == Error::UnrecognizedValue || x265_arguments(metadata)->Err_0
            == Error::UnsupportedByTarget,
        rav1e_arguments(metadata) is Err ==> rav1e_arguments(metadata)->Err_0
            == Error::UnrecognizedValue || rav1e_arguments(metadata)->Err_0
            == Error::UnsupportedByTarget,
        svt_av1_arguments(metadata) is Err ==> svt_av1_arguments(metadata)->Err_0
            == Error::UnrecognizedValue || svt_av1_arguments(metadata)->Err_0
            == Error::UnsupportedByTarget,
        metadata.basic is None ==> x265_arguments(metadata) is Ok && rav1e_arguments(metadata)
            is Ok,
{
}

} // verus!
