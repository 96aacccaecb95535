use hdrcopier::command::join;
use hdrcopier::display::{parse_master_display, MasterDisplay};
use hdrcopier::encoder::format_master_display;
use hdrcopier::error::Error;
use hdrcopier::metadata::{
    BasicMetadata, ChromaLocation, ColorCoordinates, HdrMetadata, Metadata,
};
use hdrcopier::ratio::Ratio;
use hdrcopier::report::Format;

fn ratio(num: u64, den: u64) -> Ratio {
    Ratio::new(num, den).unwrap()
}

fn basic() -> BasicMetadata {
    BasicMetadata {
        matrix: 9,
        range: 1,
        transfer: 16,
        primaries: 9,
        chroma_location: ChromaLocation::Left,
    }
}

fn coords() -> ColorCoordinates {
    ColorCoordinates {
        red: (ratio(34000, 50000), ratio(15999, 50000)),
        green: (ratio(13250, 50000), ratio(34499, 50000)),
        blue: (ratio(7499, 50000), ratio(2999, 50000)),
        white: (ratio(15634, 50000), ratio(16450, 50000)),
    }
}

fn hdr() -> HdrMetadata {
    HdrMetadata {
        color_coords: Some(coords()),
        max_luma: 1000,
        min_luma: ratio(50, 10000),
        max_content_light: 944,
        max_frame_light: 143,
    }
}

fn full() -> Metadata {
    Metadata { basic: Some(basic()), hdr: Some(hdr()) }
}

fn strings(list: &[&str]) -> Vec<String> {
    list.iter().map(|s| s.to_string()).collect()
}

#[test]
fn property_assignments_of_a_full_record() {
    assert_eq!(
        full().property_assignments(),
        strings(&[
            "colour-range=1",
            "colour-transfer-characteristics=16",
            "colour-primaries=9",
            "colour-matrix-coefficients=9",
            "chroma-siting-horizontal=1",
            "chroma-siting-vertical=2",
            "max-content-light=944",
            "max-frame-light=143",
            "max-luminance=1000",
            "min-luminance=0.0050",
            "chromaticity-coordinates-red-x=0.68000",
            "chromaticity-coordinates-red-y=0.31998",
            "chromaticity-coordinates-green-x=0.26500",
            "chromaticity-coordinates-green-y=0.68998",
            "chromaticity-coordinates-blue-x=0.14998",
            "chromaticity-coordinates-blue-y=0.05998",
            "white-coordinates-x=0.31268",
            "white-coordinates-y=0.32900",
        ])
    );
}

#[test]
fn unspecified_codes_and_absent_levels_are_left_out() {
    let metadata = Metadata {
        basic: Some(BasicMetadata {
            matrix: 2,
            range: 0,
            transfer: 2,
            primaries: 2,
            chroma_location: ChromaLocation::Top,
        }),
        hdr: Some(HdrMetadata {
            color_coords: None,
            max_luma: 0,
            min_luma: Ratio::zero(),
            max_content_light: 0,
            max_frame_light: 0,
        }),
    };
    assert_eq!(
        metadata.property_assignments(),
        strings(&[
            "colour-range=2",
            "chroma-siting-horizontal=2",
            "chroma-siting-vertical=1",
            "max-luminance=0",
            "min-luminance=0.0000",
        ])
    );
    let none = Metadata { basic: None, hdr: None };
    assert_eq!(none.property_assignments(), Vec::<String>::new());
    assert_eq!(none.build_mkvmerge_command("t.mkv", None), strings(&["-e", "track:v1", "t.mkv"]));
    assert_eq!(none.print_mkvmerge_args(), "-e track:v1");
}

#[test]
fn each_chroma_location_writes_its_siting_pair() {
    let cases = [
        (ChromaLocation::Left, "1", "2"),
        (ChromaLocation::Center, "2", "2"),
        (ChromaLocation::TopLeft, "1", "1"),
        (ChromaLocation::Top, "2", "1"),
        (ChromaLocation::BottomLeft, "1", "0"),
        (ChromaLocation::Bottom, "2", "0"),
    ];
    for (location, horizontal, vertical) in cases {
        let metadata = Metadata {
            basic: Some(BasicMetadata { chroma_location: location, ..basic() }),
            hdr: None,
        };
        let props = metadata.property_assignments();
        assert_eq!(props.len(), 6);
        assert_eq!(props[4], format!("chroma-siting-horizontal={}", horizontal));
        assert_eq!(props[5], format!("chroma-siting-vertical={}", vertical));
    }
}

#[test]
fn command_and_dry_run_share_their_arguments() {
    let metadata = full();
    let args = metadata.build_mkvmerge_command("target file.mkv", None);
    let dry_run = metadata.print_mkvmerge_args();
    assert_eq!(args.last().unwrap(), "target file.mkv");
    assert_eq!(join(&args), format!("{} {}", dry_run, "target file.mkv"));
    assert_eq!(args[..args.len() - 1].join(" "), dry_run);
    assert_eq!(metadata.build_edit_arguments(), args[..args.len() - 1].to_vec());
    assert!(dry_run.starts_with("-e track:v1 -s colour-range=1 -s colour-transfer-characteristics=16 "));
    assert!(dry_run.ends_with(" -s white-coordinates-x=0.31268 -s white-coordinates-y=0.32900"));
    assert_eq!(metadata.print(Some("mkvmerge")), Ok(dry_run));
}

#[test]
fn chapters_are_handed_on_before_the_target() {
    let metadata = Metadata { basic: Some(basic()), hdr: None };
    let args = metadata.build_mkvmerge_command("out.mkv", Some("chapters.xml"));
    assert_eq!(
        args,
        strings(&[
            "-e",
            "track:v1",
            "-s",
            "colour-range=1",
            "-s",
            "colour-transfer-characteristics=16",
            "-s",
            "colour-primaries=9",
            "-s",
            "colour-matrix-coefficients=9",
            "-s",
            "chroma-siting-horizontal=1",
            "-s",
            "chroma-siting-vertical=2",
            "-c",
            "chapters.xml",
            "out.mkv",
        ])
    );
}

#[test]
fn master_display_string_is_written_in_steps() {
    assert_eq!(
        format_master_display(&coords(), 1000, &ratio(50, 10000)),
        "G(13250,34499)B(7499,2999)R(34000,15999)WP(15634,16450)L(10000000,50)"
    );
    let odd = ColorCoordinates {
        red: (ratio(6800000071525574, 10000000000000000), ratio(1, 3)),
        green: (ratio(1, 100000), ratio(0, 7)),
        blue: (ratio(3, 200000), ratio(1, 1)),
        white: (ratio(1, 2), ratio(2, 3)),
    };
    assert_eq!(
        format_master_display(&odd, 4294967295, &ratio(4999999888241291, 1000000000000000000)),
        "G(1,0)B(1,50000)R(34000,16667)WP(25000,33333)L(42949672950000,50)"
    );
}

#[test]
fn first_encoder_arguments() {
    assert_eq!(
        full().print_x265_args(),
        Ok("--range limited --colorprim bt2020 --transfer smpte2084 --colormatrix bt2020nc \
            --chromaloc 0 --max-luma 1000 --min-luma 0.0050 --max-cll 944,143 --master-display \
            G(13250,34499)B(7499,2999)R(34000,15999)WP(15634,16450)L(10000000,50)"
            .to_string())
    );
    let dark = Metadata {
        basic: None,
        hdr: Some(HdrMetadata { color_coords: None, max_luma: 0, min_luma: ratio(0, 5), ..hdr() }),
    };
    assert_eq!(dark.print_x265_args(), Ok("--max-cll 944,143".to_string()));
    assert_eq!(full().print(Some("x265")), full().print_x265_args());
}

#[test]
fn first_encoder_rejects_what_it_cannot_say() {
    let rgb = Metadata { basic: Some(BasicMetadata { matrix: 0, ..basic() }), hdr: Some(hdr()) };
    assert_eq!(rgb.print_x265_args(), Err(Error::UnsupportedByTarget));
    let ebu = Metadata { basic: Some(BasicMetadata { primaries: 22, ..basic() }), hdr: None };
    assert_eq!(ebu.print_x265_args(), Err(Error::UnsupportedByTarget));
    let unknown = Metadata { basic: Some(BasicMetadata { range: 2, matrix: 0, ..basic() }), hdr: None };
    assert_eq!(unknown.print_x265_args(), Err(Error::UnrecognizedValue));
}

#[test]
fn second_encoder_arguments() {
    assert_eq!(
        full().print_rav1e_args(),
        Ok("--range Limited --primaries BT2020 --transfer SMPTE2084 --matrix BT2020NCL \
            --content-light 944,143 --mastering-display \
            G(13250,34499)B(7499,2999)R(34000,15999)WP(15634,16450)L(10000000,50)"
            .to_string())
    );
    let rgb = Metadata { basic: Some(BasicMetadata { matrix: 0, ..basic() }), hdr: None };
    assert_eq!(rgb.print_rav1e_args(), Err(Error::UnsupportedByTarget));
    let hlg = Metadata { basic: Some(BasicMetadata { transfer: 18, ..basic() }), hdr: None };
    assert_eq!(hlg.print_rav1e_args(), Err(Error::UnsupportedByTarget));
    let top = Metadata {
        basic: Some(BasicMetadata { chroma_location: ChromaLocation::Top, ..basic() }),
        hdr: None,
    };
    assert_eq!(
        top.print_rav1e_args(),
        Ok("--range Limited --primaries BT2020 --transfer SMPTE2084 --matrix BT2020NCL".to_string())
    );
    assert_eq!(full().print(Some("rav1e")), full().print_rav1e_args());
}

#[test]
fn third_encoder_arguments() {
    assert_eq!(
        full().print_svt_av1_args(),
        Ok("--color-range 0 --color-primaries 9 --transfer-characteristics 16 \
            --matrix-coefficients 9 --chroma-sample-position left --content-light 944,143 \
            --mastering-display \
            G(13250,34499)B(7499,2999)R(34000,15999)WP(15634,16450)L(10000000,50)"
            .to_string())
    );
    let bare = Metadata { basic: None, hdr: Some(HdrMetadata { color_coords: None, ..hdr() }) };
    assert_eq!(bare.print_svt_av1_args(), Err(Error::UnsupportedByTarget));
    let center = Metadata {
        basic: Some(BasicMetadata { chroma_location: ChromaLocation::Center, ..basic() }),
        hdr: None,
    };
    assert_eq!(center.print_svt_av1_args(), Err(Error::UnsupportedByTarget));
    let odd = Metadata { basic: Some(BasicMetadata { transfer: 3, ..basic() }), hdr: None };
    assert_eq!(odd.print_svt_av1_args(), Err(Error::UnrecognizedValue));
    let rgb = Metadata { basic: Some(BasicMetadata { matrix: 0, range: 0, ..basic() }), hdr: None };
    assert_eq!(
        rgb.print_svt_av1_args(),
        Ok("--color-range 1 --color-primaries 9 --transfer-characteristics 16 \
            --matrix-coefficients 0 --chroma-sample-position left"
            .to_string())
    );
    assert_eq!(full().print(Some("svt-av1")), full().print_svt_av1_args());
}

#[test]
fn report_for_people() {
    assert_eq!(
        full().print_human_readable_format(),
        Ok("Color Range: Limited\n\
            Color Primaries: BT.2020\n\
            Transfer Characteristics: PQ/SMPTE 2084\n\
            Matrix Coefficients: BT.2020 Non-Constant Light\n\
            Chroma Location: Left\n\
            Max Content Light Level: 944\n\
            Max Frame-Average Light Level: 143\n\
            Maximum Luminance: 1000\n\
            Minimum Luminance: 0.0050\n\
            Red Coordinates: 0.68000, 0.31998\n\
            Green Coordinates: 0.26500, 0.68998\n\
            Blue Coordinates: 0.14998, 0.05998\n\
            White Point Coordinates: 0.31268, 0.32900\n"
            .to_string())
    );
    assert_eq!(full().print(None), full().print_human_readable_format());
    let nothing = Metadata { basic: None, hdr: None };
    assert_eq!(nothing.print(None), Ok(String::new()));
    let odd = Metadata { basic: Some(BasicMetadata { primaries: 3, ..basic() }), hdr: None };
    assert_eq!(odd.print(None), Err(Error::UnrecognizedValue));
}

#[test]
fn formats_by_name() {
    assert_eq!(Format::named("x265"), Some(Format::X265));
    assert_eq!(Format::named("rav1e"), Some(Format::Rav1e));
    assert_eq!(Format::named("svt-av1"), Some(Format::SvtAv1));
    assert_eq!(Format::named("mkvmerge"), Some(Format::Mkvmerge));
    assert_eq!(Format::named("X265"), None);
    assert_eq!(Format::named(""), None);
    assert_eq!(full().print(Some("vp9")), Err(Error::UnsupportedByTarget));
    assert_eq!(full().render(Format::Report), full().print(None));
}

#[test]
fn written_master_display_is_read_back() {
    let written = format_master_display(&coords(), 1000, &ratio(50, 10000));
    assert_eq!(
        parse_master_display(written.as_bytes()),
        Some(MasterDisplay { coords: coords(), max_luma: 1000, min_luma: ratio(50, 10000) })
    );
    let odd = ColorCoordinates {
        red: (ratio(1, 3), ratio(2, 3)),
        green: (ratio(6800000071525574, 10000000000000000), ratio(0, 9)),
        blue: (ratio(9, 9), ratio(1, 100000)),
        white: (ratio(3, 200000), ratio(5, 2)),
    };
    let written = format_master_display(&odd, u32::MAX, &ratio(1, 3));
    let read = parse_master_display(written.as_bytes()).unwrap();
    assert_eq!(read.coords.red, (ratio(16667, 50000), ratio(33333, 50000)));
    assert_eq!(read.coords.green, (ratio(34000, 50000), ratio(0, 50000)));
    assert_eq!(read.coords.blue, (ratio(50000, 50000), ratio(1, 50000)));
    assert_eq!(read.coords.white, (ratio(1, 50000), ratio(125000, 50000)));
    assert_eq!(read.max_luma, u32::MAX);
    assert_eq!(read.min_luma, ratio(3333, 10000));
    assert_eq!(format_master_display(&read.coords, read.max_luma, &read.min_luma), written);
}

#[test]
fn chromaticity_lies_between_zero_and_one() {
    assert!(coords().is_normalized());
    let out = ColorCoordinates { white: (ratio(1, 2), ratio(50001, 50000)), ..coords() };
    assert!(!out.is_normalized());
    let edge = ColorCoordinates { red: (ratio(0, 1), ratio(7, 7)), ..coords() };
    assert!(edge.is_normalized());
}
