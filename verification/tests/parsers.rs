use hdrcopier::container::parse_mkvinfo;
use hdrcopier::display::{parse_master_display, parse_x265_settings};
use hdrcopier::error::Error;
use hdrcopier::metadata::{BasicMetadata, ChromaLocation, Metadata};
use hdrcopier::ratio::Ratio;
use hdrcopier::sidedata::parse_ffprobe;
use hdrcopier::stream::parse_mediainfo;

fn ratio(num: u64, den: u64) -> Ratio {
    Ratio::new(num, den).unwrap()
}

fn value(r: Ratio) -> f64 {
    r.num() as f64 / r.den() as f64
}

const MKVINFO: &str = "|    + Colour matrix coefficients: 9
|    + Colour range: 1
|    + Colour transfer: 16
|    + Colour primaries: 9
|    + Maximum content light: 944
|    + Maximum frame light: 143
|    + Video colour mastering metadata
|     + Red colour coordinate x: 0.6800000071525574
|     + Red colour coordinate y: 0.3199799954891205
|     + Green colour coordinate x: 0.26499998569488525
|     + Green colour coordinate y: 0.6899799704551697
|     + Blue colour coordinate x: 0.15000000596046448
|     + Blue colour coordinate y: 0.05998000130057335
|     + White colour coordinate x: 0.3126800060272217
|     + White colour coordinate y: 0.32899999618530273
|     + Maximum luminance: 1000
|     + Minimum luminance: 0.004999999888241291
";

const MEDIAINFO: &str = "Video
Encoding settings                        : cutree / master-display=G(13250,34499)B(7499,2999)R(34000,15999)WP(15634,16450)L(10000000,50)cll=944,143 / no-sao
Color range                              : Limited
Color primaries                          : BT.2020
Transfer characteristics                 : PQ
Matrix coefficients                      : BT.2020 non-constant
Mastering display color primaries        : Display P3
Mastering display luminance              : min: 0.0050 cd/m2, max: 1000 cd/m2
Maximum Content Light Level              : 944 cd/m2
Maximum Frame-Average Light Level        : 143 cd/m2
";

const FFPROBE: &str = "[SIDE_DATA]
side_data_type=Mastering display metadata
red_x=34000/50000
red_y=15999/50000
green_x=13250/50000
green_y=34499/50000
blue_x=7499/50000
blue_y=2999/50000
white_point_x=15634/50000
white_point_y=16450/50000
min_luminance=50/10000
max_luminance=10000000/10000
[/SIDE_DATA]
[SIDE_DATA]
side_data_type=Content light level metadata
max_content=944
max_average=143
[/SIDE_DATA]
";

#[test]
fn garbage_and_empty_text_yield_nothing() {
    let empty = Metadata { basic: None, hdr: None };
    assert_eq!(parse_mkvinfo(b""), Ok(empty));
    assert_eq!(parse_mediainfo(b""), Ok(empty));
    assert_eq!(parse_ffprobe(b""), Ok(None));
    let garbage = b"\x00\xff lorem ipsum\n\n: = / ,\r\n12345\n";
    assert_eq!(parse_mkvinfo(garbage), Ok(empty));
    assert_eq!(parse_mediainfo(garbage), Ok(empty));
    assert_eq!(parse_ffprobe(garbage), Ok(None));
}

#[test]
fn master_display_string_is_read_with_canonical_scales() {
    let display =
        parse_master_display(b"G(13250,34499)B(7499,2999)R(34000,15999)WP(15634,16450)L(10000000,50)")
            .unwrap();
    assert_eq!(display.coords.green, (ratio(13250, 50000), ratio(34499, 50000)));
    assert_eq!(display.coords.blue, (ratio(7499, 50000), ratio(2999, 50000)));
    assert_eq!(display.coords.red, (ratio(34000, 50000), ratio(15999, 50000)));
    assert_eq!(display.coords.white, (ratio(15634, 50000), ratio(16450, 50000)));
    assert_eq!(display.max_luma, 1000);
    assert_eq!(display.min_luma, ratio(50, 10000));
    assert_eq!(value(display.coords.green.0), 0.2650);
    assert_eq!(value(display.coords.green.1), 0.68998);
    assert_eq!(value(display.coords.blue.0), 0.14998);
    assert_eq!(value(display.coords.blue.1), 0.05998);
    assert_eq!(value(display.coords.red.0), 0.68);
    assert_eq!(value(display.coords.red.1), 0.31998);
    assert_eq!(value(display.coords.white.0), 0.31268);
    assert_eq!(value(display.coords.white.1), 0.329);
    assert_eq!(value(display.min_luma), 0.005);
}

#[test]
fn master_display_string_must_follow_the_grammar() {
    assert_eq!(parse_master_display(b""), None);
    assert_eq!(parse_master_display(b"G(1,2)B(3,4)R(5,6)WP(7,8)"), None);
    assert_eq!(parse_master_display(b"B(3,4)G(1,2)R(5,6)WP(7,8)L(9,1)"), None);
    assert_eq!(parse_master_display(b"G(1,2)B(3,4)R(5,6)W(7,8)L(9,1)"), None);
    assert_eq!(parse_master_display(b"G(1;2)B(3,4)R(5,6)WP(7,8)L(9,1)"), None);
    assert_eq!(parse_master_display(b"G(,2)B(3,4)R(5,6)WP(7,8)L(9,1)"), None);
    assert_eq!(parse_master_display(b"G(1,2 B(3,4)R(5,6)WP(7,8)L(9,1)"), None);
    assert_eq!(
        parse_master_display(b"G(99999999999999999999,2)B(3,4)R(5,6)WP(7,8)L(9,1)"),
        None
    );
    assert!(parse_master_display(b"G(1,2)B(3,4)R(5,6)WP(7,8)L(9,1)trailing").is_some());
}

#[test]
fn settings_without_a_master_display_are_malformed() {
    assert_eq!(parse_x265_settings(b"cutree / no-sao"), Err(Error::MalformedField));
    assert_eq!(parse_x265_settings(b"master-display=G(1,2)"), Err(Error::MalformedField));
    let display = parse_x265_settings(b"a / master-display=G(1,2)B(3,4)R(5,6)WP(7,8)L(20000,1) / b")
        .unwrap();
    assert_eq!(display.max_luma, 2);
    assert_eq!(display.min_luma, ratio(1, 10000));
    assert_eq!(display.coords.white, (ratio(7, 50000), ratio(8, 50000)));
}

#[test]
fn container_probe_is_read_in_full() {
    let metadata = parse_mkvinfo(MKVINFO.as_bytes()).unwrap();
    assert_eq!(
        metadata.basic,
        Some(BasicMetadata {
            matrix: 9,
            range: 1,
            transfer: 16,
            primaries: 9,
            chroma_location: ChromaLocation::Left,
        })
    );
    let hdr = metadata.hdr.unwrap();
    assert_eq!(hdr.max_content_light, 944);
    assert_eq!(hdr.max_frame_light, 143);
    assert_eq!(hdr.max_luma, 1000);
    assert_eq!(hdr.min_luma, ratio(4999999888241291, 1000000000000000000));
    let coords = hdr.color_coords.unwrap();
    assert_eq!(coords.red.0, ratio(6800000071525574, 10000000000000000));
    assert_eq!(coords.red.1, ratio(3199799954891205, 10000000000000000));
    assert_eq!(coords.green.0, ratio(26499998569488525, 100000000000000000));
    assert_eq!(coords.white.1, ratio(32899999618530273, 100000000000000000));
}

#[test]
fn container_probe_without_header_reports_no_hdr_block() {
    let text = "| + Colour range: 1\n| + Maximum content light: 944\n";
    let metadata = parse_mkvinfo(text.as_bytes()).unwrap();
    assert_eq!(metadata.hdr, None);
    assert_eq!(
        metadata.basic,
        Some(BasicMetadata {
            matrix: 2,
            range: 1,
            transfer: 2,
            primaries: 2,
            chroma_location: ChromaLocation::Left,
        })
    );
}

#[test]
fn container_probe_header_alone_reports_a_blank_hdr_block() {
    let metadata = parse_mkvinfo(b"| + Video colour mastering metadata\r\n").unwrap();
    assert_eq!(metadata.basic, None);
    let hdr = metadata.hdr.unwrap();
    assert_eq!(hdr.color_coords, None);
    assert_eq!(hdr.max_luma, 0);
    assert_eq!(hdr.min_luma, Ratio::zero());
    assert_eq!(hdr.max_content_light, 0);
    assert_eq!(hdr.max_frame_light, 0);
}

#[test]
fn container_probe_rejects_values_that_are_no_numbers() {
    assert_eq!(parse_mkvinfo(b"| + Colour range: limited\n"), Err(Error::MalformedField));
    assert_eq!(parse_mkvinfo(b"| + Colour range: 256\n"), Err(Error::MalformedField));
    assert_eq!(parse_mkvinfo(b"| + Colour range:1\n"), Err(Error::MalformedField));
    assert_eq!(parse_mkvinfo(b"| + Maximum luminance: 1000.5\n"), Err(Error::MalformedField));
    assert_eq!(parse_mkvinfo(b"| + Minimum luminance: 1e-3\n"), Err(Error::MalformedField));
    assert_eq!(
        parse_mkvinfo(b"| + Maximum content light: 4294967296\n"),
        Err(Error::MalformedField)
    );
    assert!(parse_mkvinfo(b"| + Maximum content light: 4294967295\n").is_ok());
    assert!(parse_mkvinfo(b"| + Colour range: 255\r\n").is_ok());
}

#[test]
fn stream_header_probe_is_read_in_full() {
    let metadata = parse_mediainfo(MEDIAINFO.as_bytes()).unwrap();
    assert_eq!(
        metadata.basic,
        Some(BasicMetadata {
            matrix: 9,
            range: 1,
            transfer: 16,
            primaries: 9,
            chroma_location: ChromaLocation::Left,
        })
    );
    let hdr = metadata.hdr.unwrap();
    assert_eq!(hdr.max_content_light, 944);
    assert_eq!(hdr.max_frame_light, 143);
    assert_eq!(hdr.max_luma, 1000);
    assert_eq!(hdr.min_luma, ratio(50, 10000));
    let coords = hdr.color_coords.unwrap();
    assert_eq!(coords.green, (ratio(13250, 50000), ratio(34499, 50000)));
    assert_eq!(coords.red, (ratio(34000, 50000), ratio(15999, 50000)));
}

#[test]
fn stream_header_probe_rejects_unknown_names() {
    assert_eq!(
        parse_mediainfo(b"Color primaries : Display P9\n"),
        Err(Error::UnrecognizedValue)
    );
    assert_eq!(parse_mediainfo(b"Color range : Sideways\n"), Err(Error::UnrecognizedValue));
    assert_eq!(
        parse_mediainfo(b"Maximum Content Light Level : bright cd/m2\n"),
        Err(Error::MalformedField)
    );
    assert_eq!(
        parse_mediainfo(b"Mastering display luminance : min: 0.0050 cd/m2\n"),
        Err(Error::MalformedField)
    );
    assert_eq!(parse_mediainfo(b"Matrix coefficients\n"), Err(Error::MalformedField));
}

#[test]
fn stream_header_settings_without_master_display_are_skipped() {
    let metadata = parse_mediainfo(b"Encoding settings : cutree / no-sao\n").unwrap();
    assert_eq!(metadata, Metadata { basic: None, hdr: None });
}

#[test]
fn side_data_probe_is_read_in_full() {
    let hdr = parse_ffprobe(FFPROBE.as_bytes()).unwrap().unwrap();
    assert_eq!(hdr.max_content_light, 944);
    assert_eq!(hdr.max_frame_light, 143);
    assert_eq!(hdr.max_luma, 1000);
    assert_eq!(hdr.min_luma, ratio(50, 10000));
    let coords = hdr.color_coords.unwrap();
    assert_eq!(coords.red, (ratio(34000, 50000), ratio(15999, 50000)));
    assert_eq!(coords.green, (ratio(13250, 50000), ratio(34499, 50000)));
    assert_eq!(coords.blue, (ratio(7499, 50000), ratio(2999, 50000)));
    assert_eq!(coords.white, (ratio(15634, 50000), ratio(16450, 50000)));
}

#[test]
fn side_data_probe_needs_both_kinds_of_side_data() {
    let only_display = "side_data_type=Mastering display metadata\nred_x=1/2\n";
    assert_eq!(parse_ffprobe(only_display.as_bytes()), Ok(None));
    let only_light = "side_data_type=Content light level metadata\nmax_content=1\n";
    assert_eq!(parse_ffprobe(only_light.as_bytes()), Ok(None));
}

#[test]
fn side_data_probe_rejects_broken_fractions() {
    let head = "side_data_type=Mastering display metadata\nside_data_type=Content light level metadata\n";
    let with = |line: &str| parse_ffprobe(format!("{}{}\n", head, line).as_bytes());
    assert_eq!(with("red_x=1/0"), Err(Error::MalformedField));
    assert_eq!(with("red_x=1"), Err(Error::MalformedField));
    assert_eq!(with("red_x=a/2"), Err(Error::MalformedField));
    assert_eq!(with("max_luminance=5/0"), Err(Error::MalformedField));
    assert_eq!(with("max_content=-1"), Err(Error::MalformedField));
    let hdr = with("max_luminance=25000/10000").unwrap().unwrap();
    assert_eq!(hdr.max_luma, 2);
    assert_eq!(hdr.color_coords, None);
    let hdr = with(" red_x=1/2").unwrap().unwrap();
    assert_eq!(hdr.color_coords, None);
}
