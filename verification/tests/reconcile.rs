use hdrcopier::error::Error;
use hdrcopier::metadata::{BasicMetadata, ChromaLocation, Metadata};
use hdrcopier::ratio::Ratio;
use hdrcopier::reconcile::{Reconciler, Source};

const COMPLETE_CONTAINER: &str = "| + Colour matrix coefficients: 9
| + Colour range: 1
| + Video colour mastering metadata
|  + Red colour coordinate x: 0.68
|  + Maximum luminance: 1000
";

const BASIC_CONTAINER: &str = "| + Colour matrix coefficients: 1\n| + Colour primaries: 1\n";

const COMPLETE_STREAM: &str = "Matrix coefficients : BT.2020 non-constant
Color range : Limited
Mastering display color primaries : BT.2020
Encoding settings : master-display=G(1,2)B(3,4)R(34000,6)WP(7,8)L(10000000,50)
";

const HDR_STREAM: &str = "Mastering display color primaries : BT.2020
Maximum Content Light Level : 944 cd/m2
";

const SIDE_DATA: &str = "side_data_type=Mastering display metadata
side_data_type=Content light level metadata
red_x=1/2
max_content=300
";

fn run(
    container: Option<&[u8]>,
    stream: Option<&[u8]>,
    side_data: Option<&[u8]>,
) -> (Result<Metadata, Error>, Vec<Source>) {
    let mut asked = Vec::new();
    let mut state = Reconciler::new();
    while let Some(source) = state.next_source() {
        asked.push(source);
        let output = match source {
            Source::Container => container,
            Source::StreamHeader => stream,
            Source::FrameSideData => side_data,
        };
        match state.feed(output) {
            Ok(next) => state = next,
            Err(e) => return (Err(e), asked),
        }
    }
    (Ok(state.into_metadata()), asked)
}

#[test]
fn complete_container_record_ends_the_reconciliation() {
    let (result, asked) = run(
        Some(COMPLETE_CONTAINER.as_bytes()),
        Some(COMPLETE_STREAM.as_bytes()),
        Some(SIDE_DATA.as_bytes()),
    );
    assert_eq!(asked, vec![Source::Container]);
    let metadata = result.unwrap();
    assert_eq!(metadata.basic.unwrap().matrix, 9);
    let hdr = metadata.hdr.unwrap();
    assert_eq!(hdr.max_luma, 1000);
    assert_eq!(hdr.color_coords.unwrap().red.0, Ratio::new(68, 100).unwrap());
    let (again, asked_again) = run(Some(COMPLETE_CONTAINER.as_bytes()), None, None);
    assert_eq!(asked_again, vec![Source::Container]);
    assert_eq!(again, Ok(metadata));
}

#[test]
fn failure_of_the_stream_header_probe_is_fatal() {
    let (result, asked) = run(None, None, Some(SIDE_DATA.as_bytes()));
    assert_eq!(result, Err(Error::ProbeUnavailable));
    assert_eq!(asked, vec![Source::Container, Source::StreamHeader]);
    let (result, _) = run(Some(b"| + Colour range: x\n"), Some(b"Color range : odd\n"), None);
    assert_eq!(result, Err(Error::UnrecognizedValue));
    let (result, _) = run(
        Some(BASIC_CONTAINER.as_bytes()),
        Some(b"Maximum Content Light Level : ?\n"),
        None,
    );
    assert_eq!(result, Err(Error::MalformedField));
}

#[test]
fn stream_header_stands_in_for_a_failed_container_probe() {
    let (from_stream, asked) = run(None, Some(COMPLETE_STREAM.as_bytes()), Some(SIDE_DATA.as_bytes()));
    assert_eq!(asked, vec![Source::Container, Source::StreamHeader]);
    let metadata = from_stream.unwrap();
    assert_eq!(
        metadata.basic,
        Some(BasicMetadata {
            matrix: 9,
            range: 1,
            transfer: 2,
            primaries: 2,
            chroma_location: ChromaLocation::Left,
        })
    );
    let hdr = metadata.hdr.unwrap();
    assert_eq!(hdr.max_luma, 1000);
    assert_eq!(hdr.min_luma, Ratio::new(50, 10000).unwrap());
    assert_eq!(hdr.color_coords.unwrap().red.0, Ratio::new(34000, 50000).unwrap());
    assert_eq!(
        Metadata::parse(Some(b"| + Colour range: x\n"), Some(COMPLETE_STREAM.as_bytes()), None),
        Ok(metadata)
    );
}

#[test]
fn stream_header_fills_only_what_is_absent_and_replaces_the_hdr_block() {
    let (result, asked) = run(
        Some(BASIC_CONTAINER.as_bytes()),
        Some(COMPLETE_STREAM.as_bytes()),
        None,
    );
    assert_eq!(asked, vec![Source::Container, Source::StreamHeader]);
    let metadata = result.unwrap();
    let basic = metadata.basic.unwrap();
    assert_eq!((basic.matrix, basic.primaries, basic.range), (1, 1, 1));
    assert!(metadata.hdr.unwrap().color_coords.is_some());
}

#[test]
fn side_data_is_consulted_last_and_sets_only_the_hdr_block() {
    let (result, asked) = run(
        Some(BASIC_CONTAINER.as_bytes()),
        Some(HDR_STREAM.as_bytes()),
        Some(SIDE_DATA.as_bytes()),
    );
    assert_eq!(asked, vec![Source::Container, Source::StreamHeader, Source::FrameSideData]);
    let metadata = result.unwrap();
    assert_eq!(metadata.basic.unwrap().matrix, 1);
    let hdr = metadata.hdr.unwrap();
    assert_eq!(hdr.max_content_light, 300);
    assert_eq!(hdr.color_coords.unwrap().red.0, Ratio::new(1, 2).unwrap());
}

#[test]
fn failure_of_the_side_data_probe_is_tolerated() {
    let expected = Metadata::parse(
        Some(BASIC_CONTAINER.as_bytes()),
        Some(HDR_STREAM.as_bytes()),
        Some(b""),
    )
    .unwrap();
    assert_eq!(expected.hdr.unwrap().max_content_light, 944);
    assert_eq!(
        Metadata::parse(Some(BASIC_CONTAINER.as_bytes()), Some(HDR_STREAM.as_bytes()), None),
        Ok(expected)
    );
    let broken = "side_data_type=Mastering display metadata
side_data_type=Content light level metadata
red_x=1/0
";
    assert_eq!(
        Metadata::parse(
            Some(BASIC_CONTAINER.as_bytes()),
            Some(HDR_STREAM.as_bytes()),
            Some(broken.as_bytes())
        ),
        Ok(expected)
    );
}

#[test]
fn nothing_found_is_no_error() {
    assert_eq!(Metadata::parse(Some(b""), Some(b""), Some(b"")), Ok(Metadata { basic: None, hdr: None }));
    assert_eq!(Metadata::parse(None, Some(b"noise\n"), None), Ok(Metadata { basic: None, hdr: None }));
    let done =
        Reconciler { next: None, record: Metadata { basic: None, hdr: None }, warning: None };
    assert_eq!(done.feed(Some(COMPLETE_CONTAINER.as_bytes())), Ok(done));
}

#[test]
fn tolerated_failures_are_kept_as_warnings() {
    let start = Reconciler::new();
    assert_eq!(start.warning, None);
    let first = start.feed(None).unwrap();
    assert_eq!(first.warning, Some(Error::ProbeUnavailable));
    let first = start.feed(Some(b"| + Colour range: x\n")).unwrap();
    assert_eq!(first.warning, Some(Error::MalformedField));
    assert_eq!(first.record, Metadata { basic: None, hdr: None });
    let first = start.feed(Some(BASIC_CONTAINER.as_bytes())).unwrap();
    assert_eq!(first.warning, None);
    let second = first.feed(Some(HDR_STREAM.as_bytes())).unwrap();
    assert_eq!(second.warning, None);
    assert_eq!(second.feed(None).unwrap().warning, Some(Error::ProbeUnavailable));
    assert_eq!(second.feed(Some(b"")).unwrap().warning, None);
    assert_eq!(second.feed(Some(SIDE_DATA.as_bytes())).unwrap().warning, None);
}
