use hdrcopier::error::Error;
use hdrcopier::metadata::ChromaLocation;
use hdrcopier::values::{
    chroma_siting, color_range_to_mkvedit_prop, matrix_entry, parse_color_primaries,
    parse_color_range, parse_matrix_coefficients, parse_transfer_characteristics,
    primaries_entry, print_chroma_location, print_color_primaries, print_color_range,
    print_matrix_coefficients, print_rav1e_color_primaries, print_rav1e_color_range,
    print_rav1e_matrix_coefficients, print_rav1e_transfer_characteristics,
    print_svt_av1_chroma_location, print_svt_av1_color_range, print_transfer_characteristics,
    print_x265_chroma_location, print_x265_color_primaries, print_x265_color_range,
    print_x265_matrix_coefficients, print_x265_transfer_characteristics, range_entry,
    transfer_entry,
};

#[test]
fn names_of_the_usual_hdr_codes() {
    assert_eq!(print_matrix_coefficients(9), Ok("BT.2020 Non-Constant Light"));
    assert_eq!(print_transfer_characteristics(16), Ok("PQ/SMPTE 2084"));
    assert_eq!(print_color_primaries(9), Ok("BT.2020"));
    assert_eq!(print_color_range(1), Ok("Limited"));
}

#[test]
fn range_dictionary() {
    assert_eq!(parse_color_range("limited"), Ok(1));
    assert_eq!(parse_color_range("Limited"), Ok(1));
    assert_eq!(parse_color_range("FULL"), Ok(0));
    assert_eq!(parse_color_range("studio"), Err(Error::UnrecognizedValue));
    assert_eq!(parse_color_range(""), Err(Error::UnrecognizedValue));
    assert_eq!(print_color_range(0), Ok("Full"));
    assert_eq!(print_color_range(2), Err(Error::UnrecognizedValue));
    assert_eq!(print_x265_color_range(0), Ok("full"));
    assert_eq!(print_x265_color_range(1), Ok("limited"));
    assert_eq!(print_x265_color_range(7), Err(Error::UnrecognizedValue));
    assert_eq!(print_rav1e_color_range(0), Ok("Full"));
    assert_eq!(print_rav1e_color_range(1), Ok("Limited"));
    assert_eq!(print_svt_av1_color_range(0), Ok(1));
    assert_eq!(print_svt_av1_color_range(1), Ok(0));
    assert_eq!(print_svt_av1_color_range(2), Err(Error::UnrecognizedValue));
}

#[test]
fn property_editor_counts_full_range_as_two() {
    assert_eq!(color_range_to_mkvedit_prop(0), 2);
    assert_eq!(color_range_to_mkvedit_prop(1), 1);
    assert_eq!(color_range_to_mkvedit_prop(2), 2);
    assert_eq!(color_range_to_mkvedit_prop(255), 255);
}

#[test]
fn matrix_dictionary() {
    assert_eq!(parse_matrix_coefficients("RGB"), Ok(0));
    assert_eq!(parse_matrix_coefficients("bt.709"), Ok(1));
    assert_eq!(parse_matrix_coefficients("Unset"), Ok(2));
    assert_eq!(parse_matrix_coefficients("unspecified"), Ok(2));
    assert_eq!(parse_matrix_coefficients("FCC"), Ok(4));
    assert_eq!(parse_matrix_coefficients("BT.470 BG"), Ok(5));
    assert_eq!(parse_matrix_coefficients("SMPTE 170M"), Ok(6));
    assert_eq!(parse_matrix_coefficients("BT.601"), Ok(6));
    assert_eq!(parse_matrix_coefficients("SMPTE 240M"), Ok(7));
    assert_eq!(parse_matrix_coefficients("YCgCo"), Ok(8));
    assert_eq!(parse_matrix_coefficients("BT.2020 non-constant"), Ok(9));
    assert_eq!(parse_matrix_coefficients("BT.2020 constant"), Ok(10));
    assert_eq!(parse_matrix_coefficients("bt.2020"), Err(Error::UnrecognizedValue));
    assert_eq!(parse_matrix_coefficients("BT.709 "), Err(Error::UnrecognizedValue));
    assert_eq!(print_matrix_coefficients(0), Ok("RGB"));
    assert_eq!(print_matrix_coefficients(6), Ok("SMPTE 170m/BT.601"));
    assert_eq!(print_matrix_coefficients(13), Ok("Chroma-Derived Constant Light"));
    assert_eq!(print_matrix_coefficients(3), Err(Error::UnrecognizedValue));
    assert_eq!(print_matrix_coefficients(11), Err(Error::UnrecognizedValue));
    assert_eq!(print_x265_matrix_coefficients(9), Ok("bt2020nc"));
    assert_eq!(print_x265_matrix_coefficients(12), Ok("chroma-derived-nc"));
    assert_eq!(print_rav1e_matrix_coefficients(9), Ok("BT2020NCL"));
    assert_eq!(print_rav1e_matrix_coefficients(6), Ok("BT601"));
}

#[test]
fn rgb_matrix_has_no_encoder_token() {
    assert_eq!(print_x265_matrix_coefficients(0), Err(Error::UnsupportedByTarget));
    assert_eq!(print_rav1e_matrix_coefficients(0), Err(Error::UnsupportedByTarget));
    assert_eq!(print_x265_matrix_coefficients(3), Err(Error::UnrecognizedValue));
    assert_eq!(print_rav1e_matrix_coefficients(3), Err(Error::UnrecognizedValue));
}

#[test]
fn transfer_dictionary() {
    assert_eq!(parse_transfer_characteristics("PQ"), Ok(16));
    assert_eq!(parse_transfer_characteristics("SMPTE 2084"), Ok(16));
    assert_eq!(parse_transfer_characteristics("BT.709"), Ok(1));
    assert_eq!(parse_transfer_characteristics("bt.470 m"), Ok(4));
    assert_eq!(parse_transfer_characteristics("Linear"), Ok(8));
    assert_eq!(parse_transfer_characteristics("Log 316"), Ok(10));
    assert_eq!(parse_transfer_characteristics("IEC 61966-2-1"), Ok(13));
    assert_eq!(parse_transfer_characteristics("BT.2020 12-bit"), Ok(15));
    assert_eq!(parse_transfer_characteristics("ARIB B67"), Ok(18));
    assert_eq!(parse_transfer_characteristics("HLG"), Err(Error::UnrecognizedValue));
    assert_eq!(print_transfer_characteristics(18), Ok("ARIB B67"));
    assert_eq!(print_transfer_characteristics(17), Err(Error::UnrecognizedValue));
    assert_eq!(print_x265_transfer_characteristics(16), Ok("smpte2084"));
    assert_eq!(print_x265_transfer_characteristics(18), Ok("arib-std-b67"));
    assert_eq!(print_rav1e_transfer_characteristics(16), Ok("SMPTE2084"));
    assert_eq!(print_rav1e_transfer_characteristics(10), Ok("Log100Sqrt10"));
    assert_eq!(print_rav1e_transfer_characteristics(18), Err(Error::UnsupportedByTarget));
    assert_eq!(print_rav1e_transfer_characteristics(12), Err(Error::UnrecognizedValue));
}

#[test]
fn primaries_dictionary() {
    assert_eq!(parse_color_primaries("BT.2020"), Ok(9));
    assert_eq!(parse_color_primaries("Film"), Ok(8));
    assert_eq!(parse_color_primaries("NTSC"), Ok(8));
    assert_eq!(parse_color_primaries("SMPTE 431.2"), Ok(11));
    assert_eq!(parse_color_primaries("EBU 3213 E"), Ok(22));
    assert_eq!(parse_color_primaries("Display P3"), Err(Error::UnrecognizedValue));
    assert_eq!(print_color_primaries(22), Ok("EBU 3213 E"));
    assert_eq!(print_color_primaries(0), Err(Error::UnrecognizedValue));
    assert_eq!(print_x265_color_primaries(9), Ok("bt2020"));
    assert_eq!(print_x265_color_primaries(22), Err(Error::UnsupportedByTarget));
    assert_eq!(print_x265_color_primaries(3), Err(Error::UnrecognizedValue));
    assert_eq!(print_rav1e_color_primaries(22), Ok("EBU3213"));
    assert_eq!(print_rav1e_color_primaries(10), Ok("XYZ"));
    assert_eq!(print_rav1e_color_primaries(8), Ok("GenericFilm"));
}

#[test]
fn every_name_reads_back_as_its_code() {
    for code in 0..=255u8 {
        if let Some(entry) = range_entry(code) {
            assert_eq!(parse_color_range(entry.label), Ok(code));
            assert_eq!(print_color_range(code), Ok(entry.label));
        } else {
            assert_eq!(print_color_range(code), Err(Error::UnrecognizedValue));
        }
        if let Some(entry) = matrix_entry(code) {
            assert_eq!(parse_matrix_coefficients(entry.label), Ok(code));
            assert_eq!(print_matrix_coefficients(code), Ok(entry.label));
            assert_eq!(
                print_x265_matrix_coefficients(code),
                entry.x265.ok_or(Error::UnsupportedByTarget)
            );
        } else {
            assert_eq!(print_matrix_coefficients(code), Err(Error::UnrecognizedValue));
        }
        if let Some(entry) = transfer_entry(code) {
            assert_eq!(parse_transfer_characteristics(entry.label), Ok(code));
            assert_eq!(
                print_rav1e_transfer_characteristics(code),
                entry.rav1e.ok_or(Error::UnsupportedByTarget)
            );
        } else {
            assert_eq!(print_transfer_characteristics(code), Err(Error::UnrecognizedValue));
        }
        if let Some(entry) = primaries_entry(code) {
            assert_eq!(parse_color_primaries(entry.label), Ok(code));
        } else {
            assert_eq!(print_color_primaries(code), Err(Error::UnrecognizedValue));
        }
    }
}

#[test]
fn chroma_location_tables() {
    assert_eq!(chroma_siting(ChromaLocation::Left), (1, 2));
    assert_eq!(chroma_siting(ChromaLocation::Center), (2, 2));
    assert_eq!(chroma_siting(ChromaLocation::TopLeft), (1, 1));
    assert_eq!(chroma_siting(ChromaLocation::Top), (2, 1));
    assert_eq!(chroma_siting(ChromaLocation::BottomLeft), (1, 0));
    assert_eq!(chroma_siting(ChromaLocation::Bottom), (2, 0));
    assert_eq!(print_chroma_location(ChromaLocation::TopLeft), "Top Left");
    assert_eq!(print_chroma_location(ChromaLocation::Bottom), "Bottom");
    assert_eq!(print_x265_chroma_location(ChromaLocation::Left), 0);
    assert_eq!(print_x265_chroma_location(ChromaLocation::Center), 1);
    assert_eq!(print_x265_chroma_location(ChromaLocation::TopLeft), 2);
    assert_eq!(print_x265_chroma_location(ChromaLocation::Top), 3);
    assert_eq!(print_x265_chroma_location(ChromaLocation::BottomLeft), 4);
    assert_eq!(print_x265_chroma_location(ChromaLocation::Bottom), 5);
    assert_eq!(print_svt_av1_chroma_location(ChromaLocation::Left), Ok("left"));
    assert_eq!(print_svt_av1_chroma_location(ChromaLocation::TopLeft), Ok("topleft"));
    assert_eq!(
        print_svt_av1_chroma_location(ChromaLocation::Center),
        Err(Error::UnsupportedByTarget)
    );
}
