use mp4_parser::boxes::ftyp::{Ftyp, HEADER_FTYP};
use mp4_parser::error::ParseError;
use mp4_parser::ftyp::FtypBox;

const BUFFER: &[u8] = &[
    0x00, 0x00, 0x00, 0x18, // Size field (4 bytes): 24 bytes total size
    0x66, 0x74, 0x79, 0x70, // Type field ("ftyp")
    0x69, 0x73, 0x6F, 0x6D, // Major Brand ("isom")
    0x00, 0x00, 0x00, 0x01, // Minor Version (1)
    0x6D, 0x70, 0x34, 0x32, // Compatible Brand ("mp42")
    0x69, 0x73, 0x6F, 0x6D, // Compatible Brand ("isom")
    0x00, 0x01, 0x02, 0x03, // Random data after the box
    0x00, 0x01, 0x02, 0x03, 0x00, 0x01, 0x02, 0x03,
];

#[test]
fn test_ftyp_from_buffer() {
    let ftyp = Ftyp::from_buffer(BUFFER).unwrap();

    // Verify the major brand is "isom"
    assert_eq!(ftyp.major_brand(), "isom");

    // Verify the minor version is 1
    assert_eq!(ftyp.minor_version(), 1);

    // Verify the compatible brands are "mp42" and "isom"
    let compatible_brands = ftyp.compatible_brands();
    assert_eq!(compatible_brands, vec!["mp42", "isom"]);
}

#[test]
fn test_ftyp_total_size() {
    let ftyp = Ftyp::from_buffer(BUFFER).unwrap();

    // Verify the total size
    assert_eq!(ftyp.header().size(), 24);
}

#[test]
fn ftyp_header_is_kept() {
    let ftyp = Ftyp::from_buffer(BUFFER).unwrap();
    assert_eq!(ftyp.header().box_type(), HEADER_FTYP);
    assert_eq!(ftyp.header().box_type(), "ftyp");
    assert_eq!(ftyp.header().extended_size(), None);
}

#[test]
fn ftyp_without_compatible_brands() {
    let buffer: Vec<u8> = vec![
        0, 0, 0, 16, b'f', b't', b'y', b'p', b'm', b'p', b'4', b'2', 0, 0, 2, 0, //
        b'i', b's', b'o', b'm',
    ];
    let ftyp = Ftyp::from_buffer(&buffer).unwrap();
    assert_eq!(ftyp.major_brand(), "mp42");
    assert_eq!(ftyp.minor_version(), 512);
    assert!(ftyp.compatible_brands().is_empty());
}

#[test]
fn ftyp_ignores_bytes_left_over_behind_the_last_whole_brand() {
    for extra in 1..4u8 {
        let mut buffer: Vec<u8> = vec![
            0, 0, 0, 24 + extra, b'f', b't', b'y', b'p', b'm', b'p', b'4', b'2', 0, 0, 0, 0, //
            b'm', b'p', b'4', b'1', b'a', b'v', b'c', b'1',
        ];
        buffer.extend_from_slice(&[0xFF; 3][..extra as usize]);
        let ftyp = Ftyp::from_buffer(&buffer).unwrap();
        assert_eq!(ftyp.compatible_brands(), vec!["mp41", "avc1"]);
    }
}

#[test]
fn ftyp_brands_stop_at_the_declared_length_not_at_the_end_of_the_buffer() {
    let buffer: Vec<u8> = vec![
        0, 0, 0, 20, b'f', b't', b'y', b'p', b'm', b'p', b'4', b'2', 0, 0, 0, 0, //
        b'm', b'p', b'4', b'1', b'a', b'v', b'c', b'1', b'i', b's', b'o', b'm',
    ];
    let ftyp = Ftyp::from_buffer(&buffer).unwrap();
    assert_eq!(ftyp.compatible_brands(), vec!["mp41"]);
}

#[test]
fn ftyp_four_brands_in_order() {
    let buffer: Vec<u8> = vec![
        0, 0, 0, 32, b'f', b't', b'y', b'p', b'm', b'p', b'4', b'2', 0, 0, 0, 0, //
        b'm', b'p', b'4', b'2', b'm', b'p', b'4', b'1', b'i', b's', b'o', b'm', b'a', b'v', b'c',
        b'1',
    ];
    let ftyp = Ftyp::from_buffer(&buffer).unwrap();
    assert_eq!(ftyp.major_brand(), "mp42");
    assert_eq!(ftyp.minor_version(), 0);
    assert_eq!(ftyp.compatible_brands(), vec!["mp42", "mp41", "isom", "avc1"]);
}

#[test]
fn ftyp_longer_than_the_buffer_is_truncated() {
    assert_eq!(Ftyp::from_buffer(&BUFFER[..23]).unwrap_err(), ParseError::TruncatedPayload);
    assert_eq!(Ftyp::from_buffer(&BUFFER[..16]).unwrap_err(), ParseError::TruncatedPayload);
    assert_eq!(Ftyp::from_buffer(&BUFFER[..8]).unwrap_err(), ParseError::TruncatedPayload);
    assert_eq!(Ftyp::from_buffer(&BUFFER[..7]).unwrap_err(), ParseError::BufferTooShort);
    assert!(Ftyp::from_buffer(&BUFFER[..24]).is_ok());
}

#[test]
fn ftyp_whose_fields_end_behind_the_buffer_is_truncated() {
    let buffer: Vec<u8> = vec![0, 0, 0, 12, b'f', b't', b'y', b'p', b'i', b's', b'o', b'm'];
    assert_eq!(Ftyp::from_buffer(&buffer).unwrap_err(), ParseError::TruncatedPayload);
}

#[test]
fn ftyp_with_a_brand_beyond_ascii_is_an_invalid_tag() {
    let mut buffer = BUFFER[..24].to_vec();
    buffer[8] = 0xC3;
    assert_eq!(Ftyp::from_buffer(&buffer).unwrap_err(), ParseError::InvalidTag);
    let mut buffer = BUFFER[..24].to_vec();
    buffer[23] = 0x80;
    assert_eq!(Ftyp::from_buffer(&buffer).unwrap_err(), ParseError::InvalidTag);
    // a byte beyond ASCII behind the declared length does no harm
    let mut buffer = BUFFER.to_vec();
    buffer[24] = 0x80;
    assert!(Ftyp::from_buffer(&buffer).is_ok());
}

#[test]
fn ftyp_with_an_extended_size() {
    let buffer: Vec<u8> = vec![
        0xFF, 0xFF, 0xFF, 0xFF, b'f', b't', b'y', b'p', 0, 0, 0, 0, 0, 0, 0, 28, //
        b'i', b's', b'o', b'm', 0, 0, 0, 7, b'm', b'p', b'4', b'2',
    ];
    let ftyp = Ftyp::from_buffer(&buffer).unwrap();
    assert_eq!(ftyp.header().total_size(), 16);
    assert_eq!(ftyp.header().box_size(), 28);
    assert_eq!(ftyp.major_brand(), "isom");
    assert_eq!(ftyp.minor_version(), 7);
    assert_eq!(ftyp.compatible_brands(), vec!["mp42"]);
}

#[test]
fn ftyp_box_at_an_offset() {
    let mut buffer: Vec<u8> = vec![0xEE; 5];
    buffer.extend_from_slice(BUFFER);
    let ftyp = FtypBox::from_buffer(5, &buffer).unwrap();
    assert_eq!(ftyp.major_brand(), "isom");
    assert_eq!(ftyp.minor_version(), 1);
    assert_eq!(ftyp.compatible_brands(), vec!["mp42", "isom"]);
    assert_eq!(ftyp.get_end_range(5), 29);
}

#[test]
fn ftyp_box_refuses_another_type() {
    let mut buffer = BUFFER.to_vec();
    buffer[4..8].copy_from_slice(b"moov");
    assert_eq!(FtypBox::from_buffer(0, &buffer).unwrap_err(), ParseError::UnexpectedType);
    // the type is looked at before the length
    assert_eq!(FtypBox::from_buffer(0, &buffer[..20]).unwrap_err(), ParseError::UnexpectedType);
    assert_eq!(FtypBox::from_buffer(0, &BUFFER[..20]).unwrap_err(), ParseError::TruncatedPayload);
}

#[test]
fn ftyp_box_at_or_behind_the_end() {
    assert_eq!(FtypBox::from_buffer(36, BUFFER).unwrap_err(), ParseError::BufferTooShort);
    assert_eq!(FtypBox::from_buffer(37, BUFFER).unwrap_err(), ParseError::BufferTooShort);
    assert_eq!(FtypBox::from_buffer(usize::MAX, BUFFER).unwrap_err(), ParseError::BufferTooShort);
}
