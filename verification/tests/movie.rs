use mp4_parser::boxes::media::MediaBox;
use mp4_parser::boxes::media_information::MediaInformationBox;
use mp4_parser::boxes::moov::{MovieBox, HEADER_MOOV};
use mp4_parser::boxes::movie_header::{MovieHeaderBox, MOVIE_HEADER_FIELDS};
use mp4_parser::boxes::track::TrackBox;
use mp4_parser::error::ParseError;
use mp4_parser::fixed::{Fixed16x16, Fixed8x8};
use mp4_parser::mp4::MP4;
use mp4_parser::MP4Parser;

fn boxed(tag: &[u8; 4], payload: &[u8]) -> Vec<u8> {
    let mut buffer = (8 + payload.len() as u32).to_be_bytes().to_vec();
    buffer.extend_from_slice(tag);
    buffer.extend_from_slice(payload);
    buffer
}

fn words(values: &[u32]) -> Vec<u8> {
    values.iter().flat_map(|value| value.to_be_bytes()).collect()
}

fn stbl() -> Vec<u8> {
    let children = [
        boxed(b"stsd", &words(&[1, 0xAABB_CCDD])),
        boxed(b"stts", &words(&[2, 10, 100, 5, 200])),
        boxed(b"stsc", &words(&[1, 1, 15, 1])),
        boxed(b"stsz", &words(&[3, 1024, 512, 256])),
        boxed(b"stco", &words(&[2, 32, 64])),
    ];
    boxed(b"stbl", &children.concat())
}

fn minf() -> Vec<u8> {
    boxed(b"minf", &stbl())
}

fn mdhd(timescale: u32) -> Vec<u8> {
    let mut payload = words(&[0, 1, 2, timescale, 9000]);
    payload.extend_from_slice(&[0x6E, 0x61]);
    boxed(b"mdhd", &payload)
}

fn hdlr(kind: &[u8; 4], name: &str) -> Vec<u8> {
    let mut payload = vec![0u8; 4];
    payload.extend_from_slice(kind);
    payload.extend_from_slice(&[0; 12]);
    payload.extend_from_slice(name.as_bytes());
    payload.push(0);
    boxed(b"hdlr", &payload)
}

fn mdia(kind: &[u8; 4], name: &str) -> Vec<u8> {
    boxed(b"mdia", &[mdhd(48_000), hdlr(kind, name), minf()].concat())
}

fn tkhd(track_id: u32, duration: u32) -> Vec<u8> {
    let mut payload = vec![0u8; 84];
    payload[3] = 7;
    payload[12..16].copy_from_slice(&track_id.to_be_bytes());
    payload[20..24].copy_from_slice(&duration.to_be_bytes());
    payload[36..38].copy_from_slice(&0x0100u16.to_be_bytes());
    payload[76..80].copy_from_slice(&(1280u32 << 16).to_be_bytes());
    payload[80..84].copy_from_slice(&(720u32 << 16).to_be_bytes());
    boxed(b"tkhd", &payload)
}

fn trak(track_id: u32, kind: &[u8; 4], name: &str) -> Vec<u8> {
    boxed(b"trak", &[tkhd(track_id, 1000 * track_id), mdia(kind, name)].concat())
}

fn mvhd() -> Vec<u8> {
    let mut payload = words(&[0, 11, 12, 600, 6000, 0x0001_4000]);
    payload.extend_from_slice(&[0x01, 0x80]);
    payload.extend_from_slice(&[1, 2, 3, 4, 5, 6, 7, 8, 9, 10]);
    payload.extend_from_slice(&words(&[
        0x0001_0000,
        0,
        0,
        0,
        0x0001_0000,
        0,
        0,
        0,
        0x4000_0000,
    ]));
    payload.extend_from_slice(&words(&[3]));
    boxed(b"mvhd", &payload)
}

fn moov(tracks: &[Vec<u8>]) -> Vec<u8> {
    boxed(b"moov", &[mvhd(), tracks.concat()].concat())
}

fn two_tracks() -> Vec<Vec<u8>> {
    vec![trak(2, b"vide", "Picture"), trak(1, b"soun", "Sound")]
}

fn ftyp() -> Vec<u8> {
    boxed(b"ftyp", b"mp42\0\0\0\0mp42mp41isomavc1")
}

fn value_16x16(fixed: Fixed16x16) -> f32 {
    fixed.integer_part() as f32 + fixed.fraction_part() as f32 / 65536.0
}

fn value_8x8(fixed: Fixed8x8) -> f32 {
    fixed.integer_part() as f32 + fixed.fraction_part() as f32 / 256.0
}

#[test]
fn movie_header_fields_each_at_their_place() {
    let buffer = mvhd();
    assert_eq!(buffer.len(), 84);
    let header = MovieHeaderBox::from_buffer(&buffer).unwrap();
    assert_eq!(header.get_header().size(), 84);
    assert_eq!(header.get_header().box_type(), "mvhd");
    assert_eq!(header.get_version(), 0);
    assert_eq!(header.get_flags(), &[0, 0, 0]);
    assert_eq!(header.get_creation_time(), 11);
    assert_eq!(header.get_modification_time(), 12);
    assert_eq!(header.get_timescale(), 600);
    assert_eq!(header.get_duration(), 6000);
    assert_eq!(header.get_rate(), Fixed16x16 { raw: 0x0001_4000 });
    assert_eq!(value_16x16(header.get_rate()), 1.25);
    assert_eq!(header.get_volume(), Fixed8x8 { raw: 0x0180 });
    assert_eq!(value_8x8(header.get_volume()), 1.5);
    assert_eq!(header.get_reserved(), &[1, 2, 3, 4, 5, 6, 7, 8, 9, 10]);
    assert_eq!(
        header.get_matrix(),
        &[0x0001_0000, 0, 0, 0, 0x0001_0000, 0, 0, 0, 0x4000_0000]
    );
    assert_eq!(header.get_next_track_id(), 3);
    assert_eq!(header.total_size(), 84);
    assert_eq!(header.get_end_range(16), 100);
    assert_eq!(MOVIE_HEADER_FIELDS, 76);
}

#[test]
fn movie_header_whose_fields_end_behind_the_buffer_is_truncated() {
    let mut buffer = mvhd();
    assert_eq!(
        MovieHeaderBox::from_buffer(&buffer[..83]).unwrap_err(),
        ParseError::TruncatedPayload
    );
    buffer[3] = 20;
    assert_eq!(
        MovieHeaderBox::from_buffer(&buffer[..83]).unwrap_err(),
        ParseError::TruncatedPayload
    );
    assert!(MovieHeaderBox::from_buffer(&buffer).is_ok());
}

#[test]
fn media_information_wraps_the_sample_table() {
    let buffer = minf();
    let minf = MediaInformationBox::from_buffer(&buffer).unwrap();
    assert_eq!(minf.header().box_type(), "minf");
    assert_eq!(minf.header().box_size(), buffer.len() as u64);
    assert_eq!(minf.get_stbl().get_header().box_type(), "stbl");
    assert_eq!(minf.get_stbl().get_header().box_size(), buffer.len() as u64 - 8);
    assert_eq!(minf.get_stbl().get_sample_size().get_sample_sizes(), &[1024, 512, 256][..]);
}

#[test]
fn media_information_that_declares_more_than_the_buffer_holds_is_truncated() {
    let mut buffer = minf();
    buffer[3] += 23;
    assert_eq!(
        MediaInformationBox::from_buffer(&buffer).unwrap_err(),
        ParseError::TruncatedPayload
    );
}

#[test]
fn media_information_of_eight_bytes_has_no_room_for_a_sample_table() {
    let buffer: &[u8] = &[0x00, 0x00, 0x00, 0x08, 0x6D, 0x69, 0x6E, 0x66];
    assert_eq!(
        MediaInformationBox::from_buffer(buffer).unwrap_err(),
        ParseError::BufferTooShort
    );
    let mut longer = buffer.to_vec();
    longer.extend_from_slice(&stbl());
    assert_eq!(MediaInformationBox::from_buffer(&longer).unwrap_err(), ParseError::Overrun);
}

#[test]
fn media_information_with_a_child_that_is_no_room_for_is_refused() {
    let buffer: &[u8] = &[
        0x00, 0x00, 0x00, 0x12, 0x6D, 0x69, 0x6E, 0x66, // "minf", 18 bytes
        0x00, 0x00, 0x00, 0x06, 0x73, 0x74, 0x62, 0x6C, 0x00, 0x00, // "stbl", 6 bytes
    ];
    assert_eq!(MediaInformationBox::from_buffer(buffer).unwrap_err(), ParseError::Overrun);
}

#[test]
fn media_box_holds_its_three_children_in_order() {
    let buffer = mdia(b"vide", "Test Handler");
    let media = MediaBox::from_buffer(&buffer).unwrap();
    assert_eq!(media.get_header().box_type(), "mdia");
    assert_eq!(media.get_mdhd().header().box_type(), "mdhd");
    assert_eq!(media.get_mdhd().get_timescale(), 48_000);
    assert_eq!(media.get_mdhd().get_duration(), 9000);
    assert_eq!(media.get_mdhd().get_language(), "eng");
    assert_eq!(media.get_hdlr().header().box_type(), "hdlr");
    assert_eq!(media.get_hdlr().handler_type(), b"vide");
    assert_eq!(media.get_hdlr().name(), "Test Handler");
    assert_eq!(media.get_minf().header().box_type(), "minf");
    assert_eq!(media.get_minf().get_stbl().get_chunk_offset().chunk_offsets(), &vec![32, 64]);
    let children = media.get_mdhd().header().box_size()
        + media.get_hdlr().header().box_size()
        + media.get_minf().header().box_size();
    assert_eq!(8 + children, media.get_header().box_size());
}

#[test]
fn media_box_with_a_size_field_beyond_the_buffer_is_truncated() {
    let mut buffer = mdia(b"vide", "Test Handler");
    buffer[0..4].copy_from_slice(&[0x49, 0x02, 0x00, 0x00]);
    assert_eq!(MediaBox::from_buffer(&buffer).unwrap_err(), ParseError::TruncatedPayload);
}

#[test]
fn media_box_children_out_of_order_are_refused() {
    let buffer = boxed(b"mdia", &[hdlr(b"vide", "x"), mdhd(1), minf()].concat());
    assert_eq!(MediaBox::from_buffer(&buffer).unwrap_err(), ParseError::UnexpectedType);
    let buffer = boxed(b"mdia", &[mdhd(1), minf(), hdlr(b"vide", "x")].concat());
    assert_eq!(MediaBox::from_buffer(&buffer).unwrap_err(), ParseError::UnexpectedType);
}

#[test]
fn handler_name_without_a_zero_byte_runs_on_into_the_next_box() {
    let mut handler = hdlr(b"vide", "Name");
    handler.pop();
    handler[3] -= 1;
    let buffer = boxed(b"mdia", &[mdhd(1), handler, minf()].concat());
    let media = MediaBox::from_buffer(&buffer).unwrap();
    // the size field of the box behind it begins with zero bytes
    assert_eq!(media.get_hdlr().name(), "Name");
    assert_eq!(media.get_minf().header().box_type(), "minf");
}

#[test]
fn track_box_holds_header_and_media() {
    let buffer = trak(42, b"soun", "Sound");
    let track = TrackBox::from_buffer(&buffer).unwrap();
    assert_eq!(track.header().box_type(), "trak");
    assert_eq!(track.header().box_size(), buffer.len() as u64);
    assert_eq!(track.track_header().get_header().box_type(), "tkhd");
    assert_eq!(track.track_id(), 42);
    assert_eq!(track.duration(), 42_000);
    assert_eq!(track.track_header().get_flags(), &[0, 0, 7]);
    assert_eq!(value_16x16(track.track_header().get_width()), 1280.0);
    assert_eq!(value_16x16(track.track_header().get_height()), 720.0);
    assert_eq!(value_8x8(track.track_header().get_volume()), 1.0);
    assert_eq!(track.media().get_hdlr().handler_type(), b"soun");
    assert_eq!(track.media().get_hdlr().name(), "Sound");
    assert_eq!(track.total_size(), buffer.len());
    assert_eq!(track.get_end_range(0), buffer.len() - 1);
    assert_eq!(track.get_end_range(100), 100 + buffer.len() - 1);
}

#[test]
fn track_box_total_size_counts_what_the_children_declare() {
    let mut buffer = trak(1, b"vide", "x");
    buffer.extend_from_slice(&[0xEE; 5]);
    buffer[3] += 5;
    let track = TrackBox::from_buffer(&buffer).unwrap();
    assert_eq!(track.header().box_size(), buffer.len() as u64);
    assert_eq!(track.total_size(), buffer.len() - 5);
    assert_eq!(
        track.total_size() as u64,
        8 + track.track_header().get_header().box_size() + track.media().get_header().box_size()
    );
}

#[test]
fn track_box_without_media_is_refused() {
    let buffer = boxed(b"trak", &tkhd(1, 1));
    assert_eq!(TrackBox::from_buffer(&buffer).unwrap_err(), ParseError::BufferTooShort);
    let buffer = boxed(b"trak", &[tkhd(1, 1), tkhd(2, 2)].concat());
    assert_eq!(TrackBox::from_buffer(&buffer).unwrap_err(), ParseError::UnexpectedType);
}

#[test]
fn movie_box_holds_its_tracks_in_file_order() {
    let buffer = moov(&two_tracks());
    let movie = MovieBox::from_buffer(&buffer).unwrap();
    assert_eq!(movie.header().box_type(), HEADER_MOOV);
    assert_eq!(movie.header().box_type(), "moov");
    assert_eq!(movie.movie_header().get_timescale(), 600);
    assert_eq!(movie.movie_header().get_next_track_id(), 3);
    assert_eq!(movie.track_count(), 2);
    assert_eq!(movie.tracks().len(), 2);
    assert_eq!(movie.tracks()[0].track_id(), 2);
    assert_eq!(movie.tracks()[0].media().get_hdlr().name(), "Picture");
    assert_eq!(movie.tracks()[1].track_id(), 1);
    assert_eq!(movie.tracks()[1].media().get_hdlr().name(), "Sound");
}

#[test]
fn movie_box_sizes_add_up_exactly() {
    for count in 0..4 {
        let tracks: Vec<Vec<u8>> = (0..count).map(|i| trak(i, b"vide", "track")).collect();
        let buffer = moov(&tracks);
        let movie = MovieBox::from_buffer(&buffer).unwrap();
        assert_eq!(movie.track_count(), count as usize);
        let children: u64 = movie.movie_header().get_header().box_size()
            + movie.tracks().iter().map(|track| track.header().box_size()).sum::<u64>();
        assert_eq!(movie.header().total_size() as u64 + children, movie.header().box_size());
        assert_eq!(movie.header().box_size(), buffer.len() as u64);
    }
}

fn boxed_wide(tag: &[u8; 4], payload: &[u8]) -> Vec<u8> {
    let mut buffer = vec![0xFF, 0xFF, 0xFF, 0xFF];
    buffer.extend_from_slice(tag);
    buffer.extend_from_slice(&(16 + payload.len() as u64).to_be_bytes());
    buffer.extend_from_slice(payload);
    buffer
}

#[test]
fn boxes_with_extended_sizes_chain_like_the_others() {
    let table = boxed_wide(
        b"stbl",
        &[
            boxed(b"stsd", &words(&[1])),
            boxed_wide(b"stts", &words(&[1, 10, 100])),
            boxed(b"stsc", &words(&[0])),
            boxed_wide(b"stsz", &words(&[2, 7, 8])),
            boxed_wide(b"stco", &words(&[1, 4096])),
        ]
        .concat(),
    );
    let media = boxed(
        b"mdia",
        &[mdhd(1000), hdlr(b"vide", "wide"), boxed_wide(b"minf", &table)].concat(),
    );
    let track = boxed_wide(b"trak", &[tkhd(5, 50), media].concat());
    let buffer = boxed_wide(b"moov", &[mvhd(), track, trak(6, b"soun", "plain")].concat());
    let movie = MovieBox::from_buffer(&buffer).unwrap();
    assert_eq!(movie.header().size(), 0xFFFF_FFFF);
    assert_eq!(movie.header().box_size(), buffer.len() as u64);
    assert_eq!(movie.header().total_size(), 16);
    assert_eq!(movie.track_count(), 2);
    let wide = &movie.tracks()[0];
    assert_eq!(wide.track_id(), 5);
    assert_eq!(wide.header().total_size(), 16);
    let table = wide.media().get_minf().get_stbl();
    assert_eq!(table.get_header().total_size(), 16);
    assert_eq!(table.get_time_to_sample().get_entries(), &[(10, 100)][..]);
    assert_eq!(table.get_sample_size().get_sample_sizes(), &[7, 8][..]);
    assert_eq!(table.get_chunk_offset().chunk_offsets(), &vec![4096]);
    assert_eq!(
        wide.total_size() as u64,
        16 + wide.track_header().get_header().box_size() + wide.media().get_header().box_size()
    );
    assert_eq!(wide.total_size() as u64, wide.header().box_size());
    assert_eq!(movie.tracks()[1].track_id(), 6);
    let children: u64 = movie.movie_header().get_header().box_size()
        + movie.tracks().iter().map(|track| track.header().box_size()).sum::<u64>();
    assert_eq!(16 + children, movie.header().box_size());

    let mp4 = MP4Parser::from_buf(&[boxed_wide(b"free", &[1, 2, 3]), buffer].concat()).unwrap();
    assert_eq!(mp4.moov.unwrap().track_count(), 2);
}

#[test]
fn movie_box_without_tracks() {
    let buffer = moov(&[]);
    let movie = MovieBox::from_buffer(&buffer).unwrap();
    assert_eq!(movie.track_count(), 0);
    assert!(movie.tracks().is_empty());
}

#[test]
fn movie_box_ignores_what_lies_behind_its_declared_length() {
    let mut buffer = moov(&two_tracks());
    buffer.extend_from_slice(&trak(9, b"vide", "behind"));
    let movie = MovieBox::from_buffer(&buffer).unwrap();
    assert_eq!(movie.track_count(), 2);
}

#[test]
fn track_that_reaches_past_the_end_of_the_movie_overruns() {
    let mut buffer = moov(&two_tracks());
    buffer[3] -= 1;
    assert_eq!(MovieBox::from_buffer(&buffer).unwrap_err(), ParseError::Overrun);
    // eight bytes are left in the movie box, and the track there declares nine
    let mut buffer = moov(&two_tracks());
    let declared = buffer.len() as u32 + 8;
    buffer[0..4].copy_from_slice(&declared.to_be_bytes());
    buffer.extend_from_slice(&[0, 0, 0, 9, b't', b'r', b'a', b'k', 0]);
    assert_eq!(
        MovieBox::from_buffer(&buffer[..buffer.len() - 1]).unwrap_err(),
        ParseError::Overrun
    );
    assert_eq!(MovieBox::from_buffer(&buffer).unwrap_err(), ParseError::Overrun);
    // a track that declares no more than its header has no room for children
    buffer[declared as usize - 5] = 8;
    assert_eq!(MovieBox::from_buffer(&buffer).unwrap_err(), ParseError::BufferTooShort);
}

#[test]
fn movie_box_with_bytes_left_that_are_no_track_is_refused() {
    let mut buffer = moov(&two_tracks());
    let declared = buffer.len() as u32 + 16;
    buffer[0..4].copy_from_slice(&declared.to_be_bytes());
    buffer.extend_from_slice(&boxed(b"udta", &[0; 8]));
    assert_eq!(MovieBox::from_buffer(&buffer).unwrap_err(), ParseError::UnexpectedType);
    let mut buffer = moov(&two_tracks());
    let declared = buffer.len() as u32 + 4;
    buffer[0..4].copy_from_slice(&declared.to_be_bytes());
    buffer.extend_from_slice(&[0; 4]);
    assert_eq!(MovieBox::from_buffer(&buffer).unwrap_err(), ParseError::BufferTooShort);
}

#[test]
fn movie_box_longer_than_the_buffer_is_truncated() {
    let buffer = moov(&two_tracks());
    for len in 8..buffer.len() {
        assert_eq!(
            MovieBox::from_buffer(&buffer[..len]).unwrap_err(),
            ParseError::TruncatedPayload
        );
    }
}

#[test]
fn failure_deep_inside_fails_the_movie() {
    let mut buffer = moov(&two_tracks());
    let last = buffer.len() - 1;
    // the type of the very last box, the chunk offset box of the second track
    buffer[last - 15] = 0xFF;
    assert_eq!(MovieBox::from_buffer(&buffer).unwrap_err(), ParseError::InvalidTag);
    buffer[last - 15] = b'x';
    assert_eq!(MovieBox::from_buffer(&buffer).unwrap_err(), ParseError::UnexpectedType);
}

fn file() -> Vec<u8> {
    [ftyp(), boxed(b"free", &[0xEE; 11]), moov(&two_tracks())].concat()
}

#[test]
fn file_with_a_box_of_unknown_type_between_file_type_and_movie() {
    let mp4 = MP4Parser::from_buf(&file()).unwrap();
    let ftyp = mp4.ftyp.unwrap();
    assert_eq!(ftyp.major_brand(), "mp42");
    assert_eq!(ftyp.minor_version(), 0);
    assert_eq!(ftyp.compatible_brands(), vec!["mp42", "mp41", "isom", "avc1"]);
    let moov = mp4.moov.unwrap();
    assert_eq!(moov.track_count(), 2);
    assert_eq!(moov.tracks()[0].track_id(), 2);
    assert_eq!(moov.movie_header().get_duration(), 6000);
}

#[test]
fn unknown_box_is_passed_over_by_exactly_its_declared_length() {
    for filler in [0usize, 1, 7, 8, 100, 1000] {
        let unknown = boxed(b"mdat", &vec![0x66; filler]);
        let buffer = [ftyp(), unknown, moov(&two_tracks())].concat();
        let mp4 = MP4Parser::from_buf(&buffer).unwrap();
        assert!(mp4.ftyp.is_some());
        assert_eq!(mp4.moov.unwrap().track_count(), 2);
    }
    // a declared length that is one too long or one too short lands
    // beside the movie box
    let mut unknown = boxed(b"mdat", &[0x66; 20]);
    unknown[3] += 1;
    let buffer = [ftyp(), unknown.clone(), moov(&two_tracks())].concat();
    assert!(MP4Parser::from_buf(&buffer).is_err());
    unknown[3] -= 2;
    let buffer = [ftyp(), unknown, moov(&two_tracks())].concat();
    assert!(!matches!(MP4Parser::from_buf(&buffer), Ok(MP4 { moov: Some(_), .. })));
}

#[test]
fn unknown_box_with_an_extended_size_is_passed_over() {
    let mut unknown: Vec<u8> = vec![0xFF, 0xFF, 0xFF, 0xFF];
    unknown.extend_from_slice(b"mdat");
    unknown.extend_from_slice(&30u64.to_be_bytes());
    unknown.extend_from_slice(&[0x66; 14]);
    let buffer = [ftyp(), unknown, moov(&two_tracks())].concat();
    let mp4 = MP4Parser::from_buf(&buffer).unwrap();
    assert!(mp4.ftyp.is_some());
    assert_eq!(mp4.moov.unwrap().track_count(), 2);
}

#[test]
fn empty_buffer_holds_no_box() {
    let mp4 = MP4Parser::from_buf(&[]).unwrap();
    assert!(mp4.ftyp.is_none());
    assert!(mp4.moov.is_none());
}

#[test]
fn file_type_without_movie_is_a_file_like_any_other() {
    let mp4 = MP4Parser::from_buf(&ftyp()).unwrap();
    assert_eq!(mp4.ftyp.unwrap().major_brand(), "mp42");
    assert!(mp4.moov.is_none());
    let mp4 = MP4Parser::from_buf(&moov(&two_tracks())).unwrap();
    assert!(mp4.ftyp.is_none());
    assert_eq!(mp4.moov.unwrap().track_count(), 2);
    let mp4 = MP4Parser::from_buf(&boxed(b"free", &[1, 2, 3])).unwrap();
    assert!(mp4.ftyp.is_none());
    assert!(mp4.moov.is_none());
}

#[test]
fn fewer_than_eight_bytes_at_the_end_are_the_end() {
    for extra in 1..8 {
        let mut buffer = file();
        buffer.extend_from_slice(&vec![0xFF; extra]);
        let mp4 = MP4Parser::from_buf(&buffer).unwrap();
        assert!(mp4.ftyp.is_some());
        assert!(mp4.moov.is_some());
    }
    // so are fewer than sixteen where the size field announces a 64-bit size
    let mut buffer = file();
    buffer.extend_from_slice(&[0xFF, 0xFF, 0xFF, 0xFF, b'm', b'd', b'a', b't', 0, 0, 0]);
    let mp4 = MP4Parser::from_buf(&buffer).unwrap();
    assert!(mp4.moov.is_some());
}

#[test]
fn later_box_takes_the_place_of_an_earlier_one_of_its_kind() {
    let other = boxed(b"ftyp", b"isom\0\0\0\x05");
    let buffer = [ftyp(), moov(&two_tracks()), other, moov(&[])].concat();
    let mp4 = MP4Parser::from_buf(&buffer).unwrap();
    let ftyp = mp4.ftyp.unwrap();
    assert_eq!(ftyp.major_brand(), "isom");
    assert_eq!(ftyp.minor_version(), 5);
    assert!(ftyp.compatible_brands().is_empty());
    assert_eq!(mp4.moov.unwrap().track_count(), 0);
}

#[test]
fn unknown_box_that_declares_more_than_is_left_fails_the_file() {
    let mut buffer = file();
    buffer.extend_from_slice(&[0, 0, 0, 9, b'f', b'r', b'e', b'e']);
    assert_eq!(MP4Parser::from_buf(&buffer).unwrap_err(), ParseError::TruncatedPayload);
}

#[test]
fn box_that_declares_less_than_its_header_fails_the_file() {
    for declared in 0..8 {
        let mut buffer = file();
        buffer.extend_from_slice(&[0, 0, 0, declared, b'f', b'r', b'e', b'e']);
        assert_eq!(MP4Parser::from_buf(&buffer).unwrap_err(), ParseError::Overrun);
    }
}

#[test]
fn type_beyond_ascii_fails_the_file() {
    let mut buffer = file();
    buffer.extend_from_slice(&[0, 0, 0, 8, 0xA9, b'n', b'a', b'm']);
    assert_eq!(MP4Parser::from_buf(&buffer).unwrap_err(), ParseError::InvalidTag);
}

#[test]
fn file_cut_anywhere_inside_a_box_fails_or_ends_cleanly() {
    let whole = file();
    let first = ftyp().len();
    let second = first + 19;
    for len in 0..whole.len() {
        let outcome = MP4Parser::from_buf(&whole[..len]);
        let at_a_boundary = len == 0 || len == first || len == second;
        let in_a_header = len < 8
            || (first < len && len < first + 8)
            || (second < len && len < second + 8);
        if at_a_boundary || in_a_header {
            let mp4 = outcome.unwrap();
            assert_eq!(mp4.ftyp.is_some(), len >= first);
            assert!(mp4.moov.is_none());
        } else {
            assert_eq!(outcome.unwrap_err(), ParseError::TruncatedPayload);
        }
    }
}

#[test]
fn failure_in_the_movie_leaves_no_partial_result() {
    let mut buffer = file();
    let last = buffer.len() - 1;
    buffer[last - 15] = b'x';
    assert_eq!(MP4Parser::from_buf(&buffer).unwrap_err(), ParseError::UnexpectedType);
}

#[test]
fn decoding_twice_gives_the_same_tree() {
    let buffer = file();
    let first = MP4Parser::from_buf(&buffer).unwrap();
    let second = MP4Parser::from_buf(&buffer).unwrap();
    assert_eq!(format!("{:?}", first), format!("{:?}", second));
    let broken = &buffer[..buffer.len() - 3];
    assert_eq!(
        MP4Parser::from_buf(broken).unwrap_err(),
        MP4Parser::from_buf(broken).unwrap_err()
    );
}

#[test]
fn result_made_by_hand() {
    let ftyp = mp4_parser::boxes::ftyp::Ftyp::from_buffer(&ftyp()).unwrap();
    let moov = MovieBox::from_buffer(&moov(&two_tracks())).unwrap();
    let mp4 = MP4::new(ftyp, moov);
    assert_eq!(mp4.ftyp.unwrap().major_brand(), "mp42");
    assert_eq!(mp4.moov.unwrap().track_count(), 2);
    let empty = MP4::default();
    assert!(empty.ftyp.is_none());
    assert!(empty.moov.is_none());
}
