//! What holds of every decode, stated over the decoders' specifications
//! and proved from them.
use crate::boxes::chunk_offset::ChunkOffsetView;
use crate::boxes::ftyp::FtypView;
use crate::boxes::handler::HandlerView;
use crate::boxes::header::{BoxHeaderView, EXTENDED_SIZE_MARK};
use crate::boxes::media::MediaView;
use crate::boxes::media_header::MediaHeaderView;
use crate::boxes::media_information::MediaInformationView;
use crate::boxes::moov::{tracks_size, MovieView};
use crate::boxes::movie_header::MovieHeaderView;
use crate::boxes::sample_description::SampleDescriptionView;
use crate::boxes::sample_size::SampleSizeView;
use crate::boxes::sample_table::SampleTableView;
use crate::boxes::sample_to_chunk::SampleToChunkView;
use crate::boxes::time_to_sample::TimeToSampleView;
use crate::boxes::track::TrackView;
use crate::boxes::track_header::TrackHeaderView;
use crate::boxes::{FTYP, MOOV, MVHD, TRAK};
use crate::bytes::{be_u32, be_u64};
use crate::error::{view_of, ParseError};
use crate::mp4::{MP4View, MP4};
use crate::MP4Parser;
use vstd::prelude::*;

verus! {

/// A header whose size field holds the sentinel occupies sixteen bytes,
/// and the length of its box is the 64-bit size behind the type, not the
/// sentinel: the box is accepted exactly when that size covers the header
/// and lies inside the buffer.
pub proof fn lemma_extended_size_governs(bytes: Seq<u8>)
    requires
        BoxHeaderView::decode(bytes) is Ok,
        be_u32(bytes, 0) == EXTENDED_SIZE_MARK,
    ensures
        ({
            let header = BoxHeaderView::decode(bytes)->Ok_0;
            let declared = be_u64(bytes, 8);
            &&& header.wf()
            &&& header.header_len() == 16
            &&& header.extended_size == Some(declared)
            &&& header.box_size() == declared
            &&& BoxHeaderView::decode_box(bytes) is Ok <==> 16 <= declared <= bytes.len()
            &&& declared > bytes.len() ==> BoxHeaderView::decode_box(bytes) == Err::<
                BoxHeaderView,
                ParseError,
            >(ParseError::TruncatedPayload)
        }),
{
}

/// A header without the sentinel occupies eight bytes, and the length of
/// its box is the size field.
pub proof fn lemma_plain_size_governs(bytes: Seq<u8>)
    requires
        BoxHeaderView::decode(bytes) is Ok,
        be_u32(bytes, 0) != EXTENDED_SIZE_MARK,
    ensures
        ({
            let header = BoxHeaderView::decode(bytes)->Ok_0;
            &&& header.wf()
            &&& header.header_len() == 8
            &&& header.extended_size is None
            &&& header.box_size() == be_u32(bytes, 0)
        }),
{
}

/// No decoder accepts a box that declares itself longer than the buffer
/// that holds it: each one fails with `TruncatedPayload`.
pub proof fn lemma_truncated_box_is_rejected(bytes: Seq<u8>)
    requires
        BoxHeaderView::decode(bytes) is Ok,
        BoxHeaderView::decode(bytes)->Ok_0.box_size() > bytes.len(),
    ensures
        BoxHeaderView::decode_box(bytes) == Err::<BoxHeaderView, ParseError>(
            ParseError::TruncatedPayload,
        ),
        FtypView::decode(bytes) == Err::<FtypView, ParseError>(ParseError::TruncatedPayload),
        MovieHeaderView::decode(bytes) == Err::<MovieHeaderView, ParseError>(
            ParseError::TruncatedPayload,
        ),
        TrackHeaderView::decode(bytes) == Err::<TrackHeaderView, ParseError>(
            ParseError::TruncatedPayload,
        ),
        MediaHeaderView::decode(bytes) == Err::<MediaHeaderView, ParseError>(
            ParseError::TruncatedPayload,
        ),
        HandlerView::decode(bytes) == Err::<HandlerView, ParseError>(ParseError::TruncatedPayload),
        SampleDescriptionView::decode(bytes) == Err::<SampleDescriptionView, ParseError>(
            ParseError::TruncatedPayload,
        ),
        TimeToSampleView::decode(bytes) == Err::<TimeToSampleView, ParseError>(
            ParseError::TruncatedPayload,
        ),
        SampleToChunkView::decode(bytes) == Err::<SampleToChunkView, ParseError>(
            ParseError::TruncatedPayload,
        ),
        SampleSizeView::decode(bytes) == Err::<SampleSizeView, ParseError>(
            ParseError::TruncatedPayload,
        ),
        ChunkOffsetView::decode(bytes) == Err::<ChunkOffsetView, ParseError>(
            ParseError::TruncatedPayload,
        ),
        SampleTableView::decode(bytes) == Err::<SampleTableView, ParseError>(
            ParseError::TruncatedPayload,
        ),
        MediaInformationView::decode(bytes) == Err::<MediaInformationView, ParseError>(
            ParseError::TruncatedPayload,
        ),
        MediaView::decode(bytes) == Err::<MediaView, ParseError>(ParseError::TruncatedPayload),
        TrackView::decode(bytes) == Err::<TrackView, ParseError>(ParseError::TruncatedPayload),
        MovieView::decode(bytes) == Err::<MovieView, ParseError>(ParseError::TruncatedPayload),
{
    reveal(SampleTableView::decode);
    reveal(MediaInformationView::decode);
    reveal(MediaView::decode);
    reveal(TrackView::decode);
    reveal(MovieView::decode);
}

/// Whether a box with this header covers its own header and lies wholly
/// inside `bytes`.
pub open spec fn lies_within(header: BoxHeaderView, bytes: Seq<u8>) -> bool {
    header.header_len() <= header.box_size() <= bytes.len()
}

/// Whatever a decoder accepts lies wholly inside the buffer it was given:
/// a buffer shorter than the length that its box declares is never
/// decoded.
pub proof fn lemma_decoded_box_lies_in_its_buffer(bytes: Seq<u8>)
    ensures
        BoxHeaderView::decode_box(bytes) matches Ok(header) ==> lies_within(header, bytes),
        FtypView::decode(bytes) matches Ok(decoded) ==> lies_within(decoded.header, bytes),
        MovieHeaderView::decode(bytes) matches Ok(decoded) ==> lies_within(decoded.header, bytes),
        TrackHeaderView::decode(bytes) matches Ok(decoded) ==> lies_within(decoded.header, bytes),
        MediaHeaderView::decode(bytes) matches Ok(decoded) ==> lies_within(decoded.header, bytes),
        HandlerView::decode(bytes) matches Ok(decoded) ==> lies_within(decoded.header, bytes),
        SampleDescriptionView::decode(bytes) matches Ok(decoded) ==> lies_within(decoded.header, bytes),
        TimeToSampleView::decode(bytes) matches Ok(decoded) ==> lies_within(decoded.header, bytes),
        SampleToChunkView::decode(bytes) matches Ok(decoded) ==> lies_within(decoded.header, bytes),
        SampleSizeView::decode(bytes) matches Ok(decoded) ==> lies_within(decoded.header, bytes),
        ChunkOffsetView::decode(bytes) matches Ok(decoded) ==> lies_within(decoded.header, bytes),
        SampleTableView::decode(bytes) matches Ok(decoded) ==> lies_within(decoded.header, bytes),
        MediaInformationView::decode(bytes) matches Ok(decoded) ==> lies_within(decoded.header, bytes),
        MediaView::decode(bytes) matches Ok(decoded) ==> lies_within(decoded.header, bytes),
        TrackView::decode(bytes) matches Ok(decoded) ==> lies_within(decoded.header, bytes),
        MovieView::decode(bytes) matches Ok(decoded) ==> lies_within(decoded.header, bytes),
{
    if SampleTableView::decode(bytes) is Ok {
        lemma_sample_table_accounting(bytes);
    }
    if MediaInformationView::decode(bytes) is Ok {
        lemma_media_information_accounting(bytes);
    }
    if MediaView::decode(bytes) is Ok {
        lemma_media_accounting(bytes);
    }
    if TrackView::decode(bytes) is Ok {
        lemma_track_accounting(bytes);
    }
    if MovieView::decode(bytes) is Ok {
        lemma_movie_accounting(bytes);
    }
}

/// Decoding a whole file fails with `TruncatedPayload` when the walk
/// reaches a box, of a known type or not, that declares itself longer than
/// what is left of the buffer.
pub proof fn lemma_truncated_file_is_rejected(bytes: Seq<u8>, at: nat, found: MP4View)
    requires
        at < bytes.len(),
        BoxHeaderView::decode(bytes.subrange(at as int, bytes.len() as int)) is Ok,
        BoxHeaderView::decode(bytes.subrange(at as int, bytes.len() as int))->Ok_0.box_size()
            > bytes.len() - at,
    ensures
        MP4Parser::parse_from(bytes, at, found) == Err::<MP4View, ParseError>(
            ParseError::TruncatedPayload,
        ),
{
}

/// The walk over a file ends without failure where fewer bytes are left
/// than a header occupies: what was found before stands.
pub proof fn lemma_short_tail_ends_the_file(bytes: Seq<u8>, at: nat, found: MP4View)
    requires
        at + 8 > bytes.len(),
    ensures
        MP4Parser::parse_from(bytes, at, found) == Ok::<MP4View, ParseError>(found),
{
}

/// A box of a type that the decoder does not know is passed over by
/// exactly the length it declares: what the file decodes to from that box
/// on is what it decodes to from the end of that box on.
pub proof fn lemma_unknown_box_is_skipped(bytes: Seq<u8>, at: nat, found: MP4View)
    requires
        at < bytes.len(),
        BoxHeaderView::decode_box(bytes.subrange(at as int, bytes.len() as int)) is Ok,
        BoxHeaderView::decode_box(
            bytes.subrange(at as int, bytes.len() as int),
        )->Ok_0.type_code() != FTYP,
        BoxHeaderView::decode_box(
            bytes.subrange(at as int, bytes.len() as int),
        )->Ok_0.type_code() != MOOV,
    ensures
        ({
            let header = BoxHeaderView::decode_box(
                bytes.subrange(at as int, bytes.len() as int),
            )->Ok_0;
            &&& at + header.box_size() <= bytes.len()
            &&& MP4Parser::parse_from(bytes, at, found) == MP4Parser::parse_from(
                bytes,
                at + header.box_size(),
                found,
            )
        }),
{
}

/// Decoding keeps no state between calls: two outcomes of decoding the
/// same bytes hold the same tree, or the same error.
pub proof fn lemma_decoding_is_repeatable(
    bytes: Seq<u8>,
    first: Result<MP4, ParseError>,
    second: Result<MP4, ParseError>,
)
    requires
        view_of(first) == MP4Parser::parse(bytes),
        view_of(second) == MP4Parser::parse(bytes),
    ensures
        view_of(first) == view_of(second),
        first is Ok <==> second is Ok,
        first is Ok ==> first->Ok_0@ == second->Ok_0@,
        first is Err ==> first->Err_0 == second->Err_0,
{
}

/// Size accounting in a sample table box: the five tables follow the
/// header one behind the other, each where the one before it ends, and
/// together with the header they stay within the length that the box
/// declares, which in turn stays within the buffer.
pub proof fn lemma_sample_table_accounting(bytes: Seq<u8>)
    requires
        SampleTableView::decode(bytes) is Ok,
    ensures
        ({
            let table = SampleTableView::decode(bytes)->Ok_0;
            let end = bytes.len() as int;
            let stsd_at = table.header.header_len() as int;
            let stts_at = stsd_at + table.stsd.header.box_size();
            let stsc_at = stts_at + table.stts.header.box_size();
            let stsz_at = stsc_at + table.stsc.header.box_size();
            let stco_at = stsz_at + table.stsz.header.box_size();
            &&& SampleDescriptionView::decode(bytes.subrange(stsd_at, end)) == Ok::<
                SampleDescriptionView,
                ParseError,
            >(table.stsd)
            &&& TimeToSampleView::decode(bytes.subrange(stts_at, end)) == Ok::<
                TimeToSampleView,
                ParseError,
            >(table.stts)
            &&& SampleToChunkView::decode(bytes.subrange(stsc_at, end)) == Ok::<
                SampleToChunkView,
                ParseError,
            >(table.stsc)
            &&& SampleSizeView::decode(bytes.subrange(stsz_at, end)) == Ok::<
                SampleSizeView,
                ParseError,
            >(table.stsz)
            &&& ChunkOffsetView::decode(bytes.subrange(stco_at, end)) == Ok::<
                ChunkOffsetView,
                ParseError,
            >(table.stco)
            &&& stco_at + table.stco.header.box_size() == table.header.header_len()
                + table.children_size()
            &&& table.header.header_len() + table.children_size() <= table.header.box_size()
            &&& table.header.box_size() <= bytes.len()
            &&& table.wf()
            &&& BoxHeaderView::decode_box(bytes) == Ok::<BoxHeaderView, ParseError>(table.header)
        }),
{
    reveal(SampleTableView::decode);
}

/// Size accounting in a media information box: the sample table follows
/// the header, and together they stay within the length that the box
/// declares.
pub proof fn lemma_media_information_accounting(bytes: Seq<u8>)
    requires
        MediaInformationView::decode(bytes) is Ok,
    ensures
        ({
            let minf = MediaInformationView::decode(bytes)->Ok_0;
            let end = bytes.len() as int;
            let stbl_at = minf.header.header_len() as int;
            &&& SampleTableView::decode(bytes.subrange(stbl_at, end)) == Ok::<
                SampleTableView,
                ParseError,
            >(minf.stbl)
            &&& minf.header.header_len() + minf.children_size() <= minf.header.box_size()
            &&& minf.header.box_size() <= bytes.len()
            &&& minf.wf()
            &&& BoxHeaderView::decode_box(bytes) == Ok::<BoxHeaderView, ParseError>(minf.header)
        }),
{
    reveal(MediaInformationView::decode);
    let minf = MediaInformationView::decode(bytes)->Ok_0;
    lemma_sample_table_accounting(
        bytes.subrange(minf.header.header_len() as int, bytes.len() as int),
    );
}

/// Size accounting in a media box: the media header, the handler and the
/// media information follow the header one behind the other, and together
/// with it they stay within the length that the box declares.
pub proof fn lemma_media_accounting(bytes: Seq<u8>)
    requires
        MediaView::decode(bytes) is Ok,
    ensures
        ({
            let media = MediaView::decode(bytes)->Ok_0;
            let end = bytes.len() as int;
            let mdhd_at = media.header.header_len() as int;
            let hdlr_at = mdhd_at + media.mdhd.header.box_size();
            let minf_at = hdlr_at + media.hdlr.header.box_size();
            &&& MediaHeaderView::decode(bytes.subrange(mdhd_at, end)) == Ok::<
                MediaHeaderView,
                ParseError,
            >(media.mdhd)
            &&& HandlerView::decode(bytes.subrange(hdlr_at, end)) == Ok::<HandlerView, ParseError>(
                media.hdlr,
            )
            &&& MediaInformationView::decode(bytes.subrange(minf_at, end)) == Ok::<
                MediaInformationView,
                ParseError,
            >(media.minf)
            &&& media.header.header_len() + media.children_size() <= media.header.box_size()
            &&& media.header.box_size() <= bytes.len()
            &&& media.wf()
            &&& BoxHeaderView::decode_box(bytes) == Ok::<BoxHeaderView, ParseError>(media.header)
        }),
{
    reveal(MediaView::decode);
    let media = MediaView::decode(bytes)->Ok_0;
    let minf_at = media.header.header_len() + media.mdhd.header.box_size()
        + media.hdlr.header.box_size();
    lemma_media_information_accounting(bytes.subrange(minf_at as int, bytes.len() as int));
}

/// Size accounting in a track box: the track header and the media box
/// follow the header one behind the other, and together with it they stay
/// within the length that the box declares.
pub proof fn lemma_track_accounting(bytes: Seq<u8>)
    requires
        TrackView::decode(bytes) is Ok,
    ensures
        ({
            let track = TrackView::decode(bytes)->Ok_0;
            let end = bytes.len() as int;
            let tkhd_at = track.header.header_len() as int;
            let mdia_at = tkhd_at + track.tkhd.header.box_size();
            &&& TrackHeaderView::decode(bytes.subrange(tkhd_at, end)) == Ok::<
                TrackHeaderView,
                ParseError,
            >(track.tkhd)
            &&& MediaView::decode(bytes.subrange(mdia_at, end)) == Ok::<MediaView, ParseError>(
                track.mdia,
            )
            &&& track.header.header_len() + track.children_size() <= track.header.box_size()
            &&& track.header.box_size() <= bytes.len()
            &&& BoxHeaderView::decode_box(bytes) == Ok::<BoxHeaderView, ParseError>(track.header)
            &&& bytes.len() <= usize::MAX ==> track.wf()
        }),
{
    reveal(TrackView::decode);
    let track = TrackView::decode(bytes)->Ok_0;
    let mdia_at = track.header.header_len() + track.tkhd.header.box_size();
    lemma_media_accounting(bytes.subrange(mdia_at as int, bytes.len() as int));
}

/// The offset at which the first track of a movie box stands: behind the
/// header and the movie header.
pub open spec fn first_track_offset(header: BoxHeaderView, mvhd: MovieHeaderView) -> int {
    (header.header_len() + mvhd.header.box_size()) as int
}

/// The offset at which the track with index `i` of a movie box stands:
/// behind the header, the movie header and the tracks before it.
pub open spec fn track_offset(movie: MovieView, i: int) -> int {
    first_track_offset(movie.header, movie.mvhd) + tracks_size(movie.traks.take(i))
}

/// What `decode_tracks` adds to the tracks it is given: each further track
/// is decoded where the children before it end, and the tracks fill the
/// rest of the declared length exactly.
proof fn lemma_tracks_chain(
    bytes: Seq<u8>,
    header: BoxHeaderView,
    mvhd: MovieHeaderView,
    at: int,
    traks: Seq<TrackView>,
)
    requires
        MovieView::decode_tracks(bytes, header, mvhd, at, traks) is Ok,
        first_track_offset(header, mvhd) + tracks_size(traks) == at,
        at <= header.box_size() <= bytes.len(),
        forall|i: int|
            0 <= i < traks.len() ==> TrackView::decode(
                bytes.subrange(
                    first_track_offset(header, mvhd) + tracks_size(traks.take(i)),
                    bytes.len() as int,
                ),
            ) == Ok::<TrackView, ParseError>(#[trigger] traks[i]),
    ensures
        ({
            let movie = MovieView::decode_tracks(bytes, header, mvhd, at, traks)->Ok_0;
            &&& movie.header == header
            &&& movie.mvhd == mvhd
            &&& movie.header.header_len() + movie.children_size() == header.box_size()
            &&& forall|i: int|
                0 <= i < movie.traks.len() ==> TrackView::decode(
                    bytes.subrange(track_offset(movie, i), bytes.len() as int),
                ) == Ok::<TrackView, ParseError>(#[trigger] movie.traks[i])
        }),
    decreases header.box_size() - at,
{
    if at < header.box_size() {
        let rest = bytes.subrange(at, bytes.len() as int);
        let room = (header.box_size() - at) as nat;
        let child = BoxHeaderView::decode_child(rest, room, TRAK)->Ok_0;
        let track = TrackView::decode(rest)->Ok_0;
        lemma_track_accounting(rest);
        let longer = traks.push(track);
        assert(longer.drop_last() =~= traks);
        assert forall|i: int| 0 <= i < longer.len() implies TrackView::decode(
            bytes.subrange(
                first_track_offset(header, mvhd) + tracks_size(longer.take(i)),
                bytes.len() as int,
            ),
        ) == Ok::<TrackView, ParseError>(#[trigger] longer[i]) by {
            if i < traks.len() {
                assert(longer.take(i) =~= traks.take(i));
            }
        }
        lemma_tracks_chain(bytes, header, mvhd, at + child.box_size(), longer);
    }
}

/// A track that decodes from a part of a buffer which fits the machine's
/// word is well-formed.
proof fn lemma_track_is_well_formed(bytes: Seq<u8>, at: int)
    requires
        0 <= at <= bytes.len() <= usize::MAX,
        TrackView::decode(bytes.subrange(at, bytes.len() as int)) is Ok,
    ensures
        TrackView::decode(bytes.subrange(at, bytes.len() as int))->Ok_0.wf(),
{
    lemma_track_accounting(bytes.subrange(at, bytes.len() as int));
}

/// Size accounting in a movie box: the movie header follows the header,
/// every track stands where the children before it end, and the header
/// and all the children together are exactly as long as the box declares
/// itself.
pub proof fn lemma_movie_accounting(bytes: Seq<u8>)
    requires
        MovieView::decode(bytes) is Ok,
    ensures
        ({
            let movie = MovieView::decode(bytes)->Ok_0;
            let end = bytes.len() as int;
            let mvhd_at = movie.header.header_len() as int;
            &&& MovieHeaderView::decode(bytes.subrange(mvhd_at, end)) == Ok::<
                MovieHeaderView,
                ParseError,
            >(movie.mvhd)
            &&& forall|i: int|
                0 <= i < movie.traks.len() ==> TrackView::decode(
                    bytes.subrange(track_offset(movie, i), end),
                ) == Ok::<TrackView, ParseError>(#[trigger] movie.traks[i])
            &&& movie.header.header_len() + movie.mvhd.header.box_size() + tracks_size(movie.traks)
                == movie.header.box_size()
            &&& movie.header.box_size() <= bytes.len()
            &&& BoxHeaderView::decode_box(bytes) == Ok::<BoxHeaderView, ParseError>(movie.header)
        }),
{
    reveal(MovieView::decode);
    let header = BoxHeaderView::decode_box(bytes)->Ok_0;
    let at = header.header_len() as int;
    let rest = bytes.subrange(at, bytes.len() as int);
    let child = BoxHeaderView::decode_child(rest, (header.box_size() - at) as nat, MVHD)->Ok_0;
    let mvhd = MovieHeaderView::decode(rest)->Ok_0;
    lemma_tracks_chain(bytes, header, mvhd, at + child.box_size(), Seq::empty());
}

/// A movie box that decodes from a buffer which fits the machine's word is
/// well-formed, and so is each of its tracks.
pub proof fn lemma_movie_is_well_formed(bytes: Seq<u8>)
    requires
        MovieView::decode(bytes) is Ok,
        bytes.len() <= usize::MAX,
    ensures
        MovieView::decode(bytes)->Ok_0.wf(),
{
    let movie = MovieView::decode(bytes)->Ok_0;
    lemma_movie_accounting(bytes);
    assert forall|i: int| 0 <= i < movie.traks.len() implies (#[trigger] movie.traks[i]).wf() by {
        let at = track_offset(movie, i);
        assert(TrackView::decode(bytes.subrange(at, bytes.len() as int)) == Ok::<
            TrackView,
            ParseError,
        >(movie.traks[i]));
        lemma_tracks_size_is_bounded(movie.traks, i);
        lemma_track_is_well_formed(bytes, at);
    }
}

/// The tracks before any one of them are no longer than all of them.
proof fn lemma_tracks_size_is_bounded(traks: Seq<TrackView>, i: int)
    requires
        0 <= i <= traks.len(),
    ensures
        tracks_size(traks.take(i)) <= tracks_size(traks),
    decreases traks.len() - i,
{
    if i < traks.len() {
        lemma_tracks_size_is_bounded(traks, i + 1);
        assert(traks.take(i + 1).drop_last() =~= traks.take(i));
    } else {
        assert(traks.take(i) =~= traks);
    }
}

} // verus!
