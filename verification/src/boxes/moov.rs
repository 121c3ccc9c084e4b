//! The movie box: the movie header and then as many track boxes as the
//! declared length holds.
use crate::boxes::header::{BoxHeader, BoxHeaderView};
use crate::boxes::movie_header::{MovieHeaderBox, MovieHeaderView};
use crate::boxes::track::{TrackBox, TrackView};
use crate::boxes::{MVHD, TRAK};
use crate::bytes::tail;
use crate::error::{view_of, ParseError};
use vstd::prelude::*;

verus! {

/// The type of the movie box, as text.
pub const HEADER_MOOV: &'static str = "moov";

/// A movie box.
#[derive(Debug, Clone)]
pub struct MovieBox {
    header: BoxHeader,
    mvhd: MovieHeaderBox,
    traks: Vec<TrackBox>,
}

/// What a movie box holds, as plain values.
pub struct MovieView {
    pub header: BoxHeaderView,
    pub mvhd: MovieHeaderView,
    /// The tracks, in file order.
    pub traks: Seq<TrackView>,
}

/// The views of a sequence of track boxes.
pub open spec fn track_views(traks: Seq<TrackBox>) -> Seq<TrackView> {
    Seq::new(traks.len(), |i: int| traks[i]@)
}

/// The lengths that the tracks declare, added up.
pub open spec fn tracks_size(traks: Seq<TrackView>) -> nat
    decreases traks.len(),
{
    if traks.len() == 0 {
        0
    } else {
        tracks_size(traks.drop_last()) + traks.last().header.box_size()
    }
}

impl MovieView {
    /// The lengths that the movie header and the tracks declare, added up.
    pub open spec fn children_size(self) -> nat {
        self.mvhd.header.box_size() + tracks_size(self.traks)
    }

    /// The header and the children fill the length that the box declares
    /// exactly, that length fits the machine's word, and every track is
    /// well-formed.
    pub open spec fn wf(self) -> bool {
        &&& self.header.header_len() + self.children_size() == self.header.box_size()
        &&& self.header.box_size() <= usize::MAX
        &&& forall|i: int| 0 <= i < self.traks.len() ==> (#[trigger] self.traks[i]).wf()
    }

    /// The movie box at the start of `bytes`: its header, the movie header,
    /// then one track after the other until the declared length is used up.
    #[verifier::opaque]
    pub open spec fn decode(bytes: Seq<u8>) -> Result<MovieView, ParseError> {
        match BoxHeaderView::decode_box(bytes) {
            Err(error) => Err(error),
            Ok(header) => {
                let at = header.header_len() as int;
                let rest = bytes.subrange(at, bytes.len() as int);
                match BoxHeaderView::decode_child(rest, (header.box_size() - at) as nat, MVHD) {
                    Err(error) => Err(error),
                    Ok(child) => match MovieHeaderView::decode(rest) {
                        Err(error) => Err(error),
                        Ok(mvhd) => Self::decode_tracks(
                            bytes,
                            header,
                            mvhd,
                            at + child.box_size(),
                            Seq::empty(),
                        ),
                    },
                }
            },
        }
    }

    /// The movie box whose tracks before the offset `at` are `traks`
    /// already: the tracks from `at` on are decoded one by one, each where
    /// the one before it ends, and the box is complete when the declared
    /// length is reached.
    pub open spec fn decode_tracks(
        bytes: Seq<u8>,
        header: BoxHeaderView,
        mvhd: MovieHeaderView,
        at: int,
        traks: Seq<TrackView>,
    ) -> Result<MovieView, ParseError>
        decreases header.box_size() - at,
    {
        if at >= header.box_size() {
            Ok(MovieView { header, mvhd, traks })
        } else {
            let rest = bytes.subrange(at, bytes.len() as int);
            match BoxHeaderView::decode_child(rest, (header.box_size() - at) as nat, TRAK) {
                Err(error) => Err(error),
                Ok(child) => match TrackView::decode(rest) {
                    Err(error) => Err(error),
                    Ok(track) => Self::decode_tracks(
                        bytes,
                        header,
                        mvhd,
                        at + child.box_size(),
                        traks.push(track),
                    ),
                },
            }
        }
    }
}

impl View for MovieBox {
    type V = MovieView;

    closed spec fn view(&self) -> MovieView {
        MovieView { header: self.header@, mvhd: self.mvhd@, traks: track_views(self.traks@) }
    }
}

impl MovieBox {
    /// Decodes the movie box at the start of `buffer`.
    pub fn from_buffer(buffer: &[u8]) -> (decoded: Result<Self, ParseError>)
        ensures
            view_of(decoded) == MovieView::decode(buffer@),
            decoded matches Ok(movie) ==> movie@.wf(),
            decoded matches Ok(movie) ==> BoxHeaderView::decode_box(buffer@) == Ok::<
                BoxHeaderView,
                ParseError,
            >(movie@.header),
    {
        reveal(MovieView::decode);
        let header = match BoxHeader::from_box(buffer) {
            Ok(header) => header,
            Err(error) => return Err(error),
        };
        let end = header.box_size() as usize;
        let at = header.total_size();

        let rest = tail(buffer, at);
        let child = match BoxHeader::from_child(rest, end - at, MVHD) {
            Ok(child) => child,
            Err(error) => return Err(error),
        };
        let mvhd = match MovieHeaderBox::from_buffer(rest) {
            Ok(mvhd) => mvhd,
            Err(error) => return Err(error),
        };
        let mut at = at + child.box_size() as usize;
        let mut traks: Vec<TrackBox> = Vec::new();
        assert(track_views(traks@) =~= Seq::<TrackView>::empty());
        while at < end
            invariant
                at <= end <= buffer.len(),
                end == header@.box_size(),
                MovieView::decode(buffer@) == MovieView::decode_tracks(
                    buffer@,
                    header@,
                    mvhd@,
                    at as int,
                    track_views(traks@),
                ),
                header@.header_len() + mvhd@.header.box_size() + tracks_size(track_views(traks@))
                    == at,
                forall|i: int| 0 <= i < traks@.len() ==> (#[trigger] traks@[i])@.wf(),
            decreases end - at,
        {
            let rest = tail(buffer, at);
            let child = match BoxHeader::from_child(rest, end - at, TRAK) {
                Ok(child) => child,
                Err(error) => return Err(error),
            };
            let track = match TrackBox::from_buffer(rest) {
                Ok(track) => track,
                Err(error) => return Err(error),
            };
            proof {
                let before = track_views(traks@);
                let after = track_views(traks@.push(track));
                assert(after =~= before.push(track@));
                assert(after.drop_last() =~= before);
            }
            traks.push(track);
            at = at + child.box_size() as usize;
        }
        Ok(MovieBox { header, mvhd, traks })
    }

    /// The header of the box.
    pub fn header(&self) -> (header: &BoxHeader)
        ensures
            header@ == self@.header,
    {
        &self.header
    }

    /// The movie header.
    pub fn movie_header(&self) -> (mvhd: &MovieHeaderBox)
        ensures
            mvhd@ == self@.mvhd,
    {
        &self.mvhd
    }

    /// The tracks, in file order.
    pub fn tracks(&self) -> (traks: &Vec<TrackBox>)
        ensures
            track_views(traks@) == self@.traks,
    {
        &self.traks
    }

    /// The number of tracks.
    pub fn track_count(&self) -> (count: usize)
        ensures
            count == self@.traks.len(),
    {
        self.traks.len()
    }
}

} // verus!
