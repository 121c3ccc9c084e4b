//! The track box: one timed stream of the movie, as its track header and
//! its media.
use crate::boxes::header::{BoxHeader, BoxHeaderView};
use crate::boxes::media::{MediaBox, MediaView};
use crate::boxes::track_header::{TrackHeaderBox, TrackHeaderView};
use crate::boxes::{MDIA, TKHD};
use crate::bytes::tail;
use crate::error::{view_of, ParseError};
use vstd::prelude::*;

verus! {

/// A track box.
#[derive(Debug, Clone)]
pub struct TrackBox {
    header: BoxHeader,
    tkhd: TrackHeaderBox,
    mdia: MediaBox,
}

/// What a track box holds, as plain values.
pub struct TrackView {
    pub header: BoxHeaderView,
    pub tkhd: TrackHeaderView,
    pub mdia: MediaView,
}

impl TrackView {
    /// The lengths that the two children declare, added up.
    pub open spec fn children_size(self) -> nat {
        self.tkhd.header.box_size() + self.mdia.header.box_size()
    }

    /// The header and the children lie within the length that the box
    /// declares, that length fits the machine's word, and the same holds
    /// inside the media box.
    pub open spec fn wf(self) -> bool {
        &&& self.header.header_len() + self.children_size() <= self.header.box_size()
        &&& self.header.box_size() <= usize::MAX
        &&& self.mdia.wf()
    }

    /// The track box at the start of `bytes`: its header, then the track
    /// header, then the media box where the track header ends.
    #[verifier::opaque]
    pub open spec fn decode(bytes: Seq<u8>) -> Result<TrackView, ParseError> {
        match BoxHeaderView::decode_box(bytes) {
            Err(error) => Err(error),
            Ok(header) => {
                let at = header.header_len() as int;
                let rest = bytes.subrange(at, bytes.len() as int);
                match BoxHeaderView::decode_child(rest, (header.box_size() - at) as nat, TKHD) {
                    Err(error) => Err(error),
                    Ok(child) => match TrackHeaderView::decode(rest) {
                        Err(error) => Err(error),
                        Ok(tkhd) => Self::decode_mdia(bytes, header, tkhd, at + child.box_size()),
                    },
                }
            },
        }
    }

    /// The last child, the media box, which starts at `at`.
    pub open spec fn decode_mdia(
        bytes: Seq<u8>,
        header: BoxHeaderView,
        tkhd: TrackHeaderView,
        at: int,
    ) -> Result<TrackView, ParseError> {
        let rest = bytes.subrange(at, bytes.len() as int);
        match BoxHeaderView::decode_child(rest, (header.box_size() - at) as nat, MDIA) {
            Err(error) => Err(error),
            Ok(_) => match MediaView::decode(rest) {
                Err(error) => Err(error),
                Ok(mdia) => Ok(TrackView { header, tkhd, mdia }),
            },
        }
    }
}

impl View for TrackBox {
    type V = TrackView;

    closed spec fn view(&self) -> TrackView {
        TrackView { header: self.header@, tkhd: self.tkhd@, mdia: self.mdia@ }
    }
}

impl TrackBox {
    /// Decodes the track box at the start of `buffer`.
    pub fn from_buffer(buffer: &[u8]) -> (decoded: Result<Self, ParseError>)
        ensures
            view_of(decoded) == TrackView::decode(buffer@),
            decoded matches Ok(track) ==> track@.wf(),
            decoded matches Ok(track) ==> BoxHeaderView::decode_box(buffer@) == Ok::<
                BoxHeaderView,
                ParseError,
            >(track@.header),
    {
        reveal(TrackView::decode);
        let header = match BoxHeader::from_box(buffer) {
            Ok(header) => header,
            Err(error) => return Err(error),
        };
        let end = header.box_size() as usize;
        let at = header.total_size();

        let rest = tail(buffer, at);
        let child = match BoxHeader::from_child(rest, end - at, TKHD) {
            Ok(child) => child,
            Err(error) => return Err(error),
        };
        let tkhd = match TrackHeaderBox::from_buffer(rest) {
            Ok(tkhd) => tkhd,
            Err(error) => return Err(error),
        };
        let at = at + child.box_size() as usize;

        let rest = tail(buffer, at);
        match BoxHeader::from_child(rest, end - at, MDIA) {
            Ok(_) => {},
            Err(error) => return Err(error),
        }
        let mdia = match MediaBox::from_buffer(rest) {
            Ok(mdia) => mdia,
            Err(error) => return Err(error),
        };
        Ok(TrackBox { header, tkhd, mdia })
    }

    /// The header of the box.
    pub fn header(&self) -> (header: &BoxHeader)
        ensures
            header@ == self@.header,
    {
        &self.header
    }

    /// The track header.
    pub fn track_header(&self) -> (tkhd: &TrackHeaderBox)
        ensures
            tkhd@ == self@.tkhd,
    {
        &self.tkhd
    }

    /// The media box.
    pub fn media(&self) -> (mdia: &MediaBox)
        ensures
            mdia@ == self@.mdia,
    {
        &self.mdia
    }

    /// The identifier of the track, from its track header.
    pub fn track_id(&self) -> (id: u32)
        ensures
            id == self@.tkhd.track_id,
    {
        self.tkhd.get_track_id()
    }

    /// The duration of the track, from its track header.
    pub fn duration(&self) -> (duration: u32)
        ensures
            duration == self@.tkhd.duration,
    {
        self.tkhd.get_duration()
    }

    /// The length of the header and of the two children as they declare
    /// themselves, added up.
    pub fn total_size(&self) -> (len: usize)
        requires
            self@.wf(),
        ensures
            len == self@.header.header_len() + self@.children_size(),
    {
        self.header.total_size() + self.tkhd.get_header().box_size() as usize
            + self.mdia.get_header().box_size() as usize
    }

    /// The offset of the last byte of the children of a track box that
    /// starts at `seek`.
    pub fn get_end_range(&self, seek: usize) -> (end: usize)
        requires
            self@.wf(),
            seek + self@.header.header_len() + self@.children_size() <= usize::MAX,
        ensures
            end == seek + self@.header.header_len() + self@.children_size() - 1,
    {
        seek + self.total_size() - 1
    }
}

} // verus!
