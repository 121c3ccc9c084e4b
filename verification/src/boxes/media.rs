//! The media box: the media header, the handler and the media information
//! of one track, in that order.
use crate::boxes::handler::{HandlerBox, HandlerView};
use crate::boxes::header::{BoxHeader, BoxHeaderView};
use crate::boxes::media_header::{MediaHeaderBox, MediaHeaderView};
use crate::boxes::media_information::{MediaInformationBox, MediaInformationView};
use crate::boxes::{HDLR, MDHD, MINF};
use crate::bytes::tail;
use crate::error::{view_of, ParseError};
use vstd::prelude::*;

verus! {

/// A media box.
#[derive(Debug, Clone)]
pub struct MediaBox {
    header: BoxHeader,
    mdhd: MediaHeaderBox,
    hdlr: HandlerBox,
    minf: MediaInformationBox,
}

/// What a media box holds, as plain values.
pub struct MediaView {
    pub header: BoxHeaderView,
    pub mdhd: MediaHeaderView,
    pub hdlr: HandlerView,
    pub minf: MediaInformationView,
}

impl MediaView {
    /// The lengths that the three children declare, added up.
    pub open spec fn children_size(self) -> nat {
        self.mdhd.header.box_size() + self.hdlr.header.box_size() + self.minf.header.box_size()
    }

    /// The header and the children lie within the length that the box
    /// declares, and the same holds inside the media information box.
    pub open spec fn wf(self) -> bool {
        &&& self.header.header_len() + self.children_size() <= self.header.box_size()
        &&& self.minf.wf()
    }

    /// The media box at the start of `bytes`: its header, then the three
    /// children, each one starting where the one before it ends.
    #[verifier::opaque]
    pub open spec fn decode(bytes: Seq<u8>) -> Result<MediaView, ParseError> {
        match BoxHeaderView::decode_box(bytes) {
            Err(error) => Err(error),
            Ok(header) => {
                let at = header.header_len() as int;
                let rest = bytes.subrange(at, bytes.len() as int);
                match BoxHeaderView::decode_child(rest, (header.box_size() - at) as nat, MDHD) {
                    Err(error) => Err(error),
                    Ok(child) => match MediaHeaderView::decode(rest) {
                        Err(error) => Err(error),
                        Ok(mdhd) => Self::decode_hdlr(bytes, header, mdhd, at + child.box_size()),
                    },
                }
            },
        }
    }

    /// The children from the handler box on, which starts at `at`.
    pub open spec fn decode_hdlr(
        bytes: Seq<u8>,
        header: BoxHeaderView,
        mdhd: MediaHeaderView,
        at: int,
    ) -> Result<MediaView, ParseError> {
        let rest = bytes.subrange(at, bytes.len() as int);
        match BoxHeaderView::decode_child(rest, (header.box_size() - at) as nat, HDLR) {
            Err(error) => Err(error),
            Ok(child) => match HandlerView::decode(rest) {
                Err(error) => Err(error),
                Ok(hdlr) => Self::decode_minf(bytes, header, mdhd, hdlr, at + child.box_size()),
            },
        }
    }

    /// The last child, the media information box, which starts at `at`.
    pub open spec fn decode_minf(
        bytes: Seq<u8>,
        header: BoxHeaderView,
        mdhd: MediaHeaderView,
        hdlr: HandlerView,
        at: int,
    ) -> Result<MediaView, ParseError> {
        let rest = bytes.subrange(at, bytes.len() as int);
        match BoxHeaderView::decode_child(rest, (header.box_size() - at) as nat, MINF) {
            Err(error) => Err(error),
            Ok(_) => match MediaInformationView::decode(rest) {
                Err(error) => Err(error),
                Ok(minf) => Ok(MediaView { header, mdhd, hdlr, minf }),
            },
        }
    }
}

impl View for MediaBox {
    type V = MediaView;

    closed spec fn view(&self) -> MediaView {
        MediaView { header: self.header@, mdhd: self.mdhd@, hdlr: self.hdlr@, minf: self.minf@ }
    }
}

impl MediaBox {
    /// Decodes the media box at the start of `buffer`.
    pub fn from_buffer(buffer: &[u8]) -> (decoded: Result<Self, ParseError>)
        ensures
            view_of(decoded) == MediaView::decode(buffer@),
            decoded matches Ok(media) ==> media@.wf(),
            decoded matches Ok(media) ==> BoxHeaderView::decode_box(buffer@) == Ok::<
                BoxHeaderView,
                ParseError,
            >(media@.header),
    {
        reveal(MediaView::decode);
        let header = match BoxHeader::from_box(buffer) {
            Ok(header) => header,
            Err(error) => return Err(error),
        };
        let end = header.box_size() as usize;
        let at = header.total_size();

        let rest = tail(buffer, at);
        let child = match BoxHeader::from_child(rest, end - at, MDHD) {
            Ok(child) => child,
            Err(error) => return Err(error),
        };
        let mdhd = match MediaHeaderBox::from_buffer(rest) {
            Ok(mdhd) => mdhd,
            Err(error) => return Err(error),
        };
        let at = at + child.box_size() as usize;

        let rest = tail(buffer, at);
        let child = match BoxHeader::from_child(rest, end - at, HDLR) {
            Ok(child) => child,
            Err(error) => return Err(error),
        };
        let hdlr = match HandlerBox::from_buffer(rest) {
            Ok(hdlr) => hdlr,
            Err(error) => return Err(error),
        };
        let at = at + child.box_size() as usize;

        let rest = tail(buffer, at);
        match BoxHeader::from_child(rest, end - at, MINF) {
            Ok(_) => {},
            Err(error) => return Err(error),
        }
        let minf = match MediaInformationBox::from_buffer(rest) {
            Ok(minf) => minf,
            Err(error) => return Err(error),
        };
        Ok(MediaBox { header, mdhd, hdlr, minf })
    }

    /// The header of the box.
    pub fn get_header(&self) -> (header: &BoxHeader)
        ensures
            header@ == self@.header,
    {
        &self.header
    }

    /// The media header.
    pub fn get_mdhd(&self) -> (mdhd: &MediaHeaderBox)
        ensures
            mdhd@ == self@.mdhd,
    {
        &self.mdhd
    }

    /// The handler.
    pub fn get_hdlr(&self) -> (hdlr: &HandlerBox)
        ensures
            hdlr@ == self@.hdlr,
    {
        &self.hdlr
    }

    /// The media information.
    pub fn get_minf(&self) -> (minf: &MediaInformationBox)
        ensures
            minf@ == self@.minf,
    {
        &self.minf
    }
}

} // verus!
