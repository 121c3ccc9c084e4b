//! The media information box, which wraps the sample table.
use crate::boxes::header::{BoxHeader, BoxHeaderView};
use crate::boxes::sample_table::{SampleTableBox, SampleTableView};
use crate::boxes::STBL;
use crate::bytes::tail;
use crate::error::{view_of, ParseError};
use vstd::prelude::*;

verus! {

/// A media information box.
#[derive(Debug, Clone)]
pub struct MediaInformationBox {
    header: BoxHeader,
    stbl: SampleTableBox,
}

/// What a media information box holds, as plain values.
pub struct MediaInformationView {
    pub header: BoxHeaderView,
    pub stbl: SampleTableView,
}

impl MediaInformationView {
    /// The length that the one child declares.
    pub open spec fn children_size(self) -> nat {
        self.stbl.header.box_size()
    }

    /// The header and the child lie within the length that the box
    /// declares, and the same holds inside the child.
    pub open spec fn wf(self) -> bool {
        &&& self.header.header_len() + self.children_size() <= self.header.box_size()
        &&& self.stbl.wf()
    }

    /// The media information box at the start of `bytes`: its header, then
    /// the sample table.
    #[verifier::opaque]
    pub open spec fn decode(bytes: Seq<u8>) -> Result<MediaInformationView, ParseError> {
        match BoxHeaderView::decode_box(bytes) {
            Err(error) => Err(error),
            Ok(header) => {
                let at = header.header_len() as int;
                let rest = bytes.subrange(at, bytes.len() as int);
                match BoxHeaderView::decode_child(rest, (header.box_size() - at) as nat, STBL) {
                    Err(error) => Err(error),
                    Ok(_) => match SampleTableView::decode(rest) {
                        Err(error) => Err(error),
                        Ok(stbl) => Ok(MediaInformationView { header, stbl }),
                    },
                }
            },
        }
    }
}

impl View for MediaInformationBox {
    type V = MediaInformationView;

    closed spec fn view(&self) -> MediaInformationView {
        MediaInformationView { header: self.header@, stbl: self.stbl@ }
    }
}

impl MediaInformationBox {
    /// Decodes the media information box at the start of `buffer`.
    pub fn from_buffer(buffer: &[u8]) -> (decoded: Result<Self, ParseError>)
        ensures
            view_of(decoded) == MediaInformationView::decode(buffer@),
            decoded matches Ok(minf) ==> minf@.wf(),
            decoded matches Ok(minf) ==> BoxHeaderView::decode_box(buffer@) == Ok::<
                BoxHeaderView,
                ParseError,
            >(minf@.header),
    {
        reveal(MediaInformationView::decode);
        let header = match BoxHeader::from_box(buffer) {
            Ok(header) => header,
            Err(error) => return Err(error),
        };
        let end = header.box_size() as usize;
        let at = header.total_size();
        let rest = tail(buffer, at);
        match BoxHeader::from_child(rest, end - at, STBL) {
            Ok(_) => {},
            Err(error) => return Err(error),
        }
        let stbl = match SampleTableBox::from_buffer(rest) {
            Ok(stbl) => stbl,
            Err(error) => return Err(error),
        };
        Ok(MediaInformationBox { header, stbl })
    }

    /// The header of the box.
    pub fn header(&self) -> (header: &BoxHeader)
        ensures
            header@ == self@.header,
    {
        &self.header
    }

    /// The sample table.
    pub fn get_stbl(&self) -> (stbl: &SampleTableBox)
        ensures
            stbl@ == self@.stbl,
    {
        &self.stbl
    }
}

} // verus!
