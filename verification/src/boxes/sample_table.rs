//! The sample table box: the five tables that locate and time the samples
//! of a track, in their fixed order.
use crate::boxes::chunk_offset::{ChunkOffsetBox, ChunkOffsetView};
use crate::boxes::header::{BoxHeader, BoxHeaderView};
use crate::boxes::sample_description::{SampleDescriptionBox, SampleDescriptionView};
use crate::boxes::sample_size::{SampleSizeBox, SampleSizeView};
use crate::boxes::sample_to_chunk::{SampleToChunkBox, SampleToChunkView};
use crate::boxes::time_to_sample::{TimeToSampleBox, TimeToSampleView};
use crate::boxes::{STCO, STSC, STSD, STSZ, STTS};
use crate::bytes::tail;
use crate::error::{view_of, ParseError};
use vstd::prelude::*;

verus! {

/// A sample table box.
#[derive(Debug, Clone)]
pub struct SampleTableBox {
    header: BoxHeader,
    stsd: SampleDescriptionBox,
    stts: TimeToSampleBox,
    stsc: SampleToChunkBox,
    stsz: SampleSizeBox,
    stco: ChunkOffsetBox,
}

/// What a sample table box holds, as plain values.
pub struct SampleTableView {
    pub header: BoxHeaderView,
    pub stsd: SampleDescriptionView,
    pub stts: TimeToSampleView,
    pub stsc: SampleToChunkView,
    pub stsz: SampleSizeView,
    pub stco: ChunkOffsetView,
}

impl SampleTableView {
    /// The lengths that the five children declare, added up.
    pub open spec fn children_size(self) -> nat {
        self.stsd.header.box_size() + self.stts.header.box_size() + self.stsc.header.box_size()
            + self.stsz.header.box_size() + self.stco.header.box_size()
    }

    /// The header and the children lie within the length that the box
    /// declares.
    pub open spec fn wf(self) -> bool {
        self.header.header_len() + self.children_size() <= self.header.box_size()
    }

    /// The sample table box at the start of `bytes`: its header, then the
    /// five tables, each one starting where the one before it ends.
    #[verifier::opaque]
    pub open spec fn decode(bytes: Seq<u8>) -> Result<SampleTableView, ParseError> {
        match BoxHeaderView::decode_box(bytes) {
            Err(error) => Err(error),
            Ok(header) => Self::decode_stsd(bytes, header, header.header_len() as int),
        }
    }

    /// The children from the sample description box on, which starts at
    /// `at`.
    pub open spec fn decode_stsd(bytes: Seq<u8>, header: BoxHeaderView, at: int) -> Result<
        SampleTableView,
        ParseError,
    > {
        let rest = bytes.subrange(at, bytes.len() as int);
        match BoxHeaderView::decode_child(rest, (header.box_size() - at) as nat, STSD) {
            Err(error) => Err(error),
            Ok(child) => match SampleDescriptionView::decode(rest) {
                Err(error) => Err(error),
                Ok(stsd) => Self::decode_stts(bytes, header, stsd, at + child.box_size()),
            },
        }
    }

    /// The children from the time-to-sample box on, which starts at `at`.
    pub open spec fn decode_stts(
        bytes: Seq<u8>,
        header: BoxHeaderView,
        stsd: SampleDescriptionView,
        at: int,
    ) -> Result<SampleTableView, ParseError> {
        let rest = bytes.subrange(at, bytes.len() as int);
        match BoxHeaderView::decode_child(rest, (header.box_size() - at) as nat, STTS) {
            Err(error) => Err(error),
            Ok(child) => match TimeToSampleView::decode(rest) {
                Err(error) => Err(error),
                Ok(stts) => Self::decode_stsc(bytes, header, stsd, stts, at + child.box_size()),
            },
        }
    }

    /// The children from the sample-to-chunk box on, which starts at `at`.
    pub open spec fn decode_stsc(
        bytes: Seq<u8>,
        header: BoxHeaderView,
        stsd: SampleDescriptionView,
        stts: TimeToSampleView,
        at: int,
    ) -> Result<SampleTableView, ParseError> {
        let rest = bytes.subrange(at, bytes.len() as int);
        match BoxHeaderView::decode_child(rest, (header.box_size() - at) as nat, STSC) {
            Err(error) => Err(error),
            Ok(child) => match SampleToChunkView::decode(rest) {
                Err(error) => Err(error),
                Ok(stsc) => Self::decode_stsz(
                    bytes,
                    header,
                    stsd,
                    stts,
                    stsc,
                    at + child.box_size(),
                ),
            },
        }
    }

    /// The children from the sample size box on, which starts at `at`.
    pub open spec fn decode_stsz(
        bytes: Seq<u8>,
        header: BoxHeaderView,
        stsd: SampleDescriptionView,
        stts: TimeToSampleView,
        stsc: SampleToChunkView,
        at: int,
    ) -> Result<SampleTableView, ParseError> {
        let rest = bytes.subrange(at, bytes.len() as int);
        match BoxHeaderView::decode_child(rest, (header.box_size() - at) as nat, STSZ) {
            Err(error) => Err(error),
            Ok(child) => match SampleSizeView::decode(rest) {
                Err(error) => Err(error),
                Ok(stsz) => Self::decode_stco(
                    bytes,
                    header,
                    stsd,
                    stts,
                    stsc,
                    stsz,
                    at + child.box_size(),
                ),
            },
        }
    }

    /// The last child, the chunk offset box, which starts at `at`.
    pub open spec fn decode_stco(
        bytes: Seq<u8>,
        header: BoxHeaderView,
        stsd: SampleDescriptionView,
        stts: TimeToSampleView,
        stsc: SampleToChunkView,
        stsz: SampleSizeView,
        at: int,
    ) -> Result<SampleTableView, ParseError> {
        let rest = bytes.subrange(at, bytes.len() as int);
        match BoxHeaderView::decode_child(rest, (header.box_size() - at) as nat, STCO) {
            Err(error) => Err(error),
            Ok(child) => match ChunkOffsetView::decode(rest) {
                Err(error) => Err(error),
                Ok(stco) => Ok(SampleTableView { header, stsd, stts, stsc, stsz, stco }),
            },
        }
    }
}

impl View for SampleTableBox {
    type V = SampleTableView;

    closed spec fn view(&self) -> SampleTableView {
        SampleTableView {
            header: self.header@,
            stsd: self.stsd@,
            stts: self.stts@,
            stsc: self.stsc@,
            stsz: self.stsz@,
            stco: self.stco@,
        }
    }
}

impl SampleTableBox {
    /// Decodes the sample table box at the start of `buffer`.
    pub fn from_buffer(buffer: &[u8]) -> (decoded: Result<Self, ParseError>)
        ensures
            view_of(decoded) == SampleTableView::decode(buffer@),
            decoded matches Ok(table) ==> table@.wf(),
            decoded matches Ok(table) ==> BoxHeaderView::decode_box(buffer@) == Ok::<
                BoxHeaderView,
                ParseError,
            >(table@.header),
    {
        reveal(SampleTableView::decode);
        let header = match BoxHeader::from_box(buffer) {
            Ok(header) => header,
            Err(error) => return Err(error),
        };
        let end = header.box_size() as usize;
        let at = header.total_size();

        let rest = tail(buffer, at);
        let child = match BoxHeader::from_child(rest, end - at, STSD) {
            Ok(child) => child,
            Err(error) => return Err(error),
        };
        let stsd = match SampleDescriptionBox::from_buffer(rest) {
            Ok(stsd) => stsd,
            Err(error) => return Err(error),
        };
        let at = at + child.box_size() as usize;

        let rest = tail(buffer, at);
        let child = match BoxHeader::from_child(rest, end - at, STTS) {
            Ok(child) => child,
            Err(error) => return Err(error),
        };
        let stts = match TimeToSampleBox::from_buffer(rest) {
            Ok(stts) => stts,
            Err(error) => return Err(error),
        };
        let at = at + child.box_size() as usize;

        let rest = tail(buffer, at);
        let child = match BoxHeader::from_child(rest, end - at, STSC) {
            Ok(child) => child,
            Err(error) => return Err(error),
        };
        let stsc = match SampleToChunkBox::from_buffer(rest) {
            Ok(stsc) => stsc,
            Err(error) => return Err(error),
        };
        let at = at + child.box_size() as usize;

        let rest = tail(buffer, at);
        let child = match BoxHeader::from_child(rest, end - at, STSZ) {
            Ok(child) => child,
            Err(error) => return Err(error),
        };
        let stsz = match SampleSizeBox::from_buffer(rest) {
            Ok(stsz) => stsz,
            Err(error) => return Err(error),
        };
        let at = at + child.box_size() as usize;

        let rest = tail(buffer, at);
        let child = match BoxHeader::from_child(rest, end - at, STCO) {
            Ok(child) => child,
            Err(error) => return Err(error),
        };
        let stco = match ChunkOffsetBox::from_buffer(rest) {
            Ok(stco) => stco,
            Err(error) => return Err(error),
        };
        Ok(SampleTableBox { header, stsd, stts, stsc, stsz, stco })
    }

    /// The header of the box.
    pub fn get_header(&self) -> (header: &BoxHeader)
        ensures
            header@ == self@.header,
    {
        &self.header
    }

    pub fn get_sample_description(&self) -> (stsd: &SampleDescriptionBox)
        ensures
            stsd@ == self@.stsd,
    {
        &self.stsd
    }

    pub fn get_time_to_sample(&self) -> (stts: &TimeToSampleBox)
        ensures
            stts@ == self@.stts,
    {
        &self.stts
    }

    pub fn get_sample_to_chunk(&self) -> (stsc: &SampleToChunkBox)
        ensures
            stsc@ == self@.stsc,
    {
        &self.stsc
    }

    pub fn get_sample_size(&self) -> (stsz: &SampleSizeBox)
        ensures
            stsz@ == self@.stsz,
    {
        &self.stsz
    }

    pub fn get_chunk_offset(&self) -> (stco: &ChunkOffsetBox)
        ensures
            stco@ == self@.stco,
    {
        &self.stco
    }
}

} // verus!
