//! The chunk offset box: where in the file each chunk begins.
use crate::boxes::header::{BoxHeader, BoxHeaderView};
use crate::bytes::{be_u32_run, read_u32_run};
use crate::error::{view_of, ParseError};
use crate::table::{decode_list_head, read_list_head};
use vstd::prelude::*;

verus! {

/// A chunk offset box: an entry count and one 32-bit file offset for each
/// chunk.
#[derive(Debug, Clone)]
pub struct ChunkOffsetBox {
    header: BoxHeader,
    entry_count: u32,
    chunk_offsets: Vec<u32>,
}

/// What a chunk offset box holds, as plain values.
pub struct ChunkOffsetView {
    pub header: BoxHeaderView,
    /// The count field, as it stands in the file.
    pub entry_count: u32,
    /// The offsets that the box holds, in file order.
    pub chunk_offsets: Seq<u32>,
}

impl ChunkOffsetView {
    /// The chunk offset box at the start of `bytes`.
    pub open spec fn decode(bytes: Seq<u8>) -> Result<ChunkOffsetView, ParseError> {
        match decode_list_head(bytes, 4) {
            Err(error) => Err(error),
            Ok(head) => Ok(
                ChunkOffsetView {
                    header: head.header,
                    entry_count: head.entry_count,
                    chunk_offsets: be_u32_run(bytes, head.first as int, head.held),
                },
            ),
        }
    }
}

impl View for ChunkOffsetBox {
    type V = ChunkOffsetView;

    closed spec fn view(&self) -> ChunkOffsetView {
        ChunkOffsetView {
            header: self.header@,
            entry_count: self.entry_count,
            chunk_offsets: self.chunk_offsets@,
        }
    }
}

impl ChunkOffsetBox {
    /// Decodes the chunk offset box at the start of `buffer`.
    pub fn from_buffer(buffer: &[u8]) -> (decoded: Result<Self, ParseError>)
        ensures
            view_of(decoded) == ChunkOffsetView::decode(buffer@),
    {
        let (header, entry_count, first, held) = match read_list_head(buffer, 4) {
            Ok(head) => head,
            Err(error) => return Err(error),
        };
        let chunk_offsets = read_u32_run(buffer, first, held);
        Ok(ChunkOffsetBox { header, entry_count, chunk_offsets })
    }

    /// The count field, as it stands in the file.
    pub fn entry_count(&self) -> (count: u32)
        ensures
            count == self@.entry_count,
    {
        self.entry_count
    }

    /// The offsets that the box holds, in file order.
    pub fn chunk_offsets(&self) -> (offsets: &Vec<u32>)
        ensures
            offsets@ == self@.chunk_offsets,
    {
        &self.chunk_offsets
    }

    /// The header of the box.
    pub fn header(&self) -> (header: &BoxHeader)
        ensures
            header@ == self@.header,
    {
        &self.header
    }
}

} // verus!
