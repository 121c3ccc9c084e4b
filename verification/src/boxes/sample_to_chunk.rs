//! The sample-to-chunk box: how the samples are grouped into chunks.
use crate::boxes::header::{BoxHeader, BoxHeaderView};
use crate::bytes::{be_u32, read_u32};
use crate::error::{view_of, ParseError};
use crate::table::{decode_list_head, read_list_head};
use vstd::prelude::*;

verus! {

/// A sample-to-chunk box: an entry count and, for each run of chunks, the
/// first chunk of the run, the samples in each chunk, and the index of the
/// sample description that they use.
#[derive(Debug, Clone)]
pub struct SampleToChunkBox {
    header: BoxHeader,
    entry_count: u32,
    entries: Vec<(u32, u32, u32)>,
}

/// What a sample-to-chunk box holds, as plain values.
pub struct SampleToChunkView {
    pub header: BoxHeaderView,
    /// The count field, as it stands in the file.
    pub entry_count: u32,
    /// The triples of first chunk, samples per chunk and sample description
    /// index, in file order.
    pub entries: Seq<(u32, u32, u32)>,
}

impl SampleToChunkView {
    /// The entry that occupies the twelve bytes from `at` on.
    pub open spec fn entry_at(bytes: Seq<u8>, at: int) -> (u32, u32, u32) {
        (be_u32(bytes, at), be_u32(bytes, at + 4), be_u32(bytes, at + 8))
    }

    /// The sample-to-chunk box at the start of `bytes`.
    pub open spec fn decode(bytes: Seq<u8>) -> Result<SampleToChunkView, ParseError> {
        match decode_list_head(bytes, 12) {
            Err(error) => Err(error),
            Ok(head) => Ok(
                SampleToChunkView {
                    header: head.header,
                    entry_count: head.entry_count,
                    entries: Seq::new(
                        head.held,
                        |i: int| Self::entry_at(bytes, head.first + 12 * i),
                    ),
                },
            ),
        }
    }
}

impl View for SampleToChunkBox {
    type V = SampleToChunkView;

    closed spec fn view(&self) -> SampleToChunkView {
        SampleToChunkView {
            header: self.header@,
            entry_count: self.entry_count,
            entries: self.entries@,
        }
    }
}

impl SampleToChunkBox {
    /// Decodes the sample-to-chunk box at the start of `buffer`.
    pub fn from_buffer(buffer: &[u8]) -> (decoded: Result<Self, ParseError>)
        ensures
            view_of(decoded) == SampleToChunkView::decode(buffer@),
    {
        let (header, entry_count, first, held) = match read_list_head(buffer, 12) {
            Ok(head) => head,
            Err(error) => return Err(error),
        };
        let mut entries: Vec<(u32, u32, u32)> = Vec::new();
        let mut i: usize = 0;
        while i < held
            invariant
                i <= held,
                first + 12 * held <= buffer.len(),
                entries@.len() == i,
                forall|k: int|
                    0 <= k < i ==> entries@[k] == SampleToChunkView::entry_at(
                        buffer@,
                        first + 12 * k,
                    ),
            decreases held - i,
        {
            let at = first + 12 * i;
            let first_chunk = read_u32(buffer, at);
            let samples_per_chunk = read_u32(buffer, at + 4);
            let description_index = read_u32(buffer, at + 8);
            entries.push((first_chunk, samples_per_chunk, description_index));
            i = i + 1;
        }
        assert(entries@ =~= Seq::new(
            held as nat,
            |i: int| SampleToChunkView::entry_at(buffer@, first + 12 * i),
        ));
        Ok(SampleToChunkBox { header, entry_count, entries })
    }

    /// The header of the box.
    pub fn get_header(&self) -> (header: &BoxHeader)
        ensures
            header@ == self@.header,
    {
        &self.header
    }

    /// The count field, as it stands in the file.
    pub fn get_entry_count(&self) -> (count: u32)
        ensures
            count == self@.entry_count,
    {
        self.entry_count
    }

    /// The triples of first chunk, samples per chunk and sample description
    /// index, in file order.
    pub fn get_entries(&self) -> (entries: &[(u32, u32, u32)])
        ensures
            entries@ == self@.entries,
    {
        self.entries.as_slice()
    }
}

} // verus!
