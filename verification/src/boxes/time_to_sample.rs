//! The time-to-sample box: runs of samples that last equally long.
use crate::boxes::header::{BoxHeader, BoxHeaderView};
use crate::bytes::{be_u32, read_u32};
use crate::error::{view_of, ParseError};
use crate::table::{decode_list_head, read_list_head};
use vstd::prelude::*;

verus! {

/// A time-to-sample box: an entry count and, for each run of samples, the
/// number of samples in it and the duration of each.
#[derive(Debug, Clone)]
pub struct TimeToSampleBox {
    header: BoxHeader,
    entry_count: u32,
    entries: Vec<(u32, u32)>,
}

/// What a time-to-sample box holds, as plain values.
pub struct TimeToSampleView {
    pub header: BoxHeaderView,
    /// The count field, as it stands in the file.
    pub entry_count: u32,
    /// The pairs of sample count and sample duration, in file order.
    pub entries: Seq<(u32, u32)>,
}

impl TimeToSampleView {
    /// The entry that occupies the eight bytes from `at` on.
    pub open spec fn entry_at(bytes: Seq<u8>, at: int) -> (u32, u32) {
        (be_u32(bytes, at), be_u32(bytes, at + 4))
    }

    /// The time-to-sample box at the start of `bytes`.
    pub open spec fn decode(bytes: Seq<u8>) -> Result<TimeToSampleView, ParseError> {
        match decode_list_head(bytes, 8) {
            Err(error) => Err(error),
            Ok(head) => Ok(
                TimeToSampleView {
                    header: head.header,
                    entry_count: head.entry_count,
                    entries: Seq::new(
                        head.held,
                        |i: int| Self::entry_at(bytes, head.first + 8 * i),
                    ),
                },
            ),
        }
    }
}

impl View for TimeToSampleBox {
    type V = TimeToSampleView;

    closed spec fn view(&self) -> TimeToSampleView {
        TimeToSampleView {
            header: self.header@,
            entry_count: self.entry_count,
            entries: self.entries@,
        }
    }
}

impl TimeToSampleBox {
    /// Decodes the time-to-sample box at the start of `buffer`.
    pub fn from_buffer(buffer: &[u8]) -> (decoded: Result<Self, ParseError>)
        ensures
            view_of(decoded) == TimeToSampleView::decode(buffer@),
    {
        let (header, entry_count, first, held) = match read_list_head(buffer, 8) {
            Ok(head) => head,
            Err(error) => return Err(error),
        };
        let mut entries: Vec<(u32, u32)> = Vec::new();
        let mut i: usize = 0;
        while i < held
            invariant
                i <= held,
                first + 8 * held <= buffer.len(),
                entries@.len() == i,
                forall|k: int|
                    0 <= k < i ==> entries@[k] == TimeToSampleView::entry_at(
                        buffer@,
                        first + 8 * k,
                    ),
            decreases held - i,
        {
            let at = first + 8 * i;
            entries.push((read_u32(buffer, at), read_u32(buffer, at + 4)));
            i = i + 1;
        }
        assert(entries@ =~= Seq::new(
            held as nat,
            |i: int| TimeToSampleView::entry_at(buffer@, first + 8 * i),
        ));
        Ok(TimeToSampleBox { header, entry_count, entries })
    }

    /// The header of the box.
    pub fn get_header(&self) -> (header: &BoxHeader)
        ensures
            header@ == self@.header,
    {
        &self.header
    }

    /// The count field, as it stands in the file.
    pub fn get_entry_count(&self) -> (count: u32)
        ensures
            count == self@.entry_count,
    {
        self.entry_count
    }

    /// The pairs of sample count and sample duration, in file order.
    pub fn get_entries(&self) -> (entries: &[(u32, u32)])
        ensures
            entries@ == self@.entries,
    {
        self.entries.as_slice()
    }
}

} // verus!
