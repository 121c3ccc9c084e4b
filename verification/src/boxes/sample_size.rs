//! The sample size box: how many bytes each sample has.
use crate::boxes::header::{BoxHeader, BoxHeaderView};
use crate::bytes::{be_u32_run, read_u32_run};
use crate::error::{view_of, ParseError};
use crate::table::{decode_list_head, read_list_head};
use vstd::prelude::*;

verus! {

/// A sample size box: a sample count and one 32-bit size for each sample.
#[derive(Debug, Clone)]
pub struct SampleSizeBox {
    header: BoxHeader,
    sample_count: u32,
    sample_sizes: Vec<u32>,
}

/// What a sample size box holds, as plain values.
pub struct SampleSizeView {
    pub header: BoxHeaderView,
    /// The count field, as it stands in the file.
    pub sample_count: u32,
    /// The sizes that the box holds, in file order.
    pub sample_sizes: Seq<u32>,
}

impl SampleSizeView {
    /// The sample size box at the start of `bytes`.
    pub open spec fn decode(bytes: Seq<u8>) -> Result<SampleSizeView, ParseError> {
        match decode_list_head(bytes, 4) {
            Err(error) => Err(error),
            Ok(head) => Ok(
                SampleSizeView {
                    header: head.header,
                    sample_count: head.entry_count,
                    sample_sizes: be_u32_run(bytes, head.first as int, head.held),
                },
            ),
        }
    }
}

impl View for SampleSizeBox {
    type V = SampleSizeView;

    closed spec fn view(&self) -> SampleSizeView {
        SampleSizeView {
            header: self.header@,
            sample_count: self.sample_count,
            sample_sizes: self.sample_sizes@,
        }
    }
}

impl SampleSizeBox {
    /// Decodes the sample size box at the start of `buffer`.
    pub fn from_buffer(buffer: &[u8]) -> (decoded: Result<Self, ParseError>)
        ensures
            view_of(decoded) == SampleSizeView::decode(buffer@),
    {
        let (header, sample_count, first, held) = match read_list_head(buffer, 4) {
            Ok(head) => head,
            Err(error) => return Err(error),
        };
        let sample_sizes = read_u32_run(buffer, first, held);
        Ok(SampleSizeBox { header, sample_count, sample_sizes })
    }

    /// The count field, as it stands in the file.
    pub fn get_sample_count(&self) -> (count: u32)
        ensures
            count == self@.sample_count,
    {
        self.sample_count
    }

    /// The sizes that the box holds, in file order.
    pub fn get_sample_sizes(&self) -> (sizes: &[u32])
        ensures
            sizes@ == self@.sample_sizes,
    {
        self.sample_sizes.as_slice()
    }

    /// The header of the box.
    pub fn get_header(&self) -> (header: &BoxHeader)
        ensures
            header@ == self@.header,
    {
        &self.header
    }
}

} // verus!
