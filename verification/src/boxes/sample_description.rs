//! The sample description box: what the samples are and how they are coded.
use crate::boxes::header::{BoxHeader, BoxHeaderView};
use crate::bytes::{be_u32, read_u32};
use crate::error::{view_of, ParseError};
use vstd::prelude::*;
use vstd::slice::slice_to_vec;

verus! {

/// A sample description box: a count, and the descriptions as the bytes
/// they are, undecoded.
#[derive(Debug, Clone)]
pub struct SampleDescriptionBox {
    header: BoxHeader,
    sample_count: u32,
    sample_description: Vec<u8>,
}

/// What a sample description box holds, as plain values.
pub struct SampleDescriptionView {
    pub header: BoxHeaderView,
    /// The count field, as it stands in the file.
    pub sample_count: u32,
    /// The bytes behind the count, up to the end that the box declares.
    pub sample_description: Seq<u8>,
}

impl SampleDescriptionView {
    /// The sample description box at the start of `bytes`.
    pub open spec fn decode(bytes: Seq<u8>) -> Result<SampleDescriptionView, ParseError> {
        match BoxHeaderView::decode_box(bytes) {
            Err(error) => Err(error),
            Ok(header) => {
                let first = header.header_len() + 4;
                if bytes.len() < first {
                    Err(ParseError::TruncatedPayload)
                } else {
                    Ok(
                        SampleDescriptionView {
                            header,
                            sample_count: be_u32(bytes, header.header_len() as int),
                            sample_description: if header.box_size() > first {
                                bytes.subrange(first as int, header.box_size() as int)
                            } else {
                                Seq::empty()
                            },
                        },
                    )
                }
            },
        }
    }
}

impl View for SampleDescriptionBox {
    type V = SampleDescriptionView;

    closed spec fn view(&self) -> SampleDescriptionView {
        SampleDescriptionView {
            header: self.header@,
            sample_count: self.sample_count,
            sample_description: self.sample_description@,
        }
    }
}

impl SampleDescriptionBox {
    /// Decodes the sample description box at the start of `buffer`.
    pub fn from_buffer(buffer: &[u8]) -> (decoded: Result<Self, ParseError>)
        ensures
            view_of(decoded) == SampleDescriptionView::decode(buffer@),
    {
        let header = match BoxHeader::from_box(buffer) {
            Ok(header) => header,
            Err(error) => return Err(error),
        };
        let start = header.total_size();
        if buffer.len() - start < 4 {
            return Err(ParseError::TruncatedPayload);
        }
        let first = start + 4;
        let sample_count = read_u32(buffer, start);
        let box_size = header.box_size() as usize;
        let sample_description = if box_size > first {
            slice_to_vec(&buffer[first..box_size])
        } else {
            Vec::new()
        };
        Ok(SampleDescriptionBox { header, sample_count, sample_description })
    }

    /// The count field, as it stands in the file.
    pub fn get_sample_count(&self) -> (count: u32)
        ensures
            count == self@.sample_count,
    {
        self.sample_count
    }

    /// The descriptions, as the bytes they are.
    pub fn get_sample_description(&self) -> (description: &[u8])
        ensures
            description@ == self@.sample_description,
    {
        self.sample_description.as_slice()
    }

    /// The header of the box.
    pub fn get_header(&self) -> (header: &BoxHeader)
        ensures
            header@ == self@.header,
    {
        &self.header
    }
}

} // verus!
