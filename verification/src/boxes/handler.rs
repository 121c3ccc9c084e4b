//! The handler box: what kind of media a track carries.
use crate::boxes::header::{BoxHeader, BoxHeaderView};
use crate::bytes::read_bytes;
use crate::error::{view_of, ParseError};
use crate::text::{ascii_text, bytes_to_text, is_ascii_bytes, utf8_lossy};
use vstd::prelude::*;
use vstd::slice::slice_to_vec;
use vstd::utf8::{encode_utf8, valid_utf8};

verus! {

/// A handler box.
#[derive(Debug, Clone)]
pub struct HandlerBox {
    header: BoxHeader,
    version: u8,
    flags: [u8; 3],
    handler_type: [u8; 4],
    reserved: [u8; 12],
    name: Vec<u8>,
}

/// What a handler box holds, as plain values.
pub struct HandlerView {
    pub header: BoxHeaderView,
    pub version: u8,
    /// The three flag bytes.
    pub flags: Seq<u8>,
    /// The four bytes of the handler type, such as `vide` or `soun`.
    pub handler_type: Seq<u8>,
    /// The twelve reserved bytes.
    pub reserved: Seq<u8>,
    /// The bytes of the name, without the zero byte that ends it.
    pub name: Seq<u8>,
}

/// The offset of the first zero byte at or behind `from`, or the length of
/// `bytes` where there is none.
pub open spec fn first_zero(bytes: Seq<u8>, from: int) -> int
    decreases bytes.len() - from,
{
    if from >= bytes.len() {
        bytes.len() as int
    } else if bytes[from] == 0 {
        from
    } else {
        first_zero(bytes, from + 1)
    }
}

/// `first_zero` names the place where a zero-terminated string ends: no
/// byte before it is zero, and it is a zero byte or the end of the buffer.
pub proof fn lemma_first_zero(bytes: Seq<u8>, from: int)
    requires
        0 <= from <= bytes.len(),
    ensures
        from <= first_zero(bytes, from) <= bytes.len(),
        forall|i: int| from <= i < first_zero(bytes, from) ==> bytes[i] != 0,
        first_zero(bytes, from) < bytes.len() ==> bytes[first_zero(bytes, from)] == 0,
    decreases bytes.len() - from,
{
    if from < bytes.len() && bytes[from] != 0 {
        lemma_first_zero(bytes, from + 1);
    }
}

impl HandlerView {
    /// The handler box at the start of `bytes`. The name runs from behind
    /// the reserved bytes to the first zero byte, or to the end of `bytes`
    /// where no zero byte follows.
    pub open spec fn decode(bytes: Seq<u8>) -> Result<HandlerView, ParseError> {
        match BoxHeaderView::decode_box(bytes) {
            Err(error) => Err(error),
            Ok(header) => {
                let start = header.header_len() as int;
                if bytes.len() < start + 20 {
                    Err(ParseError::TruncatedPayload)
                } else {
                    Ok(
                        HandlerView {
                            header,
                            version: bytes[start],
                            flags: bytes.subrange(start + 1, start + 4),
                            handler_type: bytes.subrange(start + 4, start + 8),
                            reserved: bytes.subrange(start + 8, start + 20),
                            name: bytes.subrange(start + 20, first_zero(bytes, start + 20)),
                        },
                    )
                }
            },
        }
    }
}

impl View for HandlerBox {
    type V = HandlerView;

    closed spec fn view(&self) -> HandlerView {
        HandlerView {
            header: self.header@,
            version: self.version,
            flags: self.flags@,
            handler_type: self.handler_type@,
            reserved: self.reserved@,
            name: self.name@,
        }
    }
}

/// Finds the first zero byte at or behind `from`.
fn find_zero(buffer: &[u8], from: usize) -> (end: usize)
    requires
        from <= buffer.len(),
    ensures
        end == first_zero(buffer@, from as int),
        from <= end <= buffer.len(),
{
    let mut end: usize = from;
    while end < buffer.len() && buffer[end] != 0
        invariant
            from <= end <= buffer.len(),
            first_zero(buffer@, from as int) == first_zero(buffer@, end as int),
        decreases buffer.len() - end,
    {
        end = end + 1;
    }
    end
}

impl HandlerBox {
    /// Decodes the handler box at the start of `buffer`.
    pub fn from_buffer(buffer: &[u8]) -> (decoded: Result<Self, ParseError>)
        ensures
            view_of(decoded) == HandlerView::decode(buffer@),
    {
        let header = match BoxHeader::from_box(buffer) {
            Ok(header) => header,
            Err(error) => return Err(error),
        };
        let start = header.total_size();
        if buffer.len() - start < 20 {
            return Err(ParseError::TruncatedPayload);
        }
        let version = buffer[start];
        let flags: [u8; 3] = read_bytes(buffer, start + 1);
        let handler_type: [u8; 4] = read_bytes(buffer, start + 4);
        let reserved: [u8; 12] = read_bytes(buffer, start + 8);
        let name_end = find_zero(buffer, start + 20);
        let name = slice_to_vec(&buffer[start + 20..name_end]);
        Ok(HandlerBox { header, version, flags, handler_type, reserved, name })
    }

    /// The header of the box.
    pub fn header(&self) -> (header: &BoxHeader)
        ensures
            header@ == self@.header,
    {
        &self.header
    }

    pub fn version(&self) -> (version: u8)
        ensures
            version == self@.version,
    {
        self.version
    }

    /// The three flag bytes.
    pub fn flags(&self) -> (flags: &[u8; 3])
        ensures
            flags@ == self@.flags,
    {
        &self.flags
    }

    /// The four bytes of the handler type.
    pub fn handler_type(&self) -> (handler_type: &[u8; 4])
        ensures
            handler_type@ == self@.handler_type,
    {
        &self.handler_type
    }

    /// The twelve reserved bytes.
    pub fn reserved(&self) -> (reserved: &[u8; 12])
        ensures
            reserved@ == self@.reserved,
    {
        &self.reserved
    }

    /// The name as text: its bytes read as UTF-8, with U+FFFD for each
    /// malformed part. A name made of ASCII bytes reads as those characters.
    pub fn name(&self) -> (text: String)
        ensures
            text@ == utf8_lossy(self@.name),
            valid_utf8(self@.name) ==> encode_utf8(text@) == self@.name,
            is_ascii_bytes(self@.name) ==> text@ == ascii_text(self@.name),
    {
        bytes_to_text(self.name.as_slice())
    }
}

} // verus!
