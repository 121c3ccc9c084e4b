//! The prologue that every box begins with: a 32-bit size, a four-byte
//! type and, when the size field holds the sentinel, a 64-bit size.
use crate::bytes::{be_u32, be_u64, read_bytes, read_u32, read_u64};
use crate::error::{view_of, ParseError};
use crate::text::{all_ascii, ascii_text, bytes_to_text, is_ascii_bytes, utf8_lossy};
use vstd::prelude::*;

verus! {

/// The value of the size field that announces a 64-bit size after the type.
pub const EXTENDED_SIZE_MARK: u32 = 0xFFFF_FFFF;

/// The header of a box.
#[derive(Debug, Clone)]
pub struct BoxHeader {
    size: u32,
    box_type: [u8; 4],
    extended_size: Option<u64>,
}

/// What a header holds, as plain values.
pub struct BoxHeaderView {
    /// The 32-bit size field as it stands in the file.
    pub size: u32,
    /// The four bytes of the type.
    pub box_type: Seq<u8>,
    /// The 64-bit size, present exactly when `size` is the sentinel.
    pub extended_size: Option<u64>,
}

impl BoxHeaderView {
    /// The type has four bytes, and the 64-bit size is there exactly when
    /// the size field announces it.
    pub open spec fn wf(self) -> bool {
        &&& self.box_type.len() == 4
        &&& self.size == EXTENDED_SIZE_MARK <==> self.extended_size is Some
    }

    /// The number of bytes that the header itself occupies.
    pub open spec fn header_len(self) -> nat {
        if self.extended_size is Some {
            16
        } else {
            8
        }
    }

    /// The length that the box declares for itself, header included.
    pub open spec fn box_size(self) -> nat {
        match self.extended_size {
            Some(extended) => extended as nat,
            None => self.size as nat,
        }
    }

    /// The type as the big-endian integer that its four bytes spell.
    pub open spec fn type_code(self) -> u32 {
        be_u32(self.box_type, 0)
    }

    /// The header at the start of `bytes`.
    pub open spec fn decode(bytes: Seq<u8>) -> Result<BoxHeaderView, ParseError> {
        if bytes.len() < 8 {
            Err(ParseError::BufferTooShort)
        } else if be_u32(bytes, 0) == EXTENDED_SIZE_MARK && bytes.len() < 16 {
            Err(ParseError::BufferTooShort)
        } else if !is_ascii_bytes(bytes.subrange(4, 8)) {
            Err(ParseError::InvalidTag)
        } else {
            Ok(
                BoxHeaderView {
                    size: be_u32(bytes, 0),
                    box_type: bytes.subrange(4, 8),
                    extended_size: if be_u32(bytes, 0) == EXTENDED_SIZE_MARK {
                        Some(be_u64(bytes, 8))
                    } else {
                        None
                    },
                },
            )
        }
    }

    /// Whether a box with this header lies within `room` bytes: its declared
    /// length covers its own header and does not exceed `room`.
    pub open spec fn fits(self, room: nat) -> Result<(), ParseError> {
        if self.box_size() < self.header_len() {
            Err(ParseError::Overrun)
        } else if self.box_size() > room {
            Err(ParseError::TruncatedPayload)
        } else {
            Ok(())
        }
    }

    /// The header of the box that `bytes` starts with, provided that the
    /// whole box, as long as it declares itself, is in `bytes`.
    pub open spec fn decode_box(bytes: Seq<u8>) -> Result<BoxHeaderView, ParseError> {
        match Self::decode(bytes) {
            Err(error) => Err(error),
            Ok(header) => match header.fits(bytes.len()) {
                Err(error) => Err(error),
                Ok(_) => Ok(header),
            },
        }
    }

    /// The header of a child that its parent expects at the start of
    /// `bytes`: of type `code`, and ending within the `room` bytes that are
    /// left of the parent.
    pub open spec fn decode_child(bytes: Seq<u8>, room: nat, code: u32) -> Result<
        BoxHeaderView,
        ParseError,
    > {
        match Self::decode(bytes) {
            Err(error) => Err(error),
            Ok(header) => if header.type_code() != code {
                Err(ParseError::UnexpectedType)
            } else if header.box_size() < header.header_len() || header.box_size() > room {
                Err(ParseError::Overrun)
            } else {
                Ok(header)
            },
        }
    }
}

impl View for BoxHeader {
    type V = BoxHeaderView;

    closed spec fn view(&self) -> BoxHeaderView {
        BoxHeaderView {
            size: self.size,
            box_type: self.box_type@,
            extended_size: self.extended_size,
        }
    }
}

impl BoxHeader {
    /// A header without a 64-bit size. Given the sentinel as `size`, the
    /// header carries a 64-bit size of zero.
    pub fn new(size: u32, box_type: [u8; 4]) -> (header: Self)
        ensures
            header@.wf(),
            header@.size == size,
            header@.box_type == box_type@,
            header@.extended_size == (if size == EXTENDED_SIZE_MARK {
                Some(0u64)
            } else {
                None
            }),
    {
        BoxHeader {
            size,
            box_type,
            extended_size: if size == EXTENDED_SIZE_MARK {
                Some(0)
            } else {
                None
            },
        }
    }

    /// A header whose size field holds the sentinel and whose 64-bit size
    /// is `extended_size`.
    pub fn new_with_extended_size(extended_size: u64, box_type: [u8; 4]) -> (header: Self)
        ensures
            header@.wf(),
            header@.size == EXTENDED_SIZE_MARK,
            header@.box_type == box_type@,
            header@.extended_size == Some(extended_size),
    {
        BoxHeader { size: EXTENDED_SIZE_MARK, box_type, extended_size: Some(extended_size) }
    }

    /// Decodes the header at the start of `header`. Nothing is asked of the
    /// bytes behind it.
    pub fn from_buffer(header: &[u8]) -> (decoded: Result<Self, ParseError>)
        ensures
            view_of(decoded) == BoxHeaderView::decode(header@),
            decoded matches Ok(h) ==> h@.wf() && is_ascii_bytes(h@.box_type),
    {
        if header.len() < 8 {
            return Err(ParseError::BufferTooShort);
        }
        let size = read_u32(header, 0);
        if size == EXTENDED_SIZE_MARK && header.len() < 16 {
            return Err(ParseError::BufferTooShort);
        }
        let box_type: [u8; 4] = read_bytes(header, 4);
        if !all_ascii(box_type.as_slice()) {
            return Err(ParseError::InvalidTag);
        }
        let extended_size = if size == EXTENDED_SIZE_MARK {
            Some(read_u64(header, 8))
        } else {
            None
        };
        Ok(BoxHeader { size, box_type, extended_size })
    }

    /// Decodes the header at the start of `buffer` and checks that the box
    /// is as long as its header at least, and wholly inside `buffer`.
    pub fn from_box(buffer: &[u8]) -> (decoded: Result<Self, ParseError>)
        ensures
            view_of(decoded) == BoxHeaderView::decode_box(buffer@),
    {
        let header = match Self::from_buffer(buffer) {
            Ok(header) => header,
            Err(error) => return Err(error),
        };
        match header.check_fits(buffer.len()) {
            Ok(_) => Ok(header),
            Err(error) => Err(error),
        }
    }

    /// Decodes the header of a child at the start of `buffer`, where the
    /// parent expects the type `code` and has `room` bytes left.
    pub fn from_child(buffer: &[u8], room: usize, code: u32) -> (decoded: Result<Self, ParseError>)
        ensures
            view_of(decoded) == BoxHeaderView::decode_child(buffer@, room as nat, code),
    {
        let header = match Self::from_buffer(buffer) {
            Ok(header) => header,
            Err(error) => return Err(error),
        };
        if header.type_code() != code {
            return Err(ParseError::UnexpectedType);
        }
        if header.box_size() < header.total_size() as u64 || header.box_size() > room as u64 {
            return Err(ParseError::Overrun);
        }
        Ok(header)
    }

    /// Checks the declared length against the header's own length and
    /// against the `room` that the buffer has.
    pub fn check_fits(&self, room: usize) -> (checked: Result<(), ParseError>)
        ensures
            checked == self@.fits(room as nat),
    {
        if self.box_size() < self.total_size() as u64 {
            Err(ParseError::Overrun)
        } else if self.box_size() > room as u64 {
            Err(ParseError::TruncatedPayload)
        } else {
            Ok(())
        }
    }

    /// The size field as it stands in the file.
    pub fn size(&self) -> (size: u32)
        ensures
            size == self@.size,
    {
        self.size
    }

    /// The type as text. A type made of ASCII bytes, as every decoded
    /// header has, reads as those four characters.
    pub fn box_type(&self) -> (text: String)
        ensures
            text@ == utf8_lossy(self@.box_type),
            is_ascii_bytes(self@.box_type) ==> text@ == ascii_text(self@.box_type),
    {
        bytes_to_text(self.box_type.as_slice())
    }

    /// The type as text; another name for `box_type`.
    pub fn get_box_type(&self) -> (text: String)
        ensures
            text@ == utf8_lossy(self@.box_type),
            is_ascii_bytes(self@.box_type) ==> text@ == ascii_text(self@.box_type),
    {
        self.box_type()
    }

    /// The four bytes of the type.
    pub fn type_bytes(&self) -> (bytes: &[u8; 4])
        ensures
            bytes@ == self@.box_type,
    {
        &self.box_type
    }

    /// The type as the big-endian integer that its four bytes spell.
    pub fn type_code(&self) -> (code: u32)
        ensures
            code == self@.type_code(),
    {
        read_u32(self.box_type.as_slice(), 0)
    }

    /// The 64-bit size, where the header has one.
    pub fn extended_size(&self) -> (extended: Option<u64>)
        ensures
            extended == self@.extended_size,
    {
        self.extended_size
    }

    /// The number of bytes that the header itself occupies: 16 with a
    /// 64-bit size, 8 without.
    pub fn total_size(&self) -> (len: usize)
        ensures
            len == self@.header_len(),
    {
        if self.extended_size.is_some() {
            16
        } else {
            8
        }
    }

    /// The offset just behind a header that starts at `seek`.
    pub fn get_end_range(&self, seek: usize) -> (end: usize)
        requires
            seek + self@.header_len() <= usize::MAX,
        ensures
            end == seek + self@.header_len(),
    {
        seek + self.total_size()
    }

    /// The length that the box declares for itself, header included: the
    /// 64-bit size where there is one, the size field otherwise.
    pub fn box_size(&self) -> (len: u64)
        ensures
            len == self@.box_size(),
    {
        match self.extended_size {
            Some(extended) => extended,
            None => self.size as u64,
        }
    }
}

} // verus!
