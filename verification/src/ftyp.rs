//! The file type box, found at an offset of a larger buffer.
use crate::boxes::ftyp::{Ftyp, FtypView};
use crate::boxes::header::{BoxHeader, BoxHeaderView};
use crate::boxes::FTYP;
use crate::bytes::tail;
use crate::error::ParseError;
use crate::text::{ascii_text, is_ascii_bytes, utf8_lossy};
use vstd::prelude::*;

verus! {

/// A file type box that was decoded at an offset of a buffer and checked
/// to be of the type `ftyp`.
#[derive(Debug)]
pub struct FtypBox {
    inner: Ftyp,
}

impl View for FtypBox {
    type V = FtypView;

    closed spec fn view(&self) -> FtypView {
        self.inner@
    }
}

impl FtypBox {
    /// The file type box that starts at the offset `seek` of `bytes`. An
    /// offset behind the end leaves no bytes for a header; a box of another
    /// type than `ftyp` is refused.
    pub open spec fn decode_at(seek: nat, bytes: Seq<u8>) -> Result<FtypView, ParseError> {
        if seek > bytes.len() {
            Err(ParseError::BufferTooShort)
        } else {
            let rest = bytes.subrange(seek as int, bytes.len() as int);
            match BoxHeaderView::decode(rest) {
                Err(error) => Err(error),
                Ok(header) => if header.type_code() != FTYP {
                    Err(ParseError::UnexpectedType)
                } else {
                    FtypView::decode(rest)
                },
            }
        }
    }

    /// Decodes the file type box that starts at the offset `seek` of
    /// `buffer`.
    pub fn from_buffer(seek: usize, buffer: &[u8]) -> (decoded: Result<Self, ParseError>)
        ensures
            match decoded {
                Ok(ftyp) => Self::decode_at(seek as nat, buffer@) == Ok::<FtypView, ParseError>(
                    ftyp@,
                ),
                Err(error) => Self::decode_at(seek as nat, buffer@) == Err::<FtypView, ParseError>(
                    error,
                ),
            },
    {
        if seek > buffer.len() {
            return Err(ParseError::BufferTooShort);
        }
        let rest = tail(buffer, seek);
        let header = match BoxHeader::from_buffer(rest) {
            Ok(header) => header,
            Err(error) => return Err(error),
        };
        if header.type_code() != FTYP {
            return Err(ParseError::UnexpectedType);
        }
        match Ftyp::from_buffer(rest) {
            Ok(inner) => Ok(FtypBox { inner }),
            Err(error) => Err(error),
        }
    }

    /// The major brand as text.
    pub fn major_brand(&self) -> (text: String)
        ensures
            text@ == utf8_lossy(self@.major_brand),
            is_ascii_bytes(self@.major_brand) ==> text@ == ascii_text(self@.major_brand),
    {
        self.inner.major_brand()
    }

    pub fn minor_version(&self) -> (version: u32)
        ensures
            version == self@.minor_version,
    {
        self.inner.minor_version()
    }

    /// The compatible brands as text, in file order.
    pub fn compatible_brands(&self) -> (texts: Vec<String>)
        ensures
            texts@.len() == self@.compatible_brands.len(),
            forall|i: int|
                0 <= i < texts@.len() ==> (#[trigger] texts@[i])@ == utf8_lossy(
                    self@.compatible_brands[i],
                ),
            forall|i: int|
                0 <= i < texts@.len() && is_ascii_bytes(self@.compatible_brands[i]) ==> (
                #[trigger] texts@[i])@ == ascii_text(self@.compatible_brands[i]),
    {
        self.inner.compatible_brands()
    }

    /// The offset just behind a box that starts at `seek`, by the length
    /// that the box declares.
    pub fn get_end_range(&self, seek: usize) -> (end: usize)
        requires
            seek + self@.header.box_size() <= usize::MAX,
        ensures
            end == seek + self@.header.box_size(),
    {
        seek + self.inner.header().box_size() as usize
    }
}

} // verus!
