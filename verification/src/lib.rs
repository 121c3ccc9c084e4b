//! A decoder for the ISO Base Media File Format: the nested, size-prefixed
//! boxes of an MP4 file are read from one byte buffer into a tree of typed
//! values.
//!
//! Each kind of box has a type that holds it, a view that shows what it
//! holds as plain values, and a `decode` function on byte sequences that
//! says what a buffer decodes to: the view of a box, or the error. The
//! executable `from_buffer` of each type is proved to return exactly that.
//! What follows from the `decode` functions for every input is collected
//! in the module `laws`.
use crate::boxes::ftyp::{Ftyp, FtypView};
use crate::boxes::header::{BoxHeader, BoxHeaderView};
use crate::boxes::moov::{MovieBox, MovieView};
use crate::boxes::{FTYP, MOOV};
use crate::bytes::tail;
use crate::error::{view_of, ParseError};
use crate::mp4::{MP4View, MP4};
use vstd::prelude::*;

pub mod bytes;
pub mod error;
pub mod boxes;
pub mod fixed;
pub mod ftyp;
pub mod laws;
pub mod mp4;
pub mod table;
pub mod text;
pub mod utils;

verus! {

/// The decoder of whole files.
pub struct MP4Parser {}

impl MP4Parser {
    /// What a whole file decodes to: its boxes are walked from the first
    /// byte on, with nothing found yet.
    pub open spec fn parse(bytes: Seq<u8>) -> Result<MP4View, ParseError> {
        Self::parse_from(bytes, 0, MP4View { ftyp: None, moov: None })
    }

    /// What was `found` so far, with the box added that `rest` starts with
    /// and whose header is `header`. A file type box or a movie box is
    /// decoded and takes the place of an earlier one of its kind; a box of
    /// any other type adds nothing.
    pub open spec fn record(rest: Seq<u8>, header: BoxHeaderView, found: MP4View) -> Result<
        MP4View,
        ParseError,
    > {
        if header.type_code() == FTYP {
            match FtypView::decode(rest) {
                Err(error) => Err(error),
                Ok(ftyp) => Ok(MP4View { ftyp: Some(ftyp), moov: found.moov }),
            }
        } else if header.type_code() == MOOV {
            match MovieView::decode(rest) {
                Err(error) => Err(error),
                Ok(moov) => Ok(MP4View { ftyp: found.ftyp, moov: Some(moov) }),
            }
        } else {
            Ok(found)
        }
    }

    /// What the boxes from the offset `at` on add to what was `found`
    /// before it. Each box must declare a length that covers its header and
    /// stays inside the buffer; it is recorded, and the next box begins
    /// where that length ends. The walk ends at the end of the buffer, or
    /// where too few bytes are left for a header.
    pub open spec fn parse_from(bytes: Seq<u8>, at: nat, found: MP4View) -> Result<
        MP4View,
        ParseError,
    >
        decreases bytes.len() - at,
    {
        if at >= bytes.len() {
            Ok(found)
        } else {
            let rest = bytes.subrange(at as int, bytes.len() as int);
            match BoxHeaderView::decode(rest) {
                Err(ParseError::BufferTooShort) => Ok(found),
                Err(error) => Err(error),
                Ok(header) => match header.fits(rest.len()) {
                    Err(error) => Err(error),
                    Ok(_) => match Self::record(rest, header, found) {
                        Err(error) => Err(error),
                        Ok(found) => Self::parse_from(bytes, at + header.box_size(), found),
                    },
                },
            }
        }
    }

    /// Decodes a whole file. Any failure inside a box fails the whole
    /// decode.
    pub fn from_buf(buffer: &[u8]) -> (decoded: Result<MP4, ParseError>)
        ensures
            view_of(decoded) == Self::parse(buffer@),
            decoded matches Ok(mp4) ==> mp4@.wf(),
    {
        let mut seek: usize = 0;
        let mut mp4 = MP4 { ftyp: None, moov: None };
        while seek < buffer.len()
            invariant
                seek <= buffer.len(),
                Self::parse(buffer@) == Self::parse_from(buffer@, seek as nat, mp4@),
                mp4@.wf(),
            decreases buffer.len() - seek,
        {
            let rest = tail(buffer, seek);
            let header = match BoxHeader::from_buffer(rest) {
                Ok(header) => header,
                Err(ParseError::BufferTooShort) => return Ok(mp4),
                Err(error) => return Err(error),
            };
            match header.check_fits(rest.len()) {
                Ok(_) => {},
                Err(error) => return Err(error),
            }
            if header.type_code() == FTYP {
                let ftyp = match Ftyp::from_buffer(rest) {
                    Ok(ftyp) => ftyp,
                    Err(error) => return Err(error),
                };
                mp4.ftyp = Some(ftyp);
            } else if header.type_code() == MOOV {
                let moov = match MovieBox::from_buffer(rest) {
                    Ok(moov) => moov,
                    Err(error) => return Err(error),
                };
                mp4.moov = Some(moov);
            }
            seek = seek + header.box_size() as usize;
        }
        Ok(mp4)
    }
}

} // verus!
