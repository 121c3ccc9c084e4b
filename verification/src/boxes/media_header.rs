//! The media header box: the time scale, duration and language of the
//! media in a track.
use crate::boxes::header::{BoxHeader, BoxHeaderView};
use crate::bytes::{be_u32, read_bytes, read_u32};
use crate::error::{view_of, ParseError};
use vstd::prelude::*;

verus! {

/// A media header box.
#[derive(Debug, Clone)]
pub struct MediaHeaderBox {
    header: BoxHeader,
    version: u8,
    flags: [u8; 3],
    creation_time: u32,
    modification_time: u32,
    timescale: u32,
    duration: u32,
    language: [u8; 2],
}

/// What a media header box holds, as plain values.
pub struct MediaHeaderView {
    pub header: BoxHeaderView,
    pub version: u8,
    /// The three flag bytes.
    pub flags: Seq<u8>,
    pub creation_time: u32,
    pub modification_time: u32,
    /// Time units per second.
    pub timescale: u32,
    /// The duration, in units of the time scale.
    pub duration: u32,
    /// The two bytes of the language code.
    pub language: Seq<u8>,
}

/// The name of the language that a two-byte code stands for: one of four
/// known codes, or `unknown`.
pub open spec fn language_name(code: Seq<u8>) -> Seq<char> {
    if code == seq![0x55u8, 0xC4u8] {
        "und"@
    } else if code == seq![0x6Eu8, 0x61u8] {
        "eng"@
    } else if code == seq![0x66u8, 0x72u8] {
        "fra"@
    } else if code == seq![0x6Au8, 0x70u8] {
        "jpn"@
    } else {
        "unknown"@
    }
}

impl MediaHeaderView {
    /// The media header box at the start of `bytes`.
    pub open spec fn decode(bytes: Seq<u8>) -> Result<MediaHeaderView, ParseError> {
        match BoxHeaderView::decode_box(bytes) {
            Err(error) => Err(error),
            Ok(header) => {
                let start = header.header_len() as int;
                if bytes.len() < start + 22 {
                    Err(ParseError::TruncatedPayload)
                } else {
                    Ok(
                        MediaHeaderView {
                            header,
                            version: bytes[start],
                            flags: bytes.subrange(start + 1, start + 4),
                            creation_time: be_u32(bytes, start + 4),
                            modification_time: be_u32(bytes, start + 8),
                            timescale: be_u32(bytes, start + 12),
                            duration: be_u32(bytes, start + 16),
                            language: bytes.subrange(start + 20, start + 22),
                        },
                    )
                }
            },
        }
    }
}

impl View for MediaHeaderBox {
    type V = MediaHeaderView;

    closed spec fn view(&self) -> MediaHeaderView {
        MediaHeaderView {
            header: self.header@,
            version: self.version,
            flags: self.flags@,
            creation_time: self.creation_time,
            modification_time: self.modification_time,
            timescale: self.timescale,
            duration: self.duration,
            language: self.language@,
        }
    }
}

impl MediaHeaderBox {
    /// Decodes the media header box at the start of `buffer`.
    pub fn from_buffer(buffer: &[u8]) -> (decoded: Result<Self, ParseError>)
        ensures
            view_of(decoded) == MediaHeaderView::decode(buffer@),
    {
        let header = match BoxHeader::from_box(buffer) {
            Ok(header) => header,
            Err(error) => return Err(error),
        };
        let start = header.total_size();
        if buffer.len() - start < 22 {
            return Err(ParseError::TruncatedPayload);
        }
        Ok(
            MediaHeaderBox {
                header,
                version: buffer[start],
                flags: read_bytes(buffer, start + 1),
                creation_time: read_u32(buffer, start + 4),
                modification_time: read_u32(buffer, start + 8),
                timescale: read_u32(buffer, start + 12),
                duration: read_u32(buffer, start + 16),
                language: read_bytes(buffer, start + 20),
            },
        )
    }

    pub fn get_version(&self) -> (version: u8)
        ensures
            version == self@.version,
    {
        self.version
    }

    /// The three flag bytes.
    pub fn get_flags(&self) -> (flags: [u8; 3])
        ensures
            flags@ == self@.flags,
    {
        self.flags
    }

    pub fn get_creation_time(&self) -> (time: u32)
        ensures
            time == self@.creation_time,
    {
        self.creation_time
    }

    pub fn get_modification_time(&self) -> (time: u32)
        ensures
            time == self@.modification_time,
    {
        self.modification_time
    }

    /// Time units per second.
    pub fn get_timescale(&self) -> (timescale: u32)
        ensures
            timescale == self@.timescale,
    {
        self.timescale
    }

    /// The duration, in units of the time scale.
    pub fn get_duration(&self) -> (duration: u32)
        ensures
            duration == self@.duration,
    {
        self.duration
    }

    /// The name of the language: one of four known codes, or `unknown`.
    pub fn get_language(&self) -> (name: &'static str)
        ensures
            name@ == language_name(self@.language),
    {
        let code = (self.language[0], self.language[1]);
        assert(self.language@ =~= seq![code.0, code.1]);
        if code.0 == 0x55 && code.1 == 0xC4 {
            "und"
        } else if code.0 == 0x6E && code.1 == 0x61 {
            "eng"
        } else if code.0 == 0x66 && code.1 == 0x72 {
            "fra"
        } else if code.0 == 0x6A && code.1 == 0x70 {
            "jpn"
        } else {
            "unknown"
        }
    }

    /// The header of the box.
    pub fn header(&self) -> (header: &BoxHeader)
        ensures
            header@ == self@.header,
    {
        &self.header
    }
}

} // verus!
