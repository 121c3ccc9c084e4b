//! The movie header box: what holds for the presentation as a whole.
use crate::boxes::header::{BoxHeader, BoxHeaderView};
use crate::bytes::{be_u16, be_u32, be_u32_run, read_bytes, read_u16, read_u32, read_u32_array};
use crate::error::{view_of, ParseError};
use crate::fixed::{Fixed16x16, Fixed8x8};
use vstd::prelude::*;

verus! {

/// The number of bytes that the fields of a movie header box occupy
/// behind its header.
pub const MOVIE_HEADER_FIELDS: usize = 76;

/// A movie header box.
#[derive(Debug, Clone)]
pub struct MovieHeaderBox {
    header: BoxHeader,
    version: u8,
    flags: [u8; 3],
    creation_time: u32,
    modification_time: u32,
    timescale: u32,
    duration: u32,
    rate: Fixed16x16,
    volume: Fixed8x8,
    reserved: [u8; 10],
    matrix: [u32; 9],
    next_track_id: u32,
}

/// What a movie header box holds, as plain values.
pub struct MovieHeaderView {
    pub header: BoxHeaderView,
    pub version: u8,
    /// The three flag bytes.
    pub flags: Seq<u8>,
    pub creation_time: u32,
    pub modification_time: u32,
    /// Time units per second.
    pub timescale: u32,
    /// The duration, in units of the time scale.
    pub duration: u32,
    /// The preferred playback rate.
    pub rate: Fixed16x16,
    /// The preferred playback volume.
    pub volume: Fixed8x8,
    /// The ten reserved bytes.
    pub reserved: Seq<u8>,
    /// The nine entries of the transformation matrix, row by row.
    pub matrix: Seq<u32>,
    /// The identifier that the next added track would get.
    pub next_track_id: u32,
}

impl MovieHeaderView {
    /// The movie header box at the start of `bytes`.
    pub open spec fn decode(bytes: Seq<u8>) -> Result<MovieHeaderView, ParseError> {
        match BoxHeaderView::decode_box(bytes) {
            Err(error) => Err(error),
            Ok(header) => {
                let start = header.header_len() as int;
                if bytes.len() < start + MOVIE_HEADER_FIELDS {
                    Err(ParseError::TruncatedPayload)
                } else {
                    Ok(
                        MovieHeaderView {
                            header,
                            version: bytes[start],
                            flags: bytes.subrange(start + 1, start + 4),
                            creation_time: be_u32(bytes, start + 4),
                            modification_time: be_u32(bytes, start + 8),
                            timescale: be_u32(bytes, start + 12),
                            duration: be_u32(bytes, start + 16),
                            rate: Fixed16x16 { raw: be_u32(bytes, start + 20) },
                            volume: Fixed8x8 { raw: be_u16(bytes, start + 24) },
                            reserved: bytes.subrange(start + 26, start + 36),
                            matrix: be_u32_run(bytes, start + 36, 9),
                            next_track_id: be_u32(bytes, start + 72),
                        },
                    )
                }
            },
        }
    }
}

impl View for MovieHeaderBox {
    type V = MovieHeaderView;

    closed spec fn view(&self) -> MovieHeaderView {
        MovieHeaderView {
            header: self.header@,
            version: self.version,
            flags: self.flags@,
            creation_time: self.creation_time,
            modification_time: self.modification_time,
            timescale: self.timescale,
            duration: self.duration,
            rate: self.rate,
            volume: self.volume,
            reserved: self.reserved@,
            matrix: self.matrix@,
            next_track_id: self.next_track_id,
        }
    }
}

impl MovieHeaderBox {
    /// Decodes the movie header box at the start of `buffer`.
    pub fn from_buffer(buffer: &[u8]) -> (decoded: Result<Self, ParseError>)
        ensures
            view_of(decoded) == MovieHeaderView::decode(buffer@),
    {
        let header = match BoxHeader::from_box(buffer) {
            Ok(header) => header,
            Err(error) => return Err(error),
        };
        let start = header.total_size();
        if buffer.len() - start < MOVIE_HEADER_FIELDS {
            return Err(ParseError::TruncatedPayload);
        }
        Ok(
            MovieHeaderBox {
                header,
                version: buffer[start],
                flags: read_bytes(buffer, start + 1),
                creation_time: read_u32(buffer, start + 4),
                modification_time: read_u32(buffer, start + 8),
                timescale: read_u32(buffer, start + 12),
                duration: read_u32(buffer, start + 16),
                rate: Fixed16x16 { raw: read_u32(buffer, start + 20) },
                volume: Fixed8x8 { raw: read_u16(buffer, start + 24) },
                reserved: read_bytes(buffer, start + 26),
                matrix: read_u32_array(buffer, start + 36),
                next_track_id: read_u32(buffer, start + 72),
            },
        )
    }

    /// The header of the box.
    pub fn get_header(&self) -> (header: &BoxHeader)
        ensures
            header@ == self@.header,
    {
        &self.header
    }

    pub fn get_version(&self) -> (version: u8)
        ensures
            version == self@.version,
    {
        self.version
    }

    /// The three flag bytes.
    pub fn get_flags(&self) -> (flags: &[u8; 3])
        ensures
            flags@ == self@.flags,
    {
        &self.flags
    }

    pub fn get_creation_time(&self) -> (time: u32)
        ensures
            time == self@.creation_time,
    {
        self.creation_time
    }

    pub fn get_modification_time(&self) -> (time: u32)
        ensures
            time == self@.modification_time,
    {
        self.modification_time
    }

    /// Time units per second.
    pub fn get_timescale(&self) -> (timescale: u32)
        ensures
            timescale == self@.timescale,
    {
        self.timescale
    }

    /// The duration, in units of the time scale.
    pub fn get_duration(&self) -> (duration: u32)
        ensures
            duration == self@.duration,
    {
        self.duration
    }

    /// The preferred playback rate.
    pub fn get_rate(&self) -> (rate: Fixed16x16)
        ensures
            rate == self@.rate,
    {
        self.rate
    }

    /// The preferred playback volume.
    pub fn get_volume(&self) -> (volume: Fixed8x8)
        ensures
            volume == self@.volume,
    {
        self.volume
    }

    /// The ten reserved bytes.
    pub fn get_reserved(&self) -> (reserved: &[u8; 10])
        ensures
            reserved@ == self@.reserved,
    {
        &self.reserved
    }

    /// The nine entries of the transformation matrix, row by row.
    pub fn get_matrix(&self) -> (matrix: &[u32; 9])
        ensures
            matrix@ == self@.matrix,
    {
        &self.matrix
    }

    /// The identifier that the next added track would get.
    pub fn get_next_track_id(&self) -> (id: u32)
        ensures
            id == self@.next_track_id,
    {
        self.next_track_id
    }

    /// The number of bytes that the header and the fields occupy.
    pub fn total_size(&self) -> (len: usize)
        ensures
            len == self@.header.header_len() + MOVIE_HEADER_FIELDS,
    {
        self.header.total_size() + MOVIE_HEADER_FIELDS
    }

    /// The offset just behind the fields of a box that starts at `seek`.
    pub fn get_end_range(&self, seek: usize) -> (end: usize)
        requires
            seek + self@.header.header_len() + MOVIE_HEADER_FIELDS <= usize::MAX,
        ensures
            end == seek + self@.header.header_len() + MOVIE_HEADER_FIELDS,
    {
        seek + self.total_size()
    }
}

} // verus!
