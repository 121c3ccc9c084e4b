//! The track header box: what holds for one track as a whole.
use crate::boxes::header::{BoxHeader, BoxHeaderView};
use crate::bytes::{be_u16, be_u32, be_u32_run, read_bytes, read_u16, read_u32, read_u32_array};
use crate::error::{view_of, ParseError};
use crate::fixed::{Fixed16x16, Fixed8x8};
use vstd::prelude::*;

verus! {

/// The number of bytes that the fields of a track header box occupy
/// behind its header.
pub const TRACK_HEADER_FIELDS: usize = 84;

/// A track header box.
#[derive(Debug, Clone)]
pub struct TrackHeaderBox {
    header: BoxHeader,
    version: u8,
    flags: [u8; 3],
    creation_time: u32,
    modification_time: u32,
    track_id: u32,
    reserved: u32,
    duration: u32,
    reserved2: [u8; 8],
    layer: u16,
    alternate_group: u16,
    volume: Fixed8x8,
    reserved3: u16,
    matrix: [u32; 9],
    width: Fixed16x16,
    height: Fixed16x16,
}

/// What a track header box holds, as plain values.
pub struct TrackHeaderView {
    pub header: BoxHeaderView,
    pub version: u8,
    /// The three flag bytes.
    pub flags: Seq<u8>,
    pub creation_time: u32,
    pub modification_time: u32,
    pub track_id: u32,
    pub reserved: u32,
    /// The duration, in units of the movie's time scale.
    pub duration: u32,
    /// The eight reserved bytes behind the duration.
    pub reserved2: Seq<u8>,
    pub layer: u16,
    pub alternate_group: u16,
    /// The playback volume of an audio track.
    pub volume: Fixed8x8,
    pub reserved3: u16,
    /// The nine entries of the transformation matrix, row by row.
    pub matrix: Seq<u32>,
    /// The width of the picture.
    pub width: Fixed16x16,
    /// The height of the picture.
    pub height: Fixed16x16,
}

impl TrackHeaderView {
    /// The track header box at the start of `bytes`.
    pub open spec fn decode(bytes: Seq<u8>) -> Result<TrackHeaderView, ParseError> {
        match BoxHeaderView::decode_box(bytes) {
            Err(error) => Err(error),
            Ok(header) => {
                let start = header.header_len() as int;
                if bytes.len() < start + TRACK_HEADER_FIELDS {
                    Err(ParseError::TruncatedPayload)
                } else {
                    Ok(
                        TrackHeaderView {
                            header,
                            version: bytes[start],
                            flags: bytes.subrange(start + 1, start + 4),
                            creation_time: be_u32(bytes, start + 4),
                            modification_time: be_u32(bytes, start + 8),
                            track_id: be_u32(bytes, start + 12),
                            reserved: be_u32(bytes, start + 16),
                            duration: be_u32(bytes, start + 20),
                            reserved2: bytes.subrange(start + 24, start + 32),
                            layer: be_u16(bytes, start + 32),
                            alternate_group: be_u16(bytes, start + 34),
                            volume: Fixed8x8 { raw: be_u16(bytes, start + 36) },
                            reserved3: be_u16(bytes, start + 38),
                            matrix: be_u32_run(bytes, start + 40, 9),
                            width: Fixed16x16 { raw: be_u32(bytes, start + 76) },
                            height: Fixed16x16 { raw: be_u32(bytes, start + 80) },
                        },
                    )
                }
            },
        }
    }
}

impl View for TrackHeaderBox {
    type V = TrackHeaderView;

    closed spec fn view(&self) -> TrackHeaderView {
        TrackHeaderView {
            header: self.header@,
            version: self.version,
            flags: self.flags@,
            creation_time: self.creation_time,
            modification_time: self.modification_time,
            track_id: self.track_id,
            reserved: self.reserved,
            duration: self.duration,
            reserved2: self.reserved2@,
            layer: self.layer,
            alternate_group: self.alternate_group,
            volume: self.volume,
            reserved3: self.reserved3,
            matrix: self.matrix@,
            width: self.width,
            height: self.height,
        }
    }
}

impl TrackHeaderBox {
    /// Decodes the track header box at the start of `buffer`.
    pub fn from_buffer(buffer: &[u8]) -> (decoded: Result<Self, ParseError>)
        ensures
            view_of(decoded) == TrackHeaderView::decode(buffer@),
    {
        let header = match BoxHeader::from_box(buffer) {
            Ok(header) => header,
            Err(error) => return Err(error),
        };
        let start = header.total_size();
        if buffer.len() - start < TRACK_HEADER_FIELDS {
            return Err(ParseError::TruncatedPayload);
        }
        Ok(
            TrackHeaderBox {
                header,
                version: buffer[start],
                flags: read_bytes(buffer, start + 1),
                creation_time: read_u32(buffer, start + 4),
                modification_time: read_u32(buffer, start + 8),
                track_id: read_u32(buffer, start + 12),
                reserved: read_u32(buffer, start + 16),
                duration: read_u32(buffer, start + 20),
                reserved2: read_bytes(buffer, start + 24),
                layer: read_u16(buffer, start + 32),
                alternate_group: read_u16(buffer, start + 34),
                volume: Fixed8x8 { raw: read_u16(buffer, start + 36) },
                reserved3: read_u16(buffer, start + 38),
                matrix: read_u32_array(buffer, start + 40),
                width: Fixed16x16 { raw: read_u32(buffer, start + 76) },
                height: Fixed16x16 { raw: read_u32(buffer, start + 80) },
            },
        )
    }

    /// The header of the box.
    pub fn get_header(&self) -> (header: &BoxHeader)
        ensures
            header@ == self@.header,
    {
        &self.header
    }

    pub fn get_version(&self) -> (version: u8)
        ensures
            version == self@.version,
    {
        self.version
    }

    /// The three flag bytes.
    pub fn get_flags(&self) -> (flags: &[u8; 3])
        ensures
            flags@ == self@.flags,
    {
        &self.flags
    }

    pub fn get_creation_time(&self) -> (time: u32)
        ensures
            time == self@.creation_time,
    {
        self.creation_time
    }

    pub fn get_modification_time(&self) -> (time: u32)
        ensures
            time == self@.modification_time,
    {
        self.modification_time
    }

    pub fn get_track_id(&self) -> (id: u32)
        ensures
            id == self@.track_id,
    {
        self.track_id
    }

    pub fn get_reserved(&self) -> (reserved: u32)
        ensures
            reserved == self@.reserved,
    {
        self.reserved
    }

    /// The duration, in units of the movie's time scale.
    pub fn get_duration(&self) -> (duration: u32)
        ensures
            duration == self@.duration,
    {
        self.duration
    }

    /// The eight reserved bytes behind the duration.
    pub fn get_reserved2(&self) -> (reserved: &[u8; 8])
        ensures
            reserved@ == self@.reserved2,
    {
        &self.reserved2
    }

    pub fn get_layer(&self) -> (layer: u16)
        ensures
            layer == self@.layer,
    {
        self.layer
    }

    pub fn get_alternate_group(&self) -> (group: u16)
        ensures
            group == self@.alternate_group,
    {
        self.alternate_group
    }

    /// The playback volume of an audio track.
    pub fn get_volume(&self) -> (volume: Fixed8x8)
        ensures
            volume == self@.volume,
    {
        self.volume
    }

    pub fn get_reserved3(&self) -> (reserved: u16)
        ensures
            reserved == self@.reserved3,
    {
        self.reserved3
    }

    /// The nine entries of the transformation matrix, row by row.
    pub fn get_matrix(&self) -> (matrix: &[u32; 9])
        ensures
            matrix@ == self@.matrix,
    {
        &self.matrix
    }

    /// The width of the picture.
    pub fn get_width(&self) -> (width: Fixed16x16)
        ensures
            width == self@.width,
    {
        self.width
    }

    /// The height of the picture.
    pub fn get_height(&self) -> (height: Fixed16x16)
        ensures
            height == self@.height,
    {
        self.height
    }
}

} // verus!
