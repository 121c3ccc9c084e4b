//! One decoder for each kind of box, leaves first.
//!
//! Every decoder takes a buffer that begins with its box and may go on
//! behind it. What all of them have in common:
//!
//! - The length that a box declares must cover its own header and must not
//!   exceed the buffer; the first fails with `Overrun`, the second with
//!   `TruncatedPayload`.
//! - Fields of fixed width stand at fixed offsets behind the header, which
//!   has 8 or 16 bytes. They are read wherever the buffer holds them, also
//!   where the declared length ends before they do; a buffer that ends
//!   before they do fails with `TruncatedPayload`.
//! - A list ends where the declared length ends, whatever the buffer holds
//!   behind it.
//! - A leaf decoder does not look at the type of its own box. A composite
//!   decoder expects its children in one fixed order, each one starting
//!   where the one before it ends, and checks the type and the length of
//!   each before it decodes it.
//! - A failure anywhere fails the whole decode.
use vstd::prelude::*;

pub mod chunk_offset;
pub mod ftyp;
pub mod handler;
pub mod header;
pub mod media;
pub mod media_header;
pub mod media_information;
pub mod moov;
pub mod movie_header;
pub mod sample_description;
pub mod sample_size;
pub mod sample_table;
pub mod sample_to_chunk;
pub mod time_to_sample;
pub mod track;
pub mod track_header;

verus! {

/// The type `ftyp`, as the big-endian integer that its four bytes spell.
pub const FTYP: u32 = 0x6674_7970;

/// The type `moov`.
pub const MOOV: u32 = 0x6D6F_6F76;

/// The type `mvhd`.
pub const MVHD: u32 = 0x6D76_6864;

/// The type `trak`.
pub const TRAK: u32 = 0x7472_616B;

/// The type `tkhd`.
pub const TKHD: u32 = 0x746B_6864;

/// The type `mdia`.
pub const MDIA: u32 = 0x6D64_6961;

/// The type `mdhd`.
pub const MDHD: u32 = 0x6D64_6864;

/// The type `hdlr`.
pub const HDLR: u32 = 0x6864_6C72;

/// The type `minf`.
pub const MINF: u32 = 0x6D69_6E66;

/// The type `stbl`.
pub const STBL: u32 = 0x7374_626C;

/// The type `stsd`.
pub const STSD: u32 = 0x7374_7364;

/// The type `stts`.
pub const STTS: u32 = 0x7374_7473;

/// The type `stsc`.
pub const STSC: u32 = 0x7374_7363;

/// The type `stsz`.
pub const STSZ: u32 = 0x7374_737A;

/// The type `stco`.
pub const STCO: u32 = 0x7374_636F;

} // verus!
