//! Unsigned fixed-point numbers as the file stores them.
use vstd::prelude::*;

verus! {

/// A 16.16 fixed-point number: the value is `raw / 65536`, that is the
/// integer part plus the fraction part over 65536.
#[derive(Clone, Copy, Debug, PartialEq, Eq, Structural)]
pub struct Fixed16x16 {
    /// The 32 bits as one big-endian integer.
    pub raw: u32,
}

impl Fixed16x16 {
    /// The whole part of the value.
    pub fn integer_part(&self) -> (whole: u16)
        ensures
            whole == self.raw / 0x1_0000,
            self.raw == whole * 0x1_0000 + self.raw % 0x1_0000,
    {
        (self.raw / 0x1_0000) as u16
    }

    /// The numerator of the fraction, whose denominator is 65536.
    pub fn fraction_part(&self) -> (part: u16)
        ensures
            part == self.raw % 0x1_0000,
    {
        (self.raw % 0x1_0000) as u16
    }
}

/// An 8.8 fixed-point number: the value is `raw / 256`, that is the integer
/// part plus the fraction part over 256.
#[derive(Clone, Copy, Debug, PartialEq, Eq, Structural)]
pub struct Fixed8x8 {
    /// The 16 bits as one big-endian integer.
    pub raw: u16,
}

impl Fixed8x8 {
    /// The whole part of the value.
    pub fn integer_part(&self) -> (whole: u8)
        ensures
            whole == self.raw / 0x100,
            self.raw == whole * 0x100 + self.raw % 0x100,
    {
        (self.raw / 0x100) as u8
    }

    /// The numerator of the fraction, whose denominator is 256.
    pub fn fraction_part(&self) -> (part: u8)
        ensures
            part == self.raw % 0x100,
    {
        (self.raw % 0x100) as u8
    }
}

} // verus!
