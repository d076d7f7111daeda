//! Raw readings: the two 20-bit numbers packed into the six-byte data block.

use vstd::prelude::*;

verus! {

/// Number of bytes in the data block.
pub const SAMPLE_LEN: usize = 6;

/// The 20-bit number held in three bytes, most significant first: the first
/// two bytes whole and the high nibble of the third. The low nibble of the
/// third byte is dropped.
pub open spec fn unpack20(msb: u8, lsb: u8, xlsb: u8) -> u32 {
    (msb * 4096 + lsb * 16 + xlsb / 16) as u32
}

/// Unpacks one 20-bit reading from its three bytes.
pub fn unpack(msb: u8, lsb: u8, xlsb: u8) -> (value: u32)
    ensures
        value == unpack20(msb, lsb, xlsb),
        value < 0x10_0000,
{
    let value: u32 = (msb as u32) << 12 | (lsb as u32) << 4 | (xlsb as u32) >> 4;
    assert(value == msb * 4096 + lsb * 16 + xlsb / 16 && value < 0x10_0000u32) by (bit_vector)
        requires
            value == (msb as u32) << 12 | (lsb as u32) << 4 | (xlsb as u32) >> 4,
    ;
    value
}

/// One uncompensated reading of both channels.
#[derive(Debug, Copy, Clone, PartialEq, Eq, Structural)]
pub struct RawSample {
    /// Raw pressure.
    pub pressure: u32,
    /// Raw temperature.
    pub temperature: u32,
}

impl RawSample {
    /// Both readings fit in 20 bits.
    pub open spec fn well_formed(self) -> bool {
        self.pressure < 0x10_0000 && self.temperature < 0x10_0000
    }

    /// The readings that a data block holds: pressure in its first three
    /// bytes, temperature in its last three.
    pub open spec fn spec_decode(block: Seq<u8>) -> RawSample
        recommends
            block.len() == SAMPLE_LEN,
    {
        RawSample {
            pressure: unpack20(block[0], block[1], block[2]),
            temperature: unpack20(block[3], block[4], block[5]),
        }
    }

    /// Decodes the data block as it was read from the device.
    pub fn decode(block: &[u8; SAMPLE_LEN]) -> (sample: RawSample)
        ensures
            sample == RawSample::spec_decode(block@),
            sample.well_formed(),
    {
        RawSample {
            pressure: unpack(block[0], block[1], block[2]),
            temperature: unpack(block[3], block[4], block[5]),
        }
    }
}

} // verus!
