//! The factory calibration of one device: eleven coefficients, read once
//! from a 24-byte register block.

use vstd::prelude::*;

verus! {

/// Number of bytes in the calibration block.
pub const CALIBRATION_LEN: usize = 24;

/// The unsigned 16-bit number whose low byte comes first.
pub open spec fn le_u16(low: u8, high: u8) -> u16 {
    (low + 256 * high) as u16
}

/// The signed 16-bit number, in two's complement, whose low byte comes first.
pub open spec fn le_i16(low: u8, high: u8) -> i16 {
    if high < 128 {
        (low + 256 * high) as i16
    } else {
        (low + 256 * high - 65536) as i16
    }
}

/// Joins two bytes, low byte first, into an unsigned number.
pub fn u16_from_le(low: u8, high: u8) -> (value: u16)
    ensures
        value == le_u16(low, high),
{
    let value: u16 = ((high as u16) << 8) | (low as u16);
    assert(value == low + 256 * high) by (bit_vector)
        requires
            value == ((high as u16) << 8) | (low as u16),
    ;
    value
}

/// Joins two bytes, low byte first, into a signed number.
pub fn i16_from_le(low: u8, high: u8) -> (value: i16)
    ensures
        value == le_i16(low, high),
{
    let value: i16 = ((high as i16) << 8) | (low as i16);
    assert(value == if high < 128 {
        low + 256 * high
    } else {
        low + 256 * high - 65536
    }) by (bit_vector)
        requires
            value == ((high as i16) << 8) | (low as i16),
    ;
    value
}

/// The compensation coefficients of one device. The names are the data
/// sheet's.
#[derive(Debug, Copy, Clone, PartialEq, Eq, Structural)]
pub struct CalibrationData {
    /// First temperature coefficient.
    pub dig_t1: u16,
    /// Second temperature coefficient.
    pub dig_t2: i16,
    /// Third temperature coefficient.
    pub dig_t3: i16,
    /// First pressure coefficient.
    pub dig_p1: u16,
    /// Second pressure coefficient.
    pub dig_p2: i16,
    /// Third pressure coefficient.
    pub dig_p3: i16,
    /// Fourth pressure coefficient.
    pub dig_p4: i16,
    /// Fifth pressure coefficient.
    pub dig_p5: i16,
    /// Sixth pressure coefficient.
    pub dig_p6: i16,
    /// Seventh pressure coefficient.
    pub dig_p7: i16,
    /// Eighth pressure coefficient.
    pub dig_p8: i16,
    /// Ninth pressure coefficient.
    pub dig_p9: i16,
}

impl CalibrationData {
    /// The coefficients that a calibration block holds: twelve 16-bit words
    /// in register order, low byte first, the first and the fourth unsigned
    /// and the others signed.
    pub open spec fn spec_decode(block: Seq<u8>) -> CalibrationData
        recommends
            block.len() == CALIBRATION_LEN,
    {
        CalibrationData {
            dig_t1: le_u16(block[0], block[1]),
            dig_t2: le_i16(block[2], block[3]),
            dig_t3: le_i16(block[4], block[5]),
            dig_p1: le_u16(block[6], block[7]),
            dig_p2: le_i16(block[8], block[9]),
            dig_p3: le_i16(block[10], block[11]),
            dig_p4: le_i16(block[12], block[13]),
            dig_p5: le_i16(block[14], block[15]),
            dig_p6: le_i16(block[16], block[17]),
            dig_p7: le_i16(block[18], block[19]),
            dig_p8: le_i16(block[20], block[21]),
            dig_p9: le_i16(block[22], block[23]),
        }
    }

    /// Decodes the calibration block as it was read from the device.
    pub fn decode(block: &[u8; CALIBRATION_LEN]) -> (calibration: CalibrationData)
        ensures
            calibration == CalibrationData::spec_decode(block@),
    {
        CalibrationData {
            dig_t1: u16_from_le(block[0], block[1]),
            dig_t2: i16_from_le(block[2], block[3]),
            dig_t3: i16_from_le(block[4], block[5]),
            dig_p1: u16_from_le(block[6], block[7]),
            dig_p2: i16_from_le(block[8], block[9]),
            dig_p3: i16_from_le(block[10], block[11]),
            dig_p4: i16_from_le(block[12], block[13]),
            dig_p5: i16_from_le(block[14], block[15]),
            dig_p6: i16_from_le(block[16], block[17]),
            dig_p7: i16_from_le(block[18], block[19]),
            dig_p8: i16_from_le(block[20], block[21]),
            dig_p9: i16_from_le(block[22], block[23]),
        }
    }
}

} // verus!
