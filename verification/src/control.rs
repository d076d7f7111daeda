//! The measurement-control register: oversampling of both channels and the
//! power mode, packed into one byte.

use crate::fields::{field_1_0, field_4_2, field_7_5, lemma_fields_by_mask, lemma_pack_fields};
use vstd::prelude::*;

verus! {

/// Number of samples the device averages for one reading.
#[allow(non_camel_case_types)]
#[derive(Debug, Copy, Clone, PartialEq, Eq, Structural)]
pub enum Oversampling {
    /// The channel is not measured.
    skipped,
    /// One sample.
    x1,
    /// Two samples.
    x2,
    /// Four samples.
    x4,
    /// Eight samples.
    x8,
    /// Sixteen samples.
    x16,
}

/// Power mode of the device.
#[derive(Debug, Copy, Clone, PartialEq, Eq, Structural)]
pub enum PowerMode {
    /// No measurements are taken.
    Sleep,
    /// One measurement, then back to sleep.
    Forced,
    /// Measurements repeat, separated by the standby time.
    Normal,
}

/// Contents of the measurement-control register.
#[derive(Debug, Copy, Clone, PartialEq, Eq, Structural)]
pub struct Control {
    /// Temperature oversampling, bits 7:5.
    pub osrs_t: Oversampling,
    /// Pressure oversampling, bits 4:2.
    pub osrs_p: Oversampling,
    /// Power mode, bits 1:0.
    pub mode: PowerMode,
}

impl Oversampling {
    /// The number that stands for this setting in a three-bit field.
    pub open spec fn spec_code(self) -> u8 {
        match self {
            Oversampling::skipped => 0,
            Oversampling::x1 => 1,
            Oversampling::x2 => 2,
            Oversampling::x4 => 3,
            Oversampling::x8 => 4,
            Oversampling::x16 => 5,
        }
    }

    /// The number that stands for this setting in a three-bit field.
    #[verifier::when_used_as_spec(spec_code)]
    pub fn code(self) -> (code: u8)
        ensures
            code == self.spec_code(),
    {
        match self {
            Oversampling::skipped => 0,
            Oversampling::x1 => 1,
            Oversampling::x2 => 2,
            Oversampling::x4 => 3,
            Oversampling::x8 => 4,
            Oversampling::x16 => 5,
        }
    }

    /// The setting a bit pattern stands for. Every pattern without a setting
    /// of its own reads as `x16`.
    pub open spec fn spec_from_code(bits: u8) -> Oversampling {
        if bits == 0 {
            Oversampling::skipped
        } else if bits == 1 {
            Oversampling::x1
        } else if bits == 2 {
            Oversampling::x2
        } else if bits == 3 {
            Oversampling::x4
        } else if bits == 4 {
            Oversampling::x8
        } else {
            Oversampling::x16
        }
    }

    /// The setting a bit pattern stands for. Every pattern without a setting
    /// of its own reads as `x16`.
    #[verifier::when_used_as_spec(spec_from_code)]
    pub fn from_code(bits: u8) -> (o: Oversampling)
        ensures
            o == Oversampling::spec_from_code(bits),
    {
        if bits == Oversampling::skipped.code() {
            Oversampling::skipped
        } else if bits == Oversampling::x1.code() {
            Oversampling::x1
        } else if bits == Oversampling::x2.code() {
            Oversampling::x2
        } else if bits == Oversampling::x4.code() {
            Oversampling::x4
        } else if bits == Oversampling::x8.code() {
            Oversampling::x8
        } else {
            Oversampling::x16
        }
    }
}

impl PowerMode {
    /// The number that stands for this mode in the two-bit field.
    pub open spec fn spec_code(self) -> u8 {
        match self {
            PowerMode::Sleep => 0,
            PowerMode::Forced => 1,
            PowerMode::Normal => 3,
        }
    }

    /// The number that stands for this mode in the two-bit field.
    #[verifier::when_used_as_spec(spec_code)]
    pub fn code(self) -> (code: u8)
        ensures
            code == self.spec_code(),
    {
        match self {
            PowerMode::Sleep => 0,
            PowerMode::Forced => 1,
            PowerMode::Normal => 3,
        }
    }

    /// The mode a bit pattern stands for. Every pattern without a mode of its
    /// own reads as `Forced`.
    pub open spec fn spec_from_code(bits: u8) -> PowerMode {
        if bits == 0 {
            PowerMode::Sleep
        } else if bits == 3 {
            PowerMode::Normal
        } else {
            PowerMode::Forced
        }
    }

    /// The mode a bit pattern stands for. Every pattern without a mode of its
    /// own reads as `Forced`.
    #[verifier::when_used_as_spec(spec_from_code)]
    pub fn from_code(bits: u8) -> (m: PowerMode)
        ensures
            m == PowerMode::spec_from_code(bits),
    {
        if bits == PowerMode::Sleep.code() {
            PowerMode::Sleep
        } else if bits == PowerMode::Forced.code() {
            PowerMode::Forced
        } else if bits == PowerMode::Normal.code() {
            PowerMode::Normal
        } else {
            PowerMode::Forced
        }
    }
}

impl Control {
    /// The register byte that holds these settings.
    pub open spec fn spec_encode(self) -> u8 {
        (self.osrs_t.spec_code() * 32 + self.osrs_p.spec_code() * 4 + self.mode.spec_code()) as u8
    }

    /// The register byte that holds these settings.
    #[verifier::when_used_as_spec(spec_encode)]
    pub fn encode(self) -> (byte: u8)
        ensures
            byte == self.spec_encode(),
    {
        let osrs_t: u8 = self.osrs_t.code() << 5;
        let osrs_p: u8 = self.osrs_p.code() << 2;
        proof {
            lemma_pack_fields(self.osrs_t.spec_code(), self.osrs_p.spec_code(), self.mode.spec_code());
        }
        osrs_t | osrs_p | self.mode.code()
    }

    /// The settings a register byte holds.
    pub open spec fn spec_decode(byte: u8) -> Control {
        Control {
            osrs_t: Oversampling::spec_from_code(field_7_5(byte)),
            osrs_p: Oversampling::spec_from_code(field_4_2(byte)),
            mode: PowerMode::spec_from_code(field_1_0(byte)),
        }
    }

    /// The settings a register byte holds. No byte is refused: a field
    /// without a setting of its own reads as `x16`, or as `Forced`.
    #[verifier::when_used_as_spec(spec_decode)]
    pub fn decode(byte: u8) -> (control: Control)
        ensures
            control == Control::spec_decode(byte),
    {
        proof {
            lemma_fields_by_mask(byte);
        }
        let osrs_t = Oversampling::from_code((byte & (0b111 << 5)) >> 5);
        let osrs_p = Oversampling::from_code((byte & (0b111 << 2)) >> 2);
        let mode = PowerMode::from_code(byte & 0b11);
        Control { osrs_t, osrs_p, mode }
    }
}

/// Writing a control to the register and reading the register back gives the
/// same control, whatever its three settings are.
pub proof fn lemma_control_round_trip(control: Control)
    ensures
        Control::spec_decode(control.spec_encode()) == control,
{
}

/// A register byte that is read and written back unchanged reads the same
/// again: decoding, encoding and decoding once more changes nothing.
pub proof fn lemma_control_decode_is_stable(byte: u8)
    ensures
        Control::spec_decode(Control::spec_decode(byte).spec_encode()) == Control::spec_decode(
            byte,
        ),
{
    lemma_control_round_trip(Control::spec_decode(byte));
}

/// No byte fails to decode: a field that holds a pattern without a meaning
/// of its own reads as the fallback, sixteen-fold oversampling or forced
/// mode, and every other field reads as the setting with that number.
pub proof fn lemma_control_fallback(byte: u8)
    ensures
        field_7_5(byte) >= 5 ==> Control::spec_decode(byte).osrs_t == Oversampling::x16,
        field_4_2(byte) >= 5 ==> Control::spec_decode(byte).osrs_p == Oversampling::x16,
        field_1_0(byte) == 2 ==> Control::spec_decode(byte).mode == PowerMode::Forced,
        field_7_5(byte) <= 5 ==> Control::spec_decode(byte).osrs_t.spec_code() == field_7_5(byte),
        field_4_2(byte) <= 5 ==> Control::spec_decode(byte).osrs_p.spec_code() == field_4_2(byte),
        field_1_0(byte) != 2 ==> Control::spec_decode(byte).mode.spec_code() == field_1_0(byte),
{
}

} // verus!
