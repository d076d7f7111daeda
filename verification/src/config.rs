//! The configuration register: standby time and filter, packed into one
//! byte. The three-wire SPI switch in bit 0 is left alone.

use crate::fields::{field_4_2, field_7_5, lemma_fields_by_mask, lemma_pack_fields};
use vstd::prelude::*;

verus! {

/// Idle time between two measurements in normal mode, in milliseconds.
#[allow(non_camel_case_types)]
#[derive(Debug, Copy, Clone, PartialEq, Eq, Structural)]
pub enum Standby {
    /// 0.5 ms.
    ms0_5,
    /// 62.5 ms.
    ms62_5,
    /// 125 ms.
    ms125,
    /// 250 ms.
    ms250,
    /// 500 ms.
    ms500,
    /// 1000 ms.
    ms1000,
    /// 2000 ms.
    ms2000,
    /// 4000 ms.
    ms4000,
    /// A standby time that is not known.
    unknown,
}

/// Time constant of the IIR filter.
#[allow(non_camel_case_types)]
#[derive(Debug, Copy, Clone, PartialEq, Eq, Structural)]
pub enum Filter {
    /// Filter off.
    off,
    /// Coefficient 2.
    c2,
    /// Coefficient 4.
    c4,
    /// Coefficient 8.
    c8,
    /// Coefficient 16.
    c16,
    /// A bit pattern that names no coefficient.
    unknown,
}

/// Contents of the configuration register. The device may ignore a write to
/// it in normal mode; in sleep mode it does not.
#[derive(Debug, Copy, Clone, PartialEq, Eq, Structural)]
pub struct Config {
    /// Standby time, bits 7:5.
    pub t_sb: Standby,
    /// Filter coefficient, bits 4:2.
    pub filter: Filter,
}

impl Standby {
    /// The number that stands for this standby time. The eight known times
    /// fill the three-bit field; `unknown` has the next number, which the
    /// field cannot hold.
    pub open spec fn spec_code(self) -> u8 {
        match self {
            Standby::ms0_5 => 0,
            Standby::ms62_5 => 1,
            Standby::ms125 => 2,
            Standby::ms250 => 3,
            Standby::ms500 => 4,
            Standby::ms1000 => 5,
            Standby::ms2000 => 6,
            Standby::ms4000 => 7,
            Standby::unknown => 8,
        }
    }

    /// The number that stands for this standby time. The eight known times
    /// fill the three-bit field; `unknown` has the next number, which the
    /// field cannot hold.
    #[verifier::when_used_as_spec(spec_code)]
    pub fn code(self) -> (code: u8)
        ensures
            code == self.spec_code(),
    {
        match self {
            Standby::ms0_5 => 0,
            Standby::ms62_5 => 1,
            Standby::ms125 => 2,
            Standby::ms250 => 3,
            Standby::ms500 => 4,
            Standby::ms1000 => 5,
            Standby::ms2000 => 6,
            Standby::ms4000 => 7,
            Standby::unknown => 8,
        }
    }

    /// The standby time a number stands for, `unknown` where it stands for
    /// none.
    pub open spec fn spec_from_code(bits: u8) -> Standby {
        if bits == 0 {
            Standby::ms0_5
        } else if bits == 1 {
            Standby::ms62_5
        } else if bits == 2 {
            Standby::ms125
        } else if bits == 3 {
            Standby::ms250
        } else if bits == 4 {
            Standby::ms500
        } else if bits == 5 {
            Standby::ms1000
        } else if bits == 6 {
            Standby::ms2000
        } else if bits == 7 {
            Standby::ms4000
        } else {
            Standby::unknown
        }
    }

    /// The standby time a number stands for, `unknown` where it stands for
    /// none.
    #[verifier::when_used_as_spec(spec_from_code)]
    pub fn from_code(bits: u8) -> (t_sb: Standby)
        ensures
            t_sb == Standby::spec_from_code(bits),
    {
        if bits == Standby::ms0_5.code() {
            Standby::ms0_5
        } else if bits == Standby::ms62_5.code() {
            Standby::ms62_5
        } else if bits == Standby::ms125.code() {
            Standby::ms125
        } else if bits == Standby::ms250.code() {
            Standby::ms250
        } else if bits == Standby::ms500.code() {
            Standby::ms500
        } else if bits == Standby::ms1000.code() {
            Standby::ms1000
        } else if bits == Standby::ms2000.code() {
            Standby::ms2000
        } else if bits == Standby::ms4000.code() {
            Standby::ms4000
        } else {
            Standby::unknown
        }
    }
}

impl Filter {
    /// The number that stands for this coefficient in the three-bit field.
    /// `unknown` has the first number past the known coefficients.
    pub open spec fn spec_code(self) -> u8 {
        match self {
            Filter::off => 0,
            Filter::c2 => 1,
            Filter::c4 => 2,
            Filter::c8 => 3,
            Filter::c16 => 4,
            Filter::unknown => 5,
        }
    }

    /// The number that stands for this coefficient in the three-bit field.
    /// `unknown` has the first number past the known coefficients.
    #[verifier::when_used_as_spec(spec_code)]
    pub fn code(self) -> (code: u8)
        ensures
            code == self.spec_code(),
    {
        match self {
            Filter::off => 0,
            Filter::c2 => 1,
            Filter::c4 => 2,
            Filter::c8 => 3,
            Filter::c16 => 4,
            Filter::unknown => 5,
        }
    }

    /// The coefficient a number stands for, `unknown` where it stands for
    /// none.
    pub open spec fn spec_from_code(bits: u8) -> Filter {
        if bits == 0 {
            Filter::off
        } else if bits == 1 {
            Filter::c2
        } else if bits == 2 {
            Filter::c4
        } else if bits == 3 {
            Filter::c8
        } else if bits == 4 {
            Filter::c16
        } else {
            Filter::unknown
        }
    }

    /// The coefficient a number stands for, `unknown` where it stands for
    /// none.
    #[verifier::when_used_as_spec(spec_from_code)]
    pub fn from_code(bits: u8) -> (filter: Filter)
        ensures
            filter == Filter::spec_from_code(bits),
    {
        if bits == Filter::off.code() {
            Filter::off
        } else if bits == Filter::c2.code() {
            Filter::c2
        } else if bits == Filter::c4.code() {
            Filter::c4
        } else if bits == Filter::c8.code() {
            Filter::c8
        } else if bits == Filter::c16.code() {
            Filter::c16
        } else {
            Filter::unknown
        }
    }
}

impl Config {
    /// The register byte that holds these settings. Of the standby number
    /// the field keeps the low three bits, so `unknown` is written as the
    /// shortest standby time; bits 1:0 are zero.
    pub open spec fn spec_encode(self) -> u8 {
        ((self.t_sb.spec_code() % 8) * 32 + self.filter.spec_code() * 4) as u8
    }

    /// The register byte that holds these settings. Of the standby number
    /// the field keeps the low three bits, so `unknown` is written as the
    /// shortest standby time; bits 1:0 are zero.
    #[verifier::when_used_as_spec(spec_encode)]
    pub fn encode(self) -> (byte: u8)
        ensures
            byte == self.spec_encode(),
    {
        let config: u8 = 0x00;
        let t_sb: u8 = self.t_sb.code() << 5;
        let filter: u8 = self.filter.code() << 2;
        proof {
            lemma_pack_fields(self.t_sb.spec_code(), self.filter.spec_code(), config);
        }
        t_sb | filter | config
    }

    /// The settings a register byte holds.
    pub open spec fn spec_decode(byte: u8) -> Config {
        Config {
            t_sb: Standby::spec_from_code(field_7_5(byte)),
            filter: Filter::spec_from_code(field_4_2(byte)),
        }
    }

    /// The settings a register byte holds. No byte is refused: a filter
    /// field that names no coefficient reads as `unknown`.
    #[verifier::when_used_as_spec(spec_decode)]
    pub fn decode(byte: u8) -> (config: Config)
        ensures
            config == Config::spec_decode(byte),
    {
        proof {
            lemma_fields_by_mask(byte);
        }
        let t_sb = Standby::from_code((byte & (0b111 << 5)) >> 5);
        let filter = Filter::from_code((byte & (0b111 << 2)) >> 2);
        Config { t_sb, filter }
    }
}

/// Writing a configuration to the register and reading the register back
/// gives the same configuration, with one exception: an unknown standby
/// time, which has no pattern of its own, comes back as the shortest.
pub proof fn lemma_config_round_trip(config: Config)
    ensures
        Config::spec_decode(config.spec_encode()) == (Config {
            t_sb: if config.t_sb == Standby::unknown {
                Standby::ms0_5
            } else {
                config.t_sb
            },
            filter: config.filter,
        }),
{
}

/// Writing and reading back a second time changes nothing more.
pub proof fn lemma_config_round_trip_is_idempotent(config: Config)
    ensures
        Config::spec_decode(Config::spec_decode(config.spec_encode()).spec_encode())
            == Config::spec_decode(config.spec_encode()),
{
    lemma_config_round_trip(config);
    lemma_config_round_trip(Config::spec_decode(config.spec_encode()));
}

/// No byte fails to decode: a filter field that names no coefficient reads
/// as `unknown`, every other filter field reads as the coefficient with that
/// number, and the standby field always reads as the known time with that
/// number.
pub proof fn lemma_config_fallback(byte: u8)
    ensures
        field_4_2(byte) >= 5 ==> Config::spec_decode(byte).filter == Filter::unknown,
        field_4_2(byte) <= 5 ==> Config::spec_decode(byte).filter.spec_code() == field_4_2(byte),
        Config::spec_decode(byte).t_sb != Standby::unknown,
        Config::spec_decode(byte).t_sb.spec_code() == field_7_5(byte),
{
}

} // verus!
