//! The register map of the device.

use vstd::prelude::*;

verus! {

/// A register of the device, in its 8-bit address space.
#[allow(non_camel_case_types)]
#[derive(Debug, Clone, Copy, PartialEq, Eq, Structural)]
pub enum Register {
    /// Device identifier, read-only.
    id,
    /// Soft reset: writing [`RESET_COMMAND`] restarts the device.
    reset,
    /// Measurement status.
    status,
    /// Oversampling and power mode.
    ctrl_meas,
    /// Standby time and filter.
    config,
    /// Start of the six-byte pressure and temperature data block.
    press,
    /// Start of the 24-byte calibration block.
    calib00,
}

/// The byte that restarts the device when written to the reset register.
pub const RESET_COMMAND: u8 = 0xB6;

impl Register {
    /// The register's address.
    pub open spec fn spec_addr(self) -> u8 {
        match self {
            Register::id => 0xD0,
            Register::reset => 0xE0,
            Register::status => 0xF3,
            Register::ctrl_meas => 0xF4,
            Register::config => 0xF5,
            Register::press => 0xF7,
            Register::calib00 => 0x88,
        }
    }

    /// The register's address.
    #[verifier::when_used_as_spec(spec_addr)]
    pub fn addr(self) -> (a: u8)
        ensures
            a == self.spec_addr(),
    {
        match self {
            Register::id => 0xD0,
            Register::reset => 0xE0,
            Register::status => 0xF3,
            Register::ctrl_meas => 0xF4,
            Register::config => 0xF5,
            Register::press => 0xF7,
            Register::calib00 => 0x88,
        }
    }
}

} // verus!
