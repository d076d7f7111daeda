//! The sensor behind an addressed bus: every exchange is one combined
//! transaction, a write followed by a read, at the device's address. This
//! module says which bytes a transaction writes, how many it reads and what
//! the bytes that were read mean; moving them is the caller's.

use crate::calibration::{CalibrationData, CALIBRATION_LEN};
use crate::config::Config;
use crate::control::Control;
use crate::register::{Register, RESET_COMMAND};
use crate::sample::{RawSample, SAMPLE_LEN};
use crate::status::Status;
use vstd::prelude::*;

verus! {

/// The address of the device when its address pin is low.
pub const DEFAULT_ADDRESS: u8 = 0x76;

/// One combined transaction: `write` is sent to the device at `address`,
/// then `read` is filled with what the device answers.
#[derive(Debug, Clone, Copy)]
pub struct Transaction<const W: usize, const R: usize> {
    /// Bus address of the device.
    pub address: u8,
    /// Bytes to write.
    pub write: [u8; W],
    /// Room for the bytes to read, zeroed.
    pub read: [u8; R],
}

/// A transaction that reads `R` bytes, starting at one register.
pub type Read<const R: usize> = Transaction<1, R>;

/// A transaction that writes one byte to one register. The single byte it
/// reads back means nothing.
pub type Write = Transaction<2, 1>;

/// Builds the transaction that reads `R` bytes starting at `register`.
pub fn read_block<const R: usize>(address: u8, register: Register) -> (transaction: Read<R>)
    ensures
        transaction.address == address,
        transaction.write@ == seq![register.spec_addr()],
        transaction.read@ == Seq::new(R as nat, |i: int| 0u8),
{
    Transaction { address, write: [register.addr()], read: [0u8; R] }
}

/// Builds the transaction that writes `byte` to `register`.
pub fn write_register(address: u8, register: Register, byte: u8) -> (transaction: Write)
    ensures
        transaction.address == address,
        transaction.write@ == seq![register.spec_addr(), byte],
        transaction.read@ == seq![0u8],
{
    Transaction { address, write: [register.addr(), byte], read: [0u8] }
}

/// Driver state for a sensor on an addressed bus.
#[derive(Debug)]
pub struct BMP280 {
    addr: u8,
    calibration: CalibrationData,
    t_fine: i32,
}

impl BMP280 {
    /// The bus address of the device.
    pub closed spec fn spec_address(&self) -> u8 {
        self.addr
    }

    /// The calibration that was loaded when the driver was made.
    pub closed spec fn spec_calibration(&self) -> CalibrationData {
        self.calibration
    }

    /// The fine temperature that the last temperature reading left, zero
    /// before the first.
    pub closed spec fn spec_t_fine(&self) -> i32 {
        self.t_fine
    }

    /// The transaction that reads the calibration block of the device at
    /// `addr`.
    pub fn read_calibration(addr: u8) -> (transaction: Read<CALIBRATION_LEN>)
        ensures
            transaction.address == addr,
            transaction.write@ == seq![Register::calib00.spec_addr()],
            transaction.read@ == Seq::new(CALIBRATION_LEN as nat, |i: int| 0u8),
    {
        read_block(addr, Register::calib00)
    }

    /// Makes the driver for the device at `addr` from the outcome of the
    /// calibration read. A read that failed makes no driver: its error is
    /// handed on.
    pub fn new_with_address<E>(read: Result<[u8; CALIBRATION_LEN], E>, addr: u8) -> (driver: Result<
        BMP280,
        E,
    >)
        ensures
            match read {
                Ok(block) => driver is Ok && driver->Ok_0.spec_address() == addr
                    && driver->Ok_0.spec_calibration() == CalibrationData::spec_decode(block@)
                    && driver->Ok_0.spec_t_fine() == 0,
                Err(error) => driver is Err && driver->Err_0 == error,
            },
    {
        match read {
            Ok(block) => Ok(
                BMP280 { addr, calibration: CalibrationData::decode(&block), t_fine: 0 },
            ),
            Err(error) => Err(error),
        }
    }

    /// Makes the driver for the device at the default address.
    pub fn new<E>(read: Result<[u8; CALIBRATION_LEN], E>) -> (driver: Result<BMP280, E>)
        ensures
            match read {
                Ok(block) => driver is Ok && driver->Ok_0.spec_address() == DEFAULT_ADDRESS
                    && driver->Ok_0.spec_calibration() == CalibrationData::spec_decode(block@)
                    && driver->Ok_0.spec_t_fine() == 0,
                Err(error) => driver is Err && driver->Err_0 == error,
            },
    {
        BMP280::new_with_address(read, DEFAULT_ADDRESS)
    }

    /// The bus address of the device.
    #[verifier::when_used_as_spec(spec_address)]
    pub fn address(&self) -> (addr: u8)
        ensures
            addr == self.spec_address(),
    {
        self.addr
    }

    /// The calibration that was loaded when the driver was made.
    #[verifier::when_used_as_spec(spec_calibration)]
    pub fn calibration(&self) -> (calibration: CalibrationData)
        ensures
            calibration == self.spec_calibration(),
    {
        self.calibration
    }

    /// The fine temperature that the last temperature reading left, zero
    /// before the first.
    #[verifier::when_used_as_spec(spec_t_fine)]
    pub fn t_fine(&self) -> (t_fine: i32)
        ensures
            t_fine == self.spec_t_fine(),
    {
        self.t_fine
    }

    /// The transaction that reads the data block.
    pub fn read_measurement(&self) -> (transaction: Read<SAMPLE_LEN>)
        ensures
            transaction.address == self.spec_address(),
            transaction.write@ == seq![Register::press.spec_addr()],
            transaction.read@ == Seq::new(SAMPLE_LEN as nat, |i: int| 0u8),
    {
        read_block(self.addr, Register::press)
    }

    /// The transaction that reads one register.
    pub fn read_register(&self, register: Register) -> (transaction: Read<1>)
        ensures
            transaction.address == self.spec_address(),
            transaction.write@ == seq![register.spec_addr()],
            transaction.read@ == seq![0u8],
    {
        read_block(self.addr, register)
    }

    /// Turns a data block that was read into a pressure. The arithmetic is
    /// the caller's: `compensate` is handed the raw pressure, the fine
    /// temperature that the last temperature reading left (zero if there was
    /// none) and the calibration, and what it returns is the pressure.
    pub fn pressure<T, F: FnOnce(u32, i32, CalibrationData) -> T>(
        &self,
        block: &[u8; SAMPLE_LEN],
        compensate: F,
    ) -> (pressure: T)
        requires
            call_requires(
                compensate,
                (
                    RawSample::spec_decode(block@).pressure,
                    self.spec_t_fine(),
                    self.spec_calibration(),
                ),
            ),
        ensures
            call_ensures(
                compensate,
                (
                    RawSample::spec_decode(block@).pressure,
                    self.spec_t_fine(),
                    self.spec_calibration(),
                ),
                pressure,
            ),
    {
        let raw: u32 = RawSample::decode(block).pressure;
        compensate(raw, self.t_fine, self.calibration)
    }

    /// Turns a data block that was read into a temperature. The arithmetic
    /// is the caller's: `compensate` is handed the raw temperature and the
    /// calibration, and returns the temperature together with the fine
    /// temperature, which the driver keeps for the pressure readings that
    /// follow.
    pub fn temp<T, F: FnOnce(u32, CalibrationData) -> (T, i32)>(
        &mut self,
        block: &[u8; SAMPLE_LEN],
        compensate: F,
    ) -> (temperature: T)
        requires
            call_requires(
                compensate,
                (RawSample::spec_decode(block@).temperature, old(self).spec_calibration()),
            ),
        ensures
            call_ensures(
                compensate,
                (RawSample::spec_decode(block@).temperature, old(self).spec_calibration()),
                (temperature, final(self).spec_t_fine()),
            ),
            final(self).spec_calibration() == old(self).spec_calibration(),
            final(self).spec_address() == old(self).spec_address(),
    {
        let raw: u32 = RawSample::decode(block).temperature;
        let (temperature, t_fine) = compensate(raw, self.calibration);
        self.t_fine = t_fine;
        temperature
    }

    /// The configuration that a read of the configuration register brought.
    pub fn config(&self, read: &[u8; 1]) -> (config: Config)
        ensures
            config == Config::spec_decode(read@[0]),
    {
        Config::decode(read[0])
    }

    /// The transaction that writes a configuration.
    pub fn set_config(&self, new: Config) -> (transaction: Write)
        ensures
            transaction.address == self.spec_address(),
            transaction.write@ == seq![Register::config.spec_addr(), new.spec_encode()],
            transaction.read@ == seq![0u8],
    {
        write_register(self.addr, Register::config, new.encode())
    }

    /// The transaction that writes the measurement control.
    pub fn set_control(&self, new: Control) -> (transaction: Write)
        ensures
            transaction.address == self.spec_address(),
            transaction.write@ == seq![Register::ctrl_meas.spec_addr(), new.spec_encode()],
            transaction.read@ == seq![0u8],
    {
        write_register(self.addr, Register::ctrl_meas, new.encode())
    }

    /// The measurement control that a read of its register brought.
    pub fn control(&self, read: &[u8; 1]) -> (control: Control)
        ensures
            control == Control::spec_decode(read@[0]),
    {
        Control::decode(read[0])
    }

    /// The status that a read of the status register brought.
    pub fn status(&self, read: &[u8; 1]) -> (status: Status)
        ensures
            status == Status::spec_decode(read@[0]),
    {
        Status::decode(read[0])
    }

    /// The device identifier that a read of the identifier register brought.
    pub fn id(&self, read: &[u8; 1]) -> (id: u8)
        ensures
            id == read@[0],
    {
        read[0]
    }

    /// The transaction that restarts the device, as a power-on would. The
    /// driver keeps its calibration and its fine temperature.
    pub fn reset(&self) -> (transaction: Write)
        ensures
            transaction.address == self.spec_address(),
            transaction.write@ == seq![Register::reset.spec_addr(), RESET_COMMAND],
            transaction.read@ == seq![0u8],
    {
        write_register(self.addr, Register::reset, RESET_COMMAND)
    }
}

} // verus!
