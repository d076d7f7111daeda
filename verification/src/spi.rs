//! The sensor behind a framed bus: every exchange is one transfer while the
//! chip-select line is held low. This module says which bytes go into a
//! transfer and which of the bytes that come back count; moving them, and
//! the chip-select line, are the caller's.

use crate::calibration::{CalibrationData, CALIBRATION_LEN};
use crate::config::Config;
use crate::control::Control;
use crate::register::{Register, RESET_COMMAND};
use crate::sample::{RawSample, SAMPLE_LEN};
use crate::status::Status;
use vstd::prelude::*;

verus! {

/// The bit of the first byte that marks a transfer as a read.
pub const READ_FLAG: u8 = 0x80;

/// Bytes in the transfer that reads the calibration block.
pub const CALIBRATION_TRANSFER_LEN: usize = 25;

/// Bytes in the transfer that reads the data block.
pub const MEASUREMENT_TRANSFER_LEN: usize = 7;

/// Bytes in a transfer that reads or writes one register.
pub const REGISTER_TRANSFER_LEN: usize = 2;

/// The first byte of a read: the register's address with the read flag set.
pub open spec fn spec_read_command(register: Register) -> u8 {
    if register.spec_addr() < 128 {
        (register.spec_addr() + 128) as u8
    } else {
        register.spec_addr()
    }
}

/// The first byte of a read: the register's address with the read flag set.
#[verifier::when_used_as_spec(spec_read_command)]
pub fn read_command(register: Register) -> (command: u8)
    ensures
        command == spec_read_command(register),
{
    let addr: u8 = register.addr();
    assert(addr | 0x80u8 == if addr < 128 {
        (addr + 128) as u8
    } else {
        addr
    }) by (bit_vector);
    addr | READ_FLAG
}

/// The bytes to send for a read of `len - 1` bytes: the read command, then a
/// zero for each byte to be clocked out of the device.
pub open spec fn spec_read_frame(register: Register, len: nat) -> Seq<u8> {
    Seq::new(
        len,
        |i: int|
            if i == 0 {
                spec_read_command(register)
            } else {
                0u8
            },
    )
}

/// Builds the buffer for a read that starts at `register`. The buffer is
/// transferred in place: what comes back takes the place of what was sent.
pub fn read_frame<const M: usize>(register: Register) -> (frame: [u8; M])
    ensures
        frame@ == spec_read_frame(register, M as nat),
{
    let mut frame = [0u8; M];
    if M > 0 {
        frame[0] = read_command(register);
    }
    frame
}

/// Builds the two bytes that write `byte` to `register`.
pub fn write_frame(register: Register, byte: u8) -> (frame: [u8; REGISTER_TRANSFER_LEN])
    ensures
        frame@ == seq![register.spec_addr(), byte],
{
    [register.addr(), byte]
}

/// What a read brought: the transfer without its first byte, which came back
/// while the command went out and means nothing.
pub open spec fn spec_payload(transfer: Seq<u8>) -> Seq<u8>
    recommends
        transfer.len() >= 1,
{
    transfer.subrange(1, transfer.len() as int)
}

/// Takes the payload out of a finished read transfer.
pub fn payload<const M: usize, const N: usize>(transfer: &[u8; M]) -> (payload: [u8; N])
    requires
        M == N + 1,
    ensures
        payload@ == spec_payload(transfer@),
{
    let mut payload = [0u8; N];
    let mut i: usize = 0;
    while i < N
        invariant
            M == N + 1,
            i <= N,
            forall|j: int| 0 <= j < i ==> payload@[j] == transfer@[j + 1],
        decreases N - i,
    {
        payload[i] = transfer[i + 1];
        i += 1;
    }
    payload
}

/// A read transfer of `n + 1` bytes brings exactly `n` payload bytes: those
/// that follow the first, in their order.
pub proof fn lemma_payload_drops_first_byte(transfer: Seq<u8>, n: nat)
    requires
        transfer.len() == n + 1,
    ensures
        spec_payload(transfer).len() == n,
        forall|i: int| 0 <= i < n ==> spec_payload(transfer)[i] == transfer[i + 1],
        seq![transfer[0]] + spec_payload(transfer) == transfer,
{
}

/// Every register of the map has the read flag in its address already, so a
/// read is announced by the address itself.
pub proof fn lemma_read_command_is_address(register: Register)
    ensures
        spec_read_command(register) == register.spec_addr(),
{
}

/// Driver state for a sensor on a framed bus.
#[derive(Debug)]
pub struct BMP280 {
    calibration: CalibrationData,
    t_fine: i32,
}

impl BMP280 {
    /// The calibration that was loaded when the driver was made.
    pub closed spec fn spec_calibration(&self) -> CalibrationData {
        self.calibration
    }

    /// The fine temperature that the last temperature reading left, zero
    /// before the first.
    pub closed spec fn spec_t_fine(&self) -> i32 {
        self.t_fine
    }

    /// The transfer that reads the calibration block.
    pub fn read_calibration() -> (frame: [u8; CALIBRATION_TRANSFER_LEN])
        ensures
            frame@ == spec_read_frame(Register::calib00, 25),
    {
        read_frame(Register::calib00)
    }

    /// Makes the driver from the outcome of the calibration transfer. A
    /// transfer that failed makes no driver: its error is handed on.
    pub fn new<E>(transfer: Result<[u8; CALIBRATION_TRANSFER_LEN], E>) -> (driver: Result<BMP280, E>)
        ensures
            match transfer {
                Ok(buffer) => driver is Ok && driver->Ok_0.spec_calibration()
                    == CalibrationData::spec_decode(spec_payload(buffer@))
                    && driver->Ok_0.spec_t_fine() == 0,
                Err(error) => driver is Err && driver->Err_0 == error,
            },
    {
        match transfer {
            Ok(buffer) => {
                let block: [u8; CALIBRATION_LEN] = payload(&buffer);
                Ok(BMP280 { calibration: CalibrationData::decode(&block), t_fine: 0 })
            },
            Err(error) => Err(error),
        }
    }

    /// The calibration that was loaded when the driver was made.
    #[verifier::when_used_as_spec(spec_calibration)]
    pub fn calibration(&self) -> (calibration: CalibrationData)
        ensures
            calibration == self.spec_calibration(),
    {
        self.calibration
    }

    /// The fine temperature that the last temperature reading left, zero
    /// before the first.
    #[verifier::when_used_as_spec(spec_t_fine)]
    pub fn t_fine(&self) -> (t_fine: i32)
        ensures
            t_fine == self.spec_t_fine(),
    {
        self.t_fine
    }

    /// The transfer that reads the data block.
    pub fn read_measurement(&self) -> (frame: [u8; MEASUREMENT_TRANSFER_LEN])
        ensures
            frame@ == spec_read_frame(Register::press, 7),
    {
        read_frame(Register::press)
    }

    /// The transfer that reads one register.
    pub fn read_register(&self, register: Register) -> (frame: [u8; REGISTER_TRANSFER_LEN])
        ensures
            frame@ == spec_read_frame(register, 2),
    {
        read_frame(register)
    }

    /// Turns a finished measurement transfer into a pressure. The arithmetic
    /// is the caller's: `compensate` is handed the raw pressure, the fine
    /// temperature that the last temperature reading left (zero if there was
    /// none) and the calibration, and what it returns is the pressure.
    pub fn pressure<T, F: FnOnce(u32, i32, CalibrationData) -> T>(
        &self,
        transfer: &[u8; MEASUREMENT_TRANSFER_LEN],
        compensate: F,
    ) -> (pressure: T)
        requires
            call_requires(
                compensate,
                (
                    RawSample::spec_decode(spec_payload(transfer@)).pressure,
                    self.spec_t_fine(),
                    self.spec_calibration(),
                ),
            ),
        ensures
            call_ensures(
                compensate,
                (
                    RawSample::spec_decode(spec_payload(transfer@)).pressure,
                    self.spec_t_fine(),
                    self.spec_calibration(),
                ),
                pressure,
            ),
    {
        let block: [u8; SAMPLE_LEN] = payload(transfer);
        let raw: u32 = RawSample::decode(&block).pressure;
        compensate(raw, self.t_fine, self.calibration)
    }

    /// Turns a finished measurement transfer into a temperature. The
    /// arithmetic is the caller's: `compensate` is handed the raw
    /// temperature and the calibration, and returns the temperature together
    /// with the fine temperature, which the driver keeps for the pressure
    /// readings that follow.
    pub fn temp<T, F: FnOnce(u32, CalibrationData) -> (T, i32)>(
        &mut self,
        transfer: &[u8; MEASUREMENT_TRANSFER_LEN],
        compensate: F,
    ) -> (temperature: T)
        requires
            call_requires(
                compensate,
                (
                    RawSample::spec_decode(spec_payload(transfer@)).temperature,
                    old(self).spec_calibration(),
                ),
            ),
        ensures
            call_ensures(
                compensate,
                (
                    RawSample::spec_decode(spec_payload(transfer@)).temperature,
                    old(self).spec_calibration(),
                ),
                (temperature, final(self).spec_t_fine()),
            ),
            final(self).spec_calibration() == old(self).spec_calibration(),
    {
        let block: [u8; SAMPLE_LEN] = payload(transfer);
        let raw: u32 = RawSample::decode(&block).temperature;
        let (temperature, t_fine) = compensate(raw, self.calibration);
        self.t_fine = t_fine;
        temperature
    }

    /// The configuration in a finished read of the configuration register.
    pub fn config(&self, transfer: &[u8; REGISTER_TRANSFER_LEN]) -> (config: Config)
        ensures
            config == Config::spec_decode(transfer@[1]),
    {
        Config::decode(transfer[1])
    }

    /// The transfer that writes a configuration.
    pub fn set_config(&self, new: Config) -> (frame: [u8; REGISTER_TRANSFER_LEN])
        ensures
            frame@ == seq![Register::config.spec_addr(), new.spec_encode()],
    {
        write_frame(Register::config, new.encode())
    }

    /// The transfer that writes the measurement control.
    pub fn set_control(&self, new: Control) -> (frame: [u8; REGISTER_TRANSFER_LEN])
        ensures
            frame@ == seq![Register::ctrl_meas.spec_addr(), new.spec_encode()],
    {
        write_frame(Register::ctrl_meas, new.encode())
    }

    /// The measurement control in a finished read of its register.
    pub fn control(&self, transfer: &[u8; REGISTER_TRANSFER_LEN]) -> (control: Control)
        ensures
            control == Control::spec_decode(transfer@[1]),
    {
        Control::decode(transfer[1])
    }

    /// The status in a finished read of the status register.
    pub fn status(&self, transfer: &[u8; REGISTER_TRANSFER_LEN]) -> (status: Status)
        ensures
            status == Status::spec_decode(transfer@[1]),
    {
        Status::decode(transfer[1])
    }

    /// The device identifier in a finished read of the identifier register.
    pub fn id(&self, transfer: &[u8; REGISTER_TRANSFER_LEN]) -> (id: u8)
        ensures
            id == transfer@[1],
    {
        transfer[1]
    }

    /// The transfer that restarts the device, as a power-on would. The
    /// driver keeps its calibration and its fine temperature.
    pub fn reset(&self) -> (frame: [u8; REGISTER_TRANSFER_LEN])
        ensures
            frame@ == seq![Register::reset.spec_addr(), RESET_COMMAND],
    {
        write_frame(Register::reset, RESET_COMMAND)
    }
}

} // verus!
