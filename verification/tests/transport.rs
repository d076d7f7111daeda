use bmp280::i2c;
use bmp280::register::{Register, RESET_COMMAND};
use bmp280::spi;

const REGISTERS: [Register; 7] = [
    Register::id,
    Register::reset,
    Register::status,
    Register::ctrl_meas,
    Register::config,
    Register::press,
    Register::calib00,
];

#[test]
fn register_addresses() {
    assert_eq!(Register::id.addr(), 0xD0);
    assert_eq!(Register::reset.addr(), 0xE0);
    assert_eq!(Register::status.addr(), 0xF3);
    assert_eq!(Register::ctrl_meas.addr(), 0xF4);
    assert_eq!(Register::config.addr(), 0xF5);
    assert_eq!(Register::press.addr(), 0xF7);
    assert_eq!(Register::calib00.addr(), 0x88);
    assert_eq!(RESET_COMMAND, 0xB6);
}

#[test]
fn framed_read_command_has_read_flag() {
    for register in REGISTERS {
        assert_eq!(spi::read_command(register) & 0x80, 0x80);
        assert_eq!(spi::read_command(register) & 0x7F, register.addr() & 0x7F);
        assert_eq!(spi::read_command(register), register.addr());
    }
}

#[test]
fn framed_read_frame_is_command_then_zeros() {
    let frame: [u8; 2] = spi::read_frame(Register::id);
    assert_eq!(frame, [0xD0, 0]);
    let frame: [u8; 7] = spi::read_frame(Register::press);
    assert_eq!(frame, [0xF7, 0, 0, 0, 0, 0, 0]);
    let frame: [u8; 25] = spi::read_frame(Register::calib00);
    assert_eq!(frame[0], 0x88);
    assert!(frame[1..].iter().all(|b| *b == 0));
    let frame: [u8; 1] = spi::read_frame(Register::status);
    assert_eq!(frame, [0xF3]);
    let frame: [u8; 0] = spi::read_frame(Register::status);
    assert_eq!(frame, []);
}

#[test]
fn framed_write_frame_is_address_then_byte() {
    assert_eq!(spi::write_frame(Register::reset, 0xB6), [0xE0, 0xB6]);
    assert_eq!(spi::write_frame(Register::ctrl_meas, 0x4B), [0xF4, 0x4B]);
    assert_eq!(spi::write_frame(Register::config, 0x00), [0xF5, 0x00]);
}

#[test]
fn framed_read_of_one_byte_brings_one_byte() {
    let transfer: [u8; 2] = [0xAA, 0x58];
    let payload: [u8; 1] = spi::payload(&transfer);
    assert_eq!(payload, [0x58]);
}

#[test]
fn framed_read_of_six_bytes_brings_six_bytes() {
    let transfer: [u8; 7] = [0xAA, 1, 2, 3, 4, 5, 6];
    let payload: [u8; 6] = spi::payload(&transfer);
    assert_eq!(payload, [1, 2, 3, 4, 5, 6]);
}

#[test]
fn framed_read_of_twenty_four_bytes_brings_twenty_four_bytes() {
    let mut transfer = [0u8; 25];
    for (i, byte) in transfer.iter_mut().enumerate() {
        *byte = 100 + i as u8;
    }
    let payload: [u8; 24] = spi::payload(&transfer);
    assert_eq!(payload.len(), 24);
    for (i, byte) in payload.iter().enumerate() {
        assert_eq!(*byte, 101 + i as u8);
    }
}

#[test]
fn addressed_read_block() {
    let transaction = i2c::read_block::<6>(0x76, Register::press);
    assert_eq!(transaction.address, 0x76);
    assert_eq!(transaction.write, [0xF7]);
    assert_eq!(transaction.read, [0; 6]);
    let transaction = i2c::read_block::<24>(0x77, Register::calib00);
    assert_eq!(transaction.address, 0x77);
    assert_eq!(transaction.write, [0x88]);
    assert_eq!(transaction.read, [0; 24]);
    let transaction = i2c::read_block::<1>(0x76, Register::id);
    assert_eq!(transaction.write, [0xD0]);
    assert_eq!(transaction.read, [0]);
}

#[test]
fn addressed_write_register() {
    let transaction = i2c::write_register(0x76, Register::ctrl_meas, 0x4B);
    assert_eq!(transaction.address, 0x76);
    assert_eq!(transaction.write, [0xF4, 0x4B]);
    assert_eq!(transaction.read, [0]);
}

#[test]
fn default_address() {
    assert_eq!(i2c::DEFAULT_ADDRESS, 0x76);
}
