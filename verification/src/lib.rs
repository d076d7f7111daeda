//! Register-level driver core for the BMP280 pressure and temperature sensor.
//!
//! The crate holds everything about the device that is arithmetic on bytes:
//! the register map, the packed configuration and control registers, the
//! calibration block, the raw readings and the framing of both kinds of bus.
//! It performs no bus traffic itself. A caller asks it which bytes to move,
//! moves them, and hands back what the device answered.

pub mod calibration;
pub mod config;
pub mod control;
pub mod fields;
pub mod i2c;
pub mod register;
pub mod sample;
pub mod spi;
pub mod status;
pub mod tone;

pub use calibration::CalibrationData;
pub use config::{Config, Filter, Standby};
pub use control::{Control, Oversampling, PowerMode};
pub use register::Register;
pub use sample::RawSample;
pub use status::Status;
