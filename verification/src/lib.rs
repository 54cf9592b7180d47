//! Register-level driver core for the LSM303AGR accelerometer and
//! magnetometer.
//!
//! The driver keeps a shadow copy of every control register it writes,
//! computes each new register value from that copy, writes it through a
//! [`RegisterTransport`] and commits it to the copy once the transport has
//! acknowledged the write. Every transfer is recorded where it is handed to
//! the transport, and the contracts speak of that record. Measurements and status bytes are decoded as soon
//! as they are read.

pub mod config;
pub mod conversion;
pub mod device_impl;
pub mod interface;
pub mod mode;
pub mod register_address;
pub mod shadow;
pub mod trace;
pub mod types;

pub use crate::config::Config;
pub use crate::conversion::{
    convert_fifo_status, convert_interrupt_status, convert_status, convert_temperature_status,
};
pub use crate::device_impl::Lsm303agr;
pub use crate::interface::{DeviceInterface, I2cInterface, RegisterTransport, SpiInterface};
pub use crate::register_address::{BitFlags, Register, WHO_AM_I_A_VAL, WHO_AM_I_M_VAL};
pub use crate::shadow::{RegisterWrite, ShadowRegisters};
pub use crate::types::{
    AccelMode, AccelOutputDataRate, AccelScale, Error, FifoMode, FifoStatus, IntNumber,
    InterruptStatus, MagOutputDataRate, Measurement, ModeChangeError, Status, TemperatureStatus,
    UnscaledMeasurement,
};
