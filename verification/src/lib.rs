//! Verified core of an I2C sensor monitor: bus scanning over the legal
//! 7-bit address range, CRC-8 validation of sensor frames, the sensor's
//! initialization and measurement protocol, and fixed-point unit conversion.
//!
//! The blocking transport (an I2C master with configurable timeouts) and the
//! delay primitive are external collaborators: the surrounding program issues
//! the bus transactions and hands the observed results to this library, which
//! holds every decision the system makes about those results.

pub mod bus;
pub mod convert;
pub mod crc8;
pub mod scanner;
pub mod sensor;
