//! Sensor state machine: the device's lifecycle (uninitialized, then
//! calibrated and ready to read) and every decision of its wire protocol.
//!
//! The transport transactions and the blocking delays are performed by the
//! surrounding program; this module says which command bytes are written,
//! how long to settle, and what each observed status byte or measurement
//! frame means. The uninitialized handle is consumed by initialization and a
//! differently-typed handle comes back, so a measurement can never be asked
//! of a device that was not seen calibrated: there is no way to construct an
//! [`InitializedSensor`] but through [`Sensor::complete_init`].

use vstd::prelude::*;

use crate::bus::Fault;
use crate::convert::{
    humidity_milli_percent,
    humidity_milli_spec,
    temperature_milli_celsius,
    temperature_milli_spec,
};
use crate::crc8::{crc8_valid, is_valid};

verus! {

/// The sensor's fixed 7-bit bus address.
pub const SENSOR_ADDRESS: u8 = 0x38;

/// Status-byte bit that is set while a conversion is still running.
pub const STATUS_BUSY_MASK: u8 = 0x80;

/// Status-byte bit that is set once the device holds valid calibration data.
pub const STATUS_CALIBRATED_MASK: u8 = 0x08;

/// Settle time, in milliseconds, after the initialization command.
pub const INIT_SETTLE_MS: u16 = 10;

/// Conversion time, in milliseconds, to wait after a measurement trigger
/// before reading the frame back.
pub const MEASUREMENT_DELAY_MS: u16 = 80;

/// Cadence, in milliseconds, between measurement cycles.
pub const CYCLE_DELAY_MS: u16 = 1000;

/// Length of one measurement frame: a status byte, five bytes holding the
/// two bit-packed 20-bit fields, and the trailing CRC-8.
pub const MEASUREMENT_LEN: usize = 7;

/// Bound on how many times the status byte is polled for the calibration
/// bit after the initialization command: if it never sets within this many
/// reads, initialization has failed.
pub const MAX_INIT_POLLS: u8 = 10;

/// Failures of the measurement path.
#[derive(Clone, Copy, Debug, PartialEq, Eq, Structural)]
pub enum SensorError {
    /// The device never showed a calibrated status: fatal to the measurement
    /// path, no reads are attempted without re-initialization.
    InitializationFailed,
    /// A measurement cycle failed: the transport read faulted, the frame had
    /// the wrong length, or its checksum did not validate. The caller decides
    /// whether to retry, skip, or stop; no reading is reported.
    ReadFailed,
}

/// A calibrated reading, computed fresh from one validated frame: relative
/// humidity in thousandths of a percent and temperature in thousandths of a
/// degree Celsius.
#[derive(Clone, Copy, Debug, PartialEq, Eq, Structural)]
pub struct CalibratedReading {
    pub humidity_milli_percent: u32,
    pub temperature_milli_celsius: i32,
}

/// A handle on a sensor that has not completed initialization. The only
/// operation that leads onward consumes it.
pub struct Sensor {
    address: u8,
}

/// A handle on a sensor that was observed calibrated. Only this type offers
/// the measurement operations.
pub struct InitializedSensor {
    address: u8,
}

/// Whether a status byte shows the calibration bit.
pub open spec fn status_calibrated_spec(status: u8) -> bool {
    status & STATUS_CALIBRATED_MASK != 0
}

/// Whether a status byte shows a conversion still running.
pub open spec fn status_busy_spec(status: u8) -> bool {
    status & STATUS_BUSY_MASK != 0
}

/// The 20-bit humidity field of a frame: the second byte, the third byte,
/// and the high half of the fourth.
pub open spec fn raw_humidity_spec(b: Seq<u8>) -> u32
    recommends
        b.len() == MEASUREMENT_LEN,
{
    ((b[1] as u32) << 12) | ((b[2] as u32) << 4) | ((b[3] as u32) >> 4)
}

/// The 20-bit temperature field of a frame: the low half of the fourth byte,
/// the fifth byte and the sixth.
pub open spec fn raw_temperature_spec(b: Seq<u8>) -> u32
    recommends
        b.len() == MEASUREMENT_LEN,
{
    (((b[3] & 0x0F) as u32) << 16) | ((b[4] as u32) << 8) | (b[5] as u32)
}

/// Tests a status byte for the calibration bit.
pub fn status_calibrated(status: u8) -> (r: bool)
    ensures
        r == status_calibrated_spec(status),
{
    status & STATUS_CALIBRATED_MASK != 0
}

/// Tests a status byte for a still-running conversion.
pub fn status_busy(status: u8) -> (r: bool)
    ensures
        r == status_busy_spec(status),
{
    status & STATUS_BUSY_MASK != 0
}

/// Whether a transport read produced an acceptable frame: a successful read
/// of exactly [`MEASUREMENT_LEN`] bytes whose trailing CRC-8 validates. Only
/// such a frame is ever reported as a reading.
pub open spec fn frame_accepted_spec(read: Result<Seq<u8>, Fault>) -> bool {
    match read {
        Ok(b) => b.len() == MEASUREMENT_LEN && crc8_valid(b),
        Err(_) => false,
    }
}

/// The reading decoded from an accepted frame.
pub open spec fn reading_spec(b: Seq<u8>) -> CalibratedReading
    recommends
        b.len() == MEASUREMENT_LEN,
{
    CalibratedReading {
        humidity_milli_percent: humidity_milli_spec(raw_humidity_spec(b)) as u32,
        temperature_milli_celsius: temperature_milli_spec(raw_temperature_spec(b)) as i32,
    }
}

/// Both bit-packed fields of a frame are 20 bits wide, so they lie inside
/// the converter's domain.
pub proof fn lemma_raw_fields_in_domain(b: Seq<u8>)
    requires
        b.len() == MEASUREMENT_LEN,
    ensures
        raw_humidity_spec(b) < 0x100000,
        raw_temperature_spec(b) < 0x100000,
{
    let x1 = b[1];
    let x2 = b[2];
    let x3 = b[3];
    let x4 = b[4];
    let x5 = b[5];
    assert((((x1 as u32) << 12) | ((x2 as u32) << 4) | ((x3 as u32) >> 4)) < 0x100000)
        by (bit_vector);
    assert(((((x3 & 0x0F) as u32) << 16) | ((x4 as u32) << 8) | (x5 as u32)) < 0x100000)
        by (bit_vector);
}

impl Sensor {
    /// A fresh, uninitialized handle bound to one bus address.
    pub fn new(address: u8) -> (s: Sensor)
        ensures
            s.addr() == address,
    {
        Sensor { address }
    }

    /// The bus address this handle is bound to.
    pub closed spec fn addr(self) -> u8 {
        self.address
    }

    /// Returns the bus address this handle is bound to.
    pub fn address(&self) -> (a: u8)
        ensures
            a == self.addr(),
    {
        self.address
    }

    /// The device reset/calibration command sequence the datasheet mandates;
    /// the caller writes it to the device, then settles for
    /// [`INIT_SETTLE_MS`] before reading the status back.
    pub fn init_commands(&self) -> (r: Vec<u8>)
        ensures
            r@ == seq![0xBEu8, 0x08u8, 0x00u8],
    {
        let mut cmd: Vec<u8> = Vec::new();
        cmd.push(0xBE);
        cmd.push(0x08);
        cmd.push(0x00);
        proof {
            assert(cmd@ =~= seq![0xBEu8, 0x08u8, 0x00u8]);
        }
        cmd
    }

    /// Decides initialization from the status byte read back after the
    /// calibration command settled. Succeeds exactly when the status read
    /// succeeded and shows the calibration bit; every other outcome is
    /// [`SensorError::InitializationFailed`]. Consumes this handle either
    /// way: on success the calibrated handle takes its place, on failure the
    /// measurement path is dead.
    pub fn complete_init(self, status: Result<u8, Fault>) -> (r: Result<
        InitializedSensor,
        SensorError,
    >)
        ensures
            r is Ok <==> (status is Ok && status_calibrated_spec(status->Ok_0)),
            r is Ok ==> r->Ok_0.addr() == self.addr(),
            r is Err ==> r->Err_0 == SensorError::InitializationFailed,
    {
        match status {
            Ok(st) => {
                if st & STATUS_CALIBRATED_MASK != 0 {
                    Ok(InitializedSensor { address: self.address })
                } else {
                    Err(SensorError::InitializationFailed)
                }
            },
            Err(_) => Err(SensorError::InitializationFailed),
        }
    }
}

impl InitializedSensor {
    /// The bus address this handle is bound to.
    pub closed spec fn addr(self) -> u8 {
        self.address
    }

    /// Returns the bus address this handle is bound to.
    pub fn address(&self) -> (a: u8)
        ensures
            a == self.addr(),
    {
        self.address
    }

    /// The measurement-trigger command sequence; the caller writes it, waits
    /// [`MEASUREMENT_DELAY_MS`] for the conversion, then reads
    /// [`MEASUREMENT_LEN`] bytes back.
    pub fn trigger_commands(&self) -> (r: Vec<u8>)
        ensures
            r@ == seq![0xACu8, 0x33u8, 0x00u8],
    {
        let mut cmd: Vec<u8> = Vec::new();
        cmd.push(0xAC);
        cmd.push(0x33);
        cmd.push(0x00);
        proof {
            assert(cmd@ =~= seq![0xACu8, 0x33u8, 0x00u8]);
        }
        cmd
    }

    /// Decides one measurement cycle from the transport's read result.
    /// Reports a reading exactly when the read succeeded with a full frame
    /// whose checksum validates — a failed checksum is a hard reject, never a
    /// silently accepted reading — and the reading is the decoded, converted
    /// pair of 20-bit fields. Everything else is [`SensorError::ReadFailed`].
    pub fn process_measurement(&self, read: &Result<Vec<u8>, Fault>) -> (r: Result<
        CalibratedReading,
        SensorError,
    >)
        ensures
            r is Ok <==> frame_accepted_spec(match *read {
                Ok(b) => Ok::<Seq<u8>, Fault>(b@),
                Err(f) => Err(f),
            }),
            r is Ok ==> r->Ok_0 == reading_spec(read->Ok_0@),
            r is Err ==> r->Err_0 == SensorError::ReadFailed,
    {
        match read {
            Ok(frame) => {
                if frame.len() != MEASUREMENT_LEN {
                    Err(SensorError::ReadFailed)
                } else if !is_valid(frame) {
                    Err(SensorError::ReadFailed)
                } else {
                    proof {
                        lemma_raw_fields_in_domain(frame@);
                    }
                    let b1 = frame[1];
                    let b2 = frame[2];
                    let b3 = frame[3];
                    let b4 = frame[4];
                    let b5 = frame[5];
                    let raw_h: u32 = ((b1 as u32) << 12u32) | ((b2 as u32) << 4u32) | ((
                    b3 as u32) >> 4u32);
                    let raw_t: u32 = (((b3 & 0x0F) as u32) << 16u32) | ((b4 as u32) << 8u32) | (
                    b5 as u32);
                    Ok(
                        CalibratedReading {
                            humidity_milli_percent: humidity_milli_percent(raw_h),
                            temperature_milli_celsius: temperature_milli_celsius(raw_t),
                        },
                    )
                }
            },
            Err(_) => Err(SensorError::ReadFailed),
        }
    }
}

} // verus!
