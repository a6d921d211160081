//! Shared transport-level vocabulary: the fault taxonomy reported by the
//! blocking I2C master and the timeout profile it is constructed with.

use vstd::prelude::*;

verus! {

/// Start-condition timeout, in microseconds, for the blocking I2C master.
pub const START_TIMEOUT_US: u32 = 1000;

/// How many times a start condition is retried before the transport gives up.
pub const START_RETRIES: u8 = 10;

/// Address-acknowledge timeout, in microseconds.
pub const ADDRESS_TIMEOUT_US: u32 = 1000;

/// Per-data-byte timeout, in microseconds.
pub const DATA_TIMEOUT_US: u32 = 1000;

/// Detail carried by a transport fault that is not a plain no-acknowledge:
/// a transport-level failure of the bus itself.
#[derive(Clone, Copy, Debug, PartialEq, Eq, Structural)]
pub enum FaultDetail {
    /// Misplaced start or stop condition seen on the lines.
    BusError,
    /// Lost arbitration against another master.
    ArbitrationLoss,
    /// A configured timeout elapsed before the transaction completed.
    Timeout,
}

/// Outcome reported by the transport for a failed addressed transaction.
#[derive(Clone, Copy, Debug, PartialEq, Eq, Structural)]
pub enum Fault {
    /// The addressed party returned no acknowledge bit. Expected for every
    /// unpopulated address during a scan; not a bus failure.
    NoAcknowledge,
    /// Any other transport-level failure, with its detail.
    Other(FaultDetail),
}

/// The bundle of timing bounds the transport is constructed with, immutable
/// thereafter: three independent timeouts plus a start retry count.
#[derive(Clone, Copy, Debug, PartialEq, Eq, Structural)]
pub struct TimeoutProfile {
    pub start_timeout_us: u32,
    pub start_retries: u8,
    pub address_timeout_us: u32,
    pub data_timeout_us: u32,
}

impl TimeoutProfile {
    /// The profile this system configures its transport with.
    pub fn standard() -> (t: TimeoutProfile)
        ensures
            t == (TimeoutProfile {
                start_timeout_us: START_TIMEOUT_US,
                start_retries: START_RETRIES,
                address_timeout_us: ADDRESS_TIMEOUT_US,
                data_timeout_us: DATA_TIMEOUT_US,
            }),
    {
        TimeoutProfile {
            start_timeout_us: START_TIMEOUT_US,
            start_retries: START_RETRIES,
            address_timeout_us: ADDRESS_TIMEOUT_US,
            data_timeout_us: DATA_TIMEOUT_US,
        }
    }
}

} // verus!
