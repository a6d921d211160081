//! Bus scanner: the probe schedule over the legal 7-bit address range and
//! the classification of each probe's transport outcome.
//!
//! The scanner's bus transactions themselves are issued by the surrounding
//! program (a probe is a 1-byte addressed read through the transport, paced
//! by a fixed inter-probe delay); this module decides which addresses are
//! probed, in which order, and what each observed result means.

use vstd::prelude::*;

use crate::bus::{Fault, FaultDetail};

verus! {

/// First legal 7-bit address: everything below is reserved by the I2C
/// specification and must never be probed.
pub const MIN_ADDRESS: u8 = 0x08;

/// First reserved address above the legal range: `MAX_ADDRESS` itself and
/// everything above it must never be probed.
pub const MAX_ADDRESS: u8 = 0x77;

/// What one probe of one address revealed.
#[derive(Clone, Copy, Debug, PartialEq, Eq, Structural)]
pub enum ProbeOutcome {
    /// The address phase was acknowledged: a device answers at this address.
    DeviceFound,
    /// No acknowledge: the normal outcome for an unpopulated address.
    NoAcknowledge,
    /// A transport-level failure, carried for diagnostics.
    OtherFault(FaultDetail),
}

/// One line of a scan report: an address and what probing it revealed.
#[derive(Clone, Copy, Debug, PartialEq, Eq, Structural)]
pub struct ProbeEntry {
    pub address: u8,
    pub outcome: ProbeOutcome,
}

/// The full probe schedule: every address of `[MIN_ADDRESS, MAX_ADDRESS)`,
/// each exactly once, in ascending order.
pub open spec fn scan_address_seq() -> Seq<u8> {
    Seq::new((MAX_ADDRESS - MIN_ADDRESS) as nat, |i: int| (MIN_ADDRESS + i) as u8)
}

/// How a transport result of one probe is classified: an acknowledged read
/// means a device is present, a no-acknowledge is the expected outcome for an
/// empty address, and anything else is a fault kept for diagnostics.
pub open spec fn classify_spec(res: Result<(), Fault>) -> ProbeOutcome {
    match res {
        Ok(()) => ProbeOutcome::DeviceFound,
        Err(Fault::NoAcknowledge) => ProbeOutcome::NoAcknowledge,
        Err(Fault::Other(detail)) => ProbeOutcome::OtherFault(detail),
    }
}

/// The addresses one scan probes, in the order it probes them.
pub fn probe_addresses() -> (r: Vec<u8>)
    ensures
        r@ == scan_address_seq(),
{
    let mut addrs: Vec<u8> = Vec::new();
    let mut a: u8 = MIN_ADDRESS;
    while a < MAX_ADDRESS
        invariant
            MIN_ADDRESS <= a <= MAX_ADDRESS,
            addrs@.len() == a - MIN_ADDRESS,
            forall|i: int| 0 <= i < addrs@.len() ==> addrs@[i] == MIN_ADDRESS + i,
        decreases MAX_ADDRESS - a,
    {
        addrs.push(a);
        a = a + 1;
    }
    proof {
        assert(addrs@ =~= scan_address_seq());
    }
    addrs
}

/// Classifies the transport's result for one probe.
pub fn classify_probe(res: &Result<(), Fault>) -> (r: ProbeOutcome)
    ensures
        r == classify_spec(*res),
{
    match res {
        Ok(()) => ProbeOutcome::DeviceFound,
        Err(Fault::NoAcknowledge) => ProbeOutcome::NoAcknowledge,
        Err(Fault::Other(detail)) => ProbeOutcome::OtherFault(*detail),
    }
}

/// Builds the report of one full sweep from the transport results observed
/// for the scheduled probes, one result per scheduled address in schedule
/// order. Every address of the range appears exactly once, in ascending
/// order, whatever the outcomes were: a fault at one address never cuts the
/// sweep short.
pub fn scan_report(responses: &Vec<Result<(), Fault>>) -> (r: Vec<ProbeEntry>)
    requires
        responses@.len() == scan_address_seq().len(),
    ensures
        r@.len() == scan_address_seq().len(),
        forall|i: int|
            0 <= i < r@.len() ==> r@[i] == (ProbeEntry {
                address: scan_address_seq()[i],
                outcome: classify_spec(responses@[i]),
            }),
{
    let addrs = probe_addresses();
    let mut report: Vec<ProbeEntry> = Vec::new();
    let mut k: usize = 0;
    while k < addrs.len()
        invariant
            addrs@ == scan_address_seq(),
            responses@.len() == scan_address_seq().len(),
            0 <= k <= addrs@.len(),
            report@.len() == k,
            forall|i: int|
                0 <= i < k ==> report@[i] == (ProbeEntry {
                    address: scan_address_seq()[i],
                    outcome: classify_spec(responses@[i]),
                }),
        decreases addrs@.len() - k,
    {
        let outcome = classify_probe(&responses[k]);
        report.push(ProbeEntry { address: addrs[k], outcome });
        k = k + 1;
    }
    report
}

/// The scanner never probes a reserved address: every scheduled address lies
/// in `[MIN_ADDRESS, MAX_ADDRESS)`.
pub proof fn lemma_scan_addresses_in_range()
    ensures
        forall|i: int|
            0 <= i < scan_address_seq().len() ==> MIN_ADDRESS <= #[trigger] scan_address_seq()[i]
                < MAX_ADDRESS,
{
}

/// One sweep schedules exactly `MAX_ADDRESS - MIN_ADDRESS` probes, in
/// strictly ascending address order.
pub proof fn lemma_scan_count_and_order()
    ensures
        scan_address_seq().len() == MAX_ADDRESS - MIN_ADDRESS,
        scan_address_seq().len() == 111,
        forall|i: int, j: int|
            0 <= i < j < scan_address_seq().len() ==> #[trigger] scan_address_seq()[i]
                < #[trigger] scan_address_seq()[j],
{
}

} // verus!
