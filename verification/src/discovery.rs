//! Discovery: which advertisement is accepted, and for how long to listen.
//!
//! A scan accepts the first advertisement whose service list holds the dock's
//! service. The time limit counts from the start of the scan and does not
//! depend on how many advertisements went by.

use vstd::prelude::*;

use crate::profile::{advertises_target, SERVICE_UUID};

verus! {

/// How long a scan may run, in milliseconds.
pub const SCAN_TIMEOUT_MS: u64 = 10_000;

/// What to do with one advertisement.
#[derive(Clone, Copy, Debug, PartialEq, Eq, Structural)]
pub enum ScanDecision {
    /// The advertisement is the dock's: connect to its sender.
    Accept,
    /// Not the dock: listen on, for at most `remaining_ms`.
    Continue { remaining_ms: u64 },
    /// The time limit has passed: the dock was not found.
    GiveUp,
}

/// The decision for an advertisement with service list `services` that
/// arrived `elapsed_ms` after the scan began, under a limit of `timeout_ms`.
pub open spec fn scan_decision(
    services: Seq<u128>,
    elapsed_ms: u64,
    timeout_ms: u64,
) -> ScanDecision {
    if elapsed_ms > timeout_ms {
        ScanDecision::GiveUp
    } else if services.contains(SERVICE_UUID) {
        ScanDecision::Accept
    } else {
        ScanDecision::Continue { remaining_ms: (timeout_ms - elapsed_ms) as u64 }
    }
}

/// Judges one advertisement.
///
/// Past the limit nothing is accepted. Within it the dock's service decides;
/// a scan that goes on is granted what is left of the limit and no more.
pub fn judge_advertisement(services: &Vec<u128>, elapsed_ms: u64, timeout_ms: u64) -> (decision:
    ScanDecision)
    ensures
        decision == scan_decision(services@, elapsed_ms, timeout_ms),
        elapsed_ms > timeout_ms ==> decision == ScanDecision::GiveUp,
        decision matches ScanDecision::Continue { remaining_ms } ==> elapsed_ms + remaining_ms
            == timeout_ms,
{
    if elapsed_ms > timeout_ms {
        ScanDecision::GiveUp
    } else if advertises_target(services) {
        ScanDecision::Accept
    } else {
        ScanDecision::Continue { remaining_ms: timeout_ms - elapsed_ms }
    }
}

} // verus!
