//! The decisions of a node's monitor: what each health check reports to the
//! topology, and when the next check runs.
use vstd::prelude::*;
use crate::description::{ServerDescription, ServerType, unknown_server};

verus! {

/// The outcome of one health check.
#[derive(Clone, Copy, Debug, PartialEq, Eq, Structural)]
pub enum CheckResult {
    Replied { server_type: ServerType, round_trip_ms: u64, max_wire_version: u32, election_id: Option<u64> },
    Failed,
}

/// Per-node monitor state. Intervals are in milliseconds.
#[derive(Clone, Copy, Debug, PartialEq, Eq, Structural)]
pub struct Monitor {
    pub address: u64,
    pub heartbeat_ms: u64,
    pub min_heartbeat_ms: u64,
    /// Smoothed round-trip time, unknown until the first reply.
    pub round_trip_ms: Option<u64>,
    /// Whether the last check failed and the quick re-check was spent.
    pub rechecked: bool,
}

/// The next round-trip estimate: a moving average that weighs a new sample
/// by one fifth.
pub open spec fn smoothed_round_trip(previous: Option<u64>, sample: u64) -> int {
    match previous {
        None => sample as int,
        Some(p) => (sample + 4 * p) / 5,
    }
}

/// What a monitor reports after a check and the delay before the next one.
pub open spec fn check_report(m: Monitor, result: CheckResult) -> (ServerDescription, u64) {
    match result {
        CheckResult::Replied { server_type, round_trip_ms, max_wire_version, election_id } => (
            ServerDescription {
                address: m.address,
                server_type,
                round_trip_ms: smoothed_round_trip(m.round_trip_ms, round_trip_ms) as u64,
                max_wire_version,
                election_id,
                has_error: false,
            },
            m.heartbeat_ms,
        ),
        CheckResult::Failed => (
            ServerDescription { has_error: true, ..unknown_server(m.address) },
            if m.rechecked {
                m.heartbeat_ms
            } else {
                m.min_heartbeat_ms
            },
        ),
    }
}

impl Monitor {
    pub fn new(address: u64, heartbeat_ms: u64, min_heartbeat_ms: u64) -> (r: Monitor)
        ensures
            r == (Monitor { address, heartbeat_ms, min_heartbeat_ms, round_trip_ms: None, rechecked: false }),
    {
        Monitor { address, heartbeat_ms, min_heartbeat_ms, round_trip_ms: None, rechecked: false }
    }

    /// Consumes one check result: returns the description to apply to the
    /// topology and the delay before the next check. A failure reports the
    /// node Unknown at once and is re-checked after the short interval once.
    pub fn on_check(&mut self, result: CheckResult) -> (r: (ServerDescription, u64))
        ensures
            r == check_report(*old(self), result),
            final(self).address == old(self).address,
            final(self).heartbeat_ms == old(self).heartbeat_ms,
            final(self).min_heartbeat_ms == old(self).min_heartbeat_ms,
            final(self).rechecked == (result == CheckResult::Failed),
            final(self).round_trip_ms == match result {
                CheckResult::Replied { round_trip_ms, .. } => Some(
                    smoothed_round_trip(old(self).round_trip_ms, round_trip_ms) as u64,
                ),
                CheckResult::Failed => None,
            },
    {
        match result {
            CheckResult::Replied { server_type, round_trip_ms, max_wire_version, election_id } => {
                let rtt = match self.round_trip_ms {
                    None => round_trip_ms,
                    Some(p) => {
                        assert((round_trip_ms + 4 * p) / 5 <= u64::MAX) by (nonlinear_arith)
                            requires
                                round_trip_ms <= u64::MAX,
                                p <= u64::MAX,
                        ;
                        (((round_trip_ms as u128) + 4 * (p as u128)) / 5) as u64
                    },
                };
                self.round_trip_ms = Some(rtt);
                self.rechecked = false;
                (ServerDescription::reported(self.address, server_type, rtt, max_wire_version, election_id), self.heartbeat_ms)
            },
            CheckResult::Failed => {
                let delay = if self.rechecked {
                    self.heartbeat_ms
                } else {
                    self.min_heartbeat_ms
                };
                self.round_trip_ms = None;
                self.rechecked = true;
                (ServerDescription::failed(self.address), delay)
            },
        }
    }
}

} // verus!
