//! Failure classification for operations: which errors mark a node Unknown,
//! which clear its pool, and which allow the one retry.
use vstd::prelude::*;
use crate::pool::{ConnectionPool, PoolView};
use crate::topology::{TopologyDescription, applied};
use crate::description::unknown_server;

verus! {

/// How an attempt to run an operation failed.
#[derive(Clone, Copy, Debug, PartialEq, Eq, Structural)]
pub enum OperationError {
    /// The transport could not be opened.
    Connect,
    /// The transport failed mid-operation.
    Network,
    /// The operation timed out on the network.
    Timeout,
    /// No pooled connection became free before the wait-queue deadline.
    PoolTimeout,
    /// No eligible node was found before the deadline.
    ServerSelectionTimeout,
    /// The server ran the command and rejected it.
    Server { code: i32 },
}

/// Wire version of the first server release that keeps its pool on a
/// "not primary" error.
pub const KEEPS_POOL_ON_NOT_PRIMARY_WIRE_VERSION: u32 = 8;

pub open spec fn is_not_primary_code(code: i32) -> bool {
    code == 10107 || code == 13435 || code == 10058
}

pub open spec fn is_recovering_code(code: i32) -> bool {
    code == 11600 || code == 11602 || code == 13436 || code == 189 || code == 91
}

pub open spec fn is_shutdown_code(code: i32) -> bool {
    code == 11600 || code == 91
}

/// Whether the node lost its primary role or is going down.
pub open spec fn is_state_change(code: i32) -> bool {
    is_not_primary_code(code) || is_recovering_code(code)
}

/// What to do after an attempt failed.
#[derive(Clone, Copy, Debug, PartialEq, Eq, Structural)]
pub struct ErrorResponse {
    /// Mark the node Unknown in the topology at once.
    pub mark_unknown: bool,
    /// Start a new generation of the node's pool.
    pub clear_pool: bool,
    /// Reselect a node and run the operation once more.
    pub retry: bool,
}

/// The response to `err` on an attempt against a node of wire version
/// `max_wire_version`. Only a first attempt of a retryable operation is
/// retried, and only after a transport failure or a state change.
pub open spec fn error_response(err: OperationError, first_attempt: bool, retryable: bool, max_wire_version: u32) -> ErrorResponse {
    let may_retry = first_attempt && retryable;
    match err {
        OperationError::Connect | OperationError::Network => ErrorResponse {
            mark_unknown: true,
            clear_pool: true,
            retry: may_retry,
        },
        OperationError::Timeout => ErrorResponse { mark_unknown: true, clear_pool: false, retry: false },
        OperationError::Server { code } => if is_state_change(code) {
            ErrorResponse {
                mark_unknown: true,
                clear_pool: is_shutdown_code(code) || max_wire_version < KEEPS_POOL_ON_NOT_PRIMARY_WIRE_VERSION,
                retry: may_retry,
            }
        } else {
            ErrorResponse { mark_unknown: false, clear_pool: false, retry: false }
        },
        _ => ErrorResponse { mark_unknown: false, clear_pool: false, retry: false },
    }
}

fn state_change_code(code: i32) -> (r: (bool, bool))
    ensures
        r == (is_state_change(code), is_shutdown_code(code)),
{
    match code {
        10107 | 13435 | 10058 | 11602 | 13436 | 189 => (true, false),
        11600 | 91 => (true, true),
        _ => (false, false),
    }
}

/// Classifies a failed attempt.
pub fn handle_error(err: OperationError, first_attempt: bool, retryable: bool, max_wire_version: u32) -> (r: ErrorResponse)
    ensures
        r == error_response(err, first_attempt, retryable, max_wire_version),
{
    let may_retry = first_attempt && retryable;
    match err {
        OperationError::Connect | OperationError::Network => ErrorResponse {
            mark_unknown: true,
            clear_pool: true,
            retry: may_retry,
        },
        OperationError::Timeout => ErrorResponse { mark_unknown: true, clear_pool: false, retry: false },
        OperationError::Server { code } => {
            let (state_change, shutdown) = state_change_code(code);
            if state_change {
                ErrorResponse {
                    mark_unknown: true,
                    clear_pool: shutdown || max_wire_version < KEEPS_POOL_ON_NOT_PRIMARY_WIRE_VERSION,
                    retry: may_retry,
                }
            } else {
                ErrorResponse { mark_unknown: false, clear_pool: false, retry: false }
            }
        },
        _ => ErrorResponse { mark_unknown: false, clear_pool: false, retry: false },
    }
}

/// Applies a response to the node's entry and pool. An error seen on a
/// connection of an older generation than the pool's changes nothing: the
/// pool was already cleared for it.
pub fn mark_stale_and_clear_pool(
    topology: &mut TopologyDescription,
    pool: &mut ConnectionPool,
    response: ErrorResponse,
    error_generation: u64,
)
    requires
        old(topology).wf(),
        old(pool).wf(),
    ensures
        final(topology).wf(),
        final(pool).wf(),
        final(topology)@ == if response.mark_unknown && error_generation == old(pool).generation {
            applied(old(topology)@, unknown_server(old(pool).address))
        } else {
            old(topology)@
        },
        final(pool)@ == if response.clear_pool && error_generation == old(pool).generation
            && old(pool).generation < u64::MAX {
            PoolView { generation: (old(pool).generation + 1) as u64, available: Seq::empty(), ..old(pool)@ }
        } else {
            old(pool)@
        },
{
    if error_generation != pool.generation {
        return;
    }
    if response.mark_unknown {
        topology.mark_server_unknown(pool.address);
    }
    if response.clear_pool && pool.generation < u64::MAX {
        pool.clear();
    }
}

} // verus!
