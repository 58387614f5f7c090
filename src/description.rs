//! Snapshots of one node's last known state.
use vstd::prelude::*;

verus! {

/// The role that one node reported in its last health check.
#[derive(Clone, Copy, Debug, PartialEq, Eq, Structural)]
pub enum ServerType {
    Unknown,
    Standalone,
    Mongos,
    RSPrimary,
    RSSecondary,
    RSArbiter,
    RSOther,
    RSGhost,
}

/// The shape of the whole cluster.
#[derive(Clone, Copy, Debug, PartialEq, Eq, Structural)]
pub enum TopologyType {
    Single,
    ReplicaSetNoPrimary,
    ReplicaSetWithPrimary,
    Sharded,
    Unknown,
}

/// Immutable snapshot of one node. A node is named by a numeric address
/// that the caller assigns to each host and port.
#[derive(Clone, Copy, Debug, PartialEq, Eq, Structural)]
pub struct ServerDescription {
    pub address: u64,
    pub server_type: ServerType,
    /// Round-trip time estimate, in milliseconds.
    pub round_trip_ms: u64,
    pub max_wire_version: u32,
    /// Election id reported by a primary.
    pub election_id: Option<u64>,
    /// Whether the last health check failed.
    pub has_error: bool,
}

/// A replica-set member type other than the primary.
pub open spec fn is_replica_member(t: ServerType) -> bool {
    t == ServerType::RSSecondary || t == ServerType::RSArbiter || t == ServerType::RSOther
        || t == ServerType::RSGhost
}

/// The description of a node about which nothing is known.
pub open spec fn unknown_server(address: u64) -> ServerDescription {
    ServerDescription {
        address,
        server_type: ServerType::Unknown,
        round_trip_ms: 0,
        max_wire_version: 0,
        election_id: None,
        has_error: false,
    }
}

impl ServerDescription {
    /// A node that has been referenced but not yet checked.
    pub fn unknown(address: u64) -> (r: ServerDescription)
        ensures
            r == unknown_server(address),
    {
        ServerDescription {
            address,
            server_type: ServerType::Unknown,
            round_trip_ms: 0,
            max_wire_version: 0,
            election_id: None,
            has_error: false,
        }
    }

    /// A node whose health check failed.
    pub fn failed(address: u64) -> (r: ServerDescription)
        ensures
            r == (ServerDescription { has_error: true, ..unknown_server(address) }),
    {
        ServerDescription {
            address,
            server_type: ServerType::Unknown,
            round_trip_ms: 0,
            max_wire_version: 0,
            election_id: None,
            has_error: true,
        }
    }

    /// A node that answered its health check.
    pub fn reported(
        address: u64,
        server_type: ServerType,
        round_trip_ms: u64,
        max_wire_version: u32,
        election_id: Option<u64>,
    ) -> (r: ServerDescription)
        ensures
            r.address == address,
            r.server_type == server_type,
            r.round_trip_ms == round_trip_ms,
            r.max_wire_version == max_wire_version,
            r.election_id == election_id,
            !r.has_error,
    {
        ServerDescription { address, server_type, round_trip_ms, max_wire_version, election_id, has_error: false }
    }

    pub fn is_primary(&self) -> (r: bool)
        ensures
            r == (self.server_type == ServerType::RSPrimary),
    {
        self.server_type == ServerType::RSPrimary
    }
}

} // verus!
