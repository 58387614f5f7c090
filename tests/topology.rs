use mongors::description::{ServerDescription, ServerType, TopologyType};
use mongors::topology::TopologyDescription;

const A: u64 = 1;
const B: u64 = 2;
const C: u64 = 3;

fn replica_set() -> TopologyDescription {
    TopologyDescription::new(&vec![A, B, C])
}

fn primary(address: u64, election_id: u64) -> ServerDescription {
    ServerDescription::reported(address, ServerType::RSPrimary, 5, 8, Some(election_id))
}

fn secondary(address: u64, rtt: u64) -> ServerDescription {
    ServerDescription::reported(address, ServerType::RSSecondary, rtt, 8, None)
}

fn primaries(t: &TopologyDescription) -> usize {
    t.servers.iter().filter(|s| s.server_type == ServerType::RSPrimary).count()
}

#[test]
fn new_topology_is_unknown_with_distinct_seeds() {
    let t = TopologyDescription::new(&vec![A, B, A]);
    assert_eq!(t.topology_type, TopologyType::Unknown);
    assert_eq!(t.servers.len(), 2);
    assert_eq!(t.servers[0], ServerDescription::unknown(A));
    assert_eq!(t.servers[1], ServerDescription::unknown(B));
    assert_eq!(t.max_election_id, None);
}

#[test]
fn stale_primary_is_ignored() {
    let mut t = replica_set();
    t.apply_update(primary(A, 2));
    assert_eq!(t.topology_type, TopologyType::ReplicaSetWithPrimary);
    assert_eq!(t.primary(), Some(A));
    let before = t.clone();
    t.apply_update(primary(B, 1));
    assert_eq!(t.topology_type, before.topology_type);
    assert_eq!(t.servers, before.servers);
    assert_eq!(t.max_election_id, Some(2));
    assert_eq!(t.primary(), Some(A));
    assert_eq!(t.server(B), Some(ServerDescription::unknown(B)));
}

#[test]
fn newer_primary_demotes_old_one() {
    let mut t = replica_set();
    t.apply_update(primary(A, 2));
    t.apply_update(primary(B, 3));
    assert_eq!(primaries(&t), 1);
    assert_eq!(t.primary(), Some(B));
    assert_eq!(t.server(A), Some(ServerDescription::unknown(A)));
    assert_eq!(t.max_election_id, Some(3));
    assert_eq!(t.topology_type, TopologyType::ReplicaSetWithPrimary);
}

#[test]
fn at_most_one_primary_after_any_reports() {
    let mut t = replica_set();
    let reports = vec![primary(A, 1), primary(B, 1), secondary(A, 3), primary(C, 4), primary(A, 2), primary(B, 5)];
    for r in reports {
        t.apply_update(r);
        assert!(primaries(&t) <= 1);
    }
    assert_eq!(t.primary(), Some(B));
}

#[test]
fn same_report_twice_is_same_as_once() {
    let reports = vec![primary(A, 2), secondary(B, 4), ServerDescription::failed(C)];
    for r in reports {
        let mut once = replica_set();
        once.apply_update(secondary(C, 7));
        once.apply_update(r);
        let mut twice = once.clone();
        twice.apply_update(r);
        assert_eq!(once.topology_type, twice.topology_type);
        assert_eq!(once.servers, twice.servers);
        assert_eq!(once.max_election_id, twice.max_election_id);
    }
}

#[test]
fn standalone_makes_single() {
    let mut t = TopologyDescription::new(&vec![A]);
    t.apply_update(ServerDescription::reported(A, ServerType::Standalone, 1, 8, None));
    assert_eq!(t.topology_type, TopologyType::Single);
}

#[test]
fn mongos_makes_sharded() {
    let mut t = TopologyDescription::new(&vec![A, B]);
    t.apply_update(ServerDescription::reported(B, ServerType::Mongos, 1, 8, None));
    assert_eq!(t.topology_type, TopologyType::Sharded);
}

#[test]
fn secondary_in_unknown_topology_makes_replica_set_without_primary() {
    let mut t = replica_set();
    t.apply_update(secondary(B, 3));
    assert_eq!(t.topology_type, TopologyType::ReplicaSetNoPrimary);
}

#[test]
fn unreachable_primary_leaves_no_primary() {
    let mut t = replica_set();
    t.apply_update(primary(A, 1));
    t.apply_update(ServerDescription::failed(A));
    assert_eq!(t.topology_type, TopologyType::ReplicaSetNoPrimary);
    assert_eq!(t.primary(), None);
    assert!(t.server(A).unwrap().has_error);
}

#[test]
fn fast_invalidation_marks_unknown() {
    let mut t = replica_set();
    t.apply_update(primary(A, 1));
    t.mark_server_unknown(A);
    assert_eq!(t.server(A), Some(ServerDescription::unknown(A)));
    assert_eq!(t.topology_type, TopologyType::ReplicaSetNoPrimary);
}

#[test]
fn report_for_unknown_address_is_ignored() {
    let mut t = replica_set();
    t.apply_update(primary(9, 1));
    assert_eq!(t.topology_type, TopologyType::Unknown);
    assert_eq!(t.server(9), None);
    assert_eq!(t.max_election_id, None);
}

#[test]
fn host_list_adds_and_removes_members() {
    let mut t = TopologyDescription::new(&vec![A, B]);
    t.apply_update(primary(A, 1));
    t.apply_update(secondary(B, 4));
    let removed = t.sync_members(&vec![A, C, 4, C]);
    assert_eq!(removed, vec![B]);
    let mut addresses: Vec<u64> = t.servers.iter().map(|s| s.address).collect();
    addresses.sort();
    assert_eq!(addresses, vec![A, C, 4]);
    assert_eq!(t.server(A), Some(primary(A, 1)));
    assert_eq!(t.server(C), Some(ServerDescription::unknown(C)));
    assert_eq!(t.topology_type, TopologyType::ReplicaSetWithPrimary);
}

#[test]
fn dropping_the_primary_leaves_no_primary() {
    let mut t = replica_set();
    t.apply_update(primary(A, 1));
    let removed = t.sync_members(&vec![B, C]);
    assert_eq!(removed, vec![A]);
    assert_eq!(t.primary(), None);
    assert_eq!(t.topology_type, TopologyType::ReplicaSetNoPrimary);
}
