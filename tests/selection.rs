use mongors::description::{ServerDescription, ServerType};
use mongors::selection::{eligible_servers, select_server, select_server_at, ReadPreference, SelectionCriteria};
use mongors::topology::TopologyDescription;

fn replica_set(rtts: &[(u64, ServerType, u64)]) -> TopologyDescription {
    let addresses: Vec<u64> = rtts.iter().map(|r| r.0).collect();
    let mut t = TopologyDescription::new(&addresses);
    for &(a, ty, rtt) in rtts {
        let election = if ty == ServerType::RSPrimary { Some(1) } else { None };
        t.apply_update(ServerDescription::reported(a, ty, rtt, 8, election));
    }
    t
}

fn criteria(mode: ReadPreference, window: u64) -> SelectionCriteria {
    SelectionCriteria { mode, latency_window_ms: window }
}

#[test]
fn secondary_preferred_keeps_only_the_latency_window() {
    let t = replica_set(&[(1, ServerType::RSPrimary, 1), (2, ServerType::RSSecondary, 10), (3, ServerType::RSSecondary, 25)]);
    let c = criteria(ReadPreference::SecondaryPreferred, 15);
    let e = eligible_servers(&t, c);
    assert_eq!(e.len(), 1);
    assert_eq!(e[0].address, 2);
    for _ in 0..50 {
        assert_eq!(select_server(&t, c), Some(2));
    }
}

#[test]
fn window_keeps_nodes_strictly_inside_it() {
    let t = replica_set(&[(1, ServerType::RSPrimary, 1), (2, ServerType::RSSecondary, 10), (3, ServerType::RSSecondary, 24)]);
    let e = eligible_servers(&t, criteria(ReadPreference::Secondary, 15));
    assert_eq!(e.iter().map(|s| s.address).collect::<Vec<_>>(), vec![2, 3]);
}

#[test]
fn zero_window_keeps_the_fastest() {
    let t = replica_set(&[(1, ServerType::RSSecondary, 10), (2, ServerType::RSSecondary, 10), (3, ServerType::RSSecondary, 11)]);
    let e = eligible_servers(&t, criteria(ReadPreference::Secondary, 0));
    assert_eq!(e.iter().map(|s| s.address).collect::<Vec<_>>(), vec![1, 2]);
}

#[test]
fn random_pick_stays_among_eligible() {
    let t = replica_set(&[(1, ServerType::RSPrimary, 1), (2, ServerType::RSSecondary, 10), (3, ServerType::RSSecondary, 12)]);
    let c = criteria(ReadPreference::Secondary, 15);
    for _ in 0..50 {
        let a = select_server(&t, c).unwrap();
        assert!(a == 2 || a == 3);
    }
}

#[test]
fn choice_is_taken_modulo_eligible_count() {
    let t = replica_set(&[(1, ServerType::RSPrimary, 1), (2, ServerType::RSSecondary, 10), (3, ServerType::RSSecondary, 12)]);
    let c = criteria(ReadPreference::Nearest, 100);
    assert_eq!(select_server_at(&t, c, 0), Some(1));
    assert_eq!(select_server_at(&t, c, 2), Some(3));
    assert_eq!(select_server_at(&t, c, 4), Some(2));
}

#[test]
fn primary_mode_selects_the_primary() {
    let t = replica_set(&[(1, ServerType::RSSecondary, 1), (2, ServerType::RSPrimary, 30)]);
    assert_eq!(select_server(&t, criteria(ReadPreference::Primary, 15)), Some(2));
    assert_eq!(select_server(&t, criteria(ReadPreference::PrimaryPreferred, 15)), Some(2));
}

#[test]
fn preferred_modes_fall_back() {
    let no_primary = replica_set(&[(1, ServerType::RSSecondary, 1), (2, ServerType::RSArbiter, 1)]);
    assert_eq!(select_server(&no_primary, criteria(ReadPreference::PrimaryPreferred, 15)), Some(1));
    assert_eq!(select_server(&no_primary, criteria(ReadPreference::Primary, 15)), None);
    let no_secondary = replica_set(&[(1, ServerType::RSPrimary, 1), (2, ServerType::RSArbiter, 1)]);
    assert_eq!(select_server(&no_secondary, criteria(ReadPreference::SecondaryPreferred, 15)), Some(1));
    assert_eq!(select_server(&no_secondary, criteria(ReadPreference::Secondary, 15)), None);
}

#[test]
fn unknown_topology_selects_nothing() {
    let t = TopologyDescription::new(&vec![1, 2]);
    assert_eq!(select_server(&t, criteria(ReadPreference::Nearest, 15)), None);
    assert!(eligible_servers(&t, criteria(ReadPreference::Nearest, 15)).is_empty());
}

#[test]
fn sharded_topology_selects_routers() {
    let mut t = TopologyDescription::new(&vec![1, 2]);
    t.apply_update(ServerDescription::reported(1, ServerType::Mongos, 3, 8, None));
    assert_eq!(select_server(&t, criteria(ReadPreference::Primary, 15)), Some(1));
}
