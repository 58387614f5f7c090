//! The topology state machine: a description of the whole cluster, rebuilt on
//! every health-check result.
use vstd::prelude::*;
use crate::description::{ServerDescription, ServerType, TopologyType, is_replica_member, unknown_server};

verus! {

/// What a topology description is, mathematically.
pub struct TopologyView {
    pub topology_type: TopologyType,
    pub servers: Seq<ServerDescription>,
    pub max_election_id: Option<u64>,
}

/// Immutable snapshot of the cluster: its type, one description per known
/// node, and the highest election id seen.
#[derive(Clone, Debug)]
pub struct TopologyDescription {
    pub topology_type: TopologyType,
    pub servers: Vec<ServerDescription>,
    pub max_election_id: Option<u64>,
}

pub open spec fn distinct_addresses(s: Seq<ServerDescription>) -> bool {
    forall|i: int, j: int|
        0 <= i < s.len() && 0 <= j < s.len() && #[trigger] s[i].address == #[trigger] s[j].address ==> i == j
}

pub open spec fn at_most_one_primary(s: Seq<ServerDescription>) -> bool {
    forall|i: int, j: int|
        0 <= i < s.len() && 0 <= j < s.len() && (#[trigger] s[i]).server_type == ServerType::RSPrimary
            && (#[trigger] s[j]).server_type == ServerType::RSPrimary ==> i == j
}

pub open spec fn contains_address(s: Seq<ServerDescription>, a: u64) -> bool {
    exists|i: int| 0 <= i < s.len() && (#[trigger] s[i]).address == a
}

pub open spec fn has_primary(s: Seq<ServerDescription>) -> bool {
    exists|i: int| 0 <= i < s.len() && (#[trigger] s[i]).server_type == ServerType::RSPrimary
}

/// A primary report whose election id is lower than one already seen.
pub open spec fn is_stale_primary(max_election_id: Option<u64>, sd: ServerDescription) -> bool {
    sd.server_type == ServerType::RSPrimary && match (sd.election_id, max_election_id) {
        (Some(e), Some(m)) => e < m,
        _ => false,
    }
}

/// Whether a report changes the topology: it is about a known node and is no
/// stale primary.
pub open spec fn accepts(t: TopologyView, sd: ServerDescription) -> bool {
    contains_address(t.servers, sd.address) && !is_stale_primary(t.max_election_id, sd)
}

/// One entry after a report: the reported node is replaced; a new primary
/// demotes every other primary to Unknown.
pub open spec fn updated_entry(old: ServerDescription, sd: ServerDescription) -> ServerDescription {
    if old.address == sd.address {
        sd
    } else if sd.server_type == ServerType::RSPrimary && old.server_type == ServerType::RSPrimary {
        unknown_server(old.address)
    } else {
        old
    }
}

pub open spec fn updated_servers(s: Seq<ServerDescription>, sd: ServerDescription) -> Seq<ServerDescription> {
    Seq::new(s.len(), |i: int| updated_entry(s[i], sd))
}

/// The topology type after a report, given the members after it.
pub open spec fn next_type(old: TopologyType, servers: Seq<ServerDescription>, sd: ServerDescription) -> TopologyType {
    if has_primary(servers) {
        TopologyType::ReplicaSetWithPrimary
    } else if sd.server_type == ServerType::Mongos {
        TopologyType::Sharded
    } else if old == TopologyType::ReplicaSetWithPrimary {
        TopologyType::ReplicaSetNoPrimary
    } else if old == TopologyType::Unknown {
        if sd.server_type == ServerType::Standalone {
            TopologyType::Single
        } else if is_replica_member(sd.server_type) {
            TopologyType::ReplicaSetNoPrimary
        } else {
            TopologyType::Unknown
        }
    } else {
        old
    }
}

pub open spec fn next_max_election_id(max_election_id: Option<u64>, sd: ServerDescription) -> Option<u64> {
    if sd.server_type == ServerType::RSPrimary && sd.election_id.is_some() {
        sd.election_id
    } else {
        max_election_id
    }
}

/// The topology after one health-check result.
pub open spec fn applied(t: TopologyView, sd: ServerDescription) -> TopologyView {
    if accepts(t, sd) {
        let servers = updated_servers(t.servers, sd);
        TopologyView {
            topology_type: next_type(t.topology_type, servers, sd),
            servers,
            max_election_id: next_max_election_id(t.max_election_id, sd),
        }
    } else {
        t
    }
}

pub open spec fn well_formed(t: TopologyView) -> bool {
    distinct_addresses(t.servers) && at_most_one_primary(t.servers)
}

impl View for TopologyDescription {
    type V = TopologyView;

    open spec fn view(&self) -> TopologyView {
        TopologyView {
            topology_type: self.topology_type,
            servers: self.servers@,
            max_election_id: self.max_election_id,
        }
    }
}

/// A report leaves at most one primary in a well-formed topology.
pub proof fn lemma_update_keeps_single_primary(t: TopologyView, sd: ServerDescription)
    requires
        well_formed(t),
    ensures
        well_formed(applied(t, sd)),
{
    if accepts(t, sd) {
        let s = t.servers;
        let n = updated_servers(s, sd);
        assert forall|i: int, j: int|
            0 <= i < n.len() && 0 <= j < n.len() && #[trigger] n[i].address == #[trigger] n[j].address implies i == j by {
            assert(n[i].address == s[i].address && n[j].address == s[j].address);
        }
        assert forall|i: int, j: int|
            0 <= i < n.len() && 0 <= j < n.len() && (#[trigger] n[i]).server_type == ServerType::RSPrimary
                && (#[trigger] n[j]).server_type == ServerType::RSPrimary implies i == j by {
            if sd.server_type == ServerType::RSPrimary {
                assert(n[i].address == sd.address && n[j].address == sd.address);
                assert(s[i].address == n[i].address && s[j].address == n[j].address);
            } else {
                assert(s[i].server_type == ServerType::RSPrimary && s[j].server_type == ServerType::RSPrimary);
            }
        }
    }
}

/// Applying the same health-check result twice gives the same topology as
/// applying it once.
pub proof fn lemma_update_idempotent(t: TopologyView, sd: ServerDescription)
    ensures
        applied(applied(t, sd), sd) == applied(t, sd),
{
    if accepts(t, sd) {
        let once = applied(t, sd);
        let s = t.servers;
        let n = once.servers;
        let i0 = choose|i: int| 0 <= i < s.len() && (#[trigger] s[i]).address == sd.address;
        assert(n[i0].address == sd.address);
        assert(accepts(once, sd));
        let nn = updated_servers(n, sd);
        assert(nn =~= n);
        assert(applied(once, sd).servers == n);
    }
}

impl TopologyDescription {
    pub open spec fn wf(&self) -> bool {
        well_formed(self@)
    }

    /// A topology of Unknown type with one Unknown member per distinct seed.
    pub fn new(seeds: &Vec<u64>) -> (r: TopologyDescription)
        ensures
            r.wf(),
            r.topology_type == TopologyType::Unknown,
            r.max_election_id.is_none(),
            forall|a: u64| contains_address(r.servers@, a) <==> seeds@.contains(a),
            forall|i: int| 0 <= i < r.servers@.len() ==> r.servers@[i] == unknown_server(r.servers@[i].address),
    {
        let mut servers: Vec<ServerDescription> = Vec::new();
        let mut i: usize = 0;
        while i < seeds.len()
            invariant
                i <= seeds@.len(),
                distinct_addresses(servers@),
                forall|k: int| 0 <= k < servers@.len() ==> servers@[k] == unknown_server(servers@[k].address),
                forall|a: u64| contains_address(servers@, a) <==> seeds@.subrange(0, i as int).contains(a),
            decreases seeds@.len() - i,
        {
            let a = seeds[i];
            let ghost prev = seeds@.subrange(0, i as int);
            let ghost next = seeds@.subrange(0, i + 1);
            assert(next =~= prev.push(a));
            assert forall|x: u64| next.contains(x) <==> prev.contains(x) || x == a by {
                if prev.contains(x) {
                    let k = choose|k: int| 0 <= k < prev.len() && prev[k] == x;
                    assert(next[k] == x);
                }
                if x == a {
                    assert(next[i as int] == x);
                }
                if next.contains(x) && x != a {
                    let k = choose|k: int| 0 <= k < next.len() && next[k] == x;
                    assert(prev[k] == x);
                }
            }
            let ghost start = servers@;
            let known = position_of(&servers, a);
            if known.is_none() {
                let ghost before = servers@;
                servers.push(ServerDescription::unknown(a));
                assert forall|x: u64| contains_address(servers@, x) <==> contains_address(before, x) || x == a by {
                    if contains_address(before, x) {
                        let k = choose|k: int| 0 <= k < before.len() && (#[trigger] before[k]).address == x;
                        assert(servers@[k] == before[k]);
                    }
                    if x == a {
                        assert(servers@[before.len() as int].address == a);
                    }
                    if contains_address(servers@, x) && x != a {
                        let k = choose|k: int| 0 <= k < servers@.len() && (#[trigger] servers@[k]).address == x;
                        assert(before[k] == servers@[k]);
                    }
                }
            }
            assert(contains_address(servers@, a));
            assert forall|x: u64| contains_address(servers@, x) <==> next.contains(x) by {
                assert(contains_address(start, x) <==> prev.contains(x));
                assert(contains_address(servers@, x) <==> (prev.contains(x) || x == a));
            }
            i += 1;
        }
        assert(seeds@.subrange(0, i as int) =~= seeds@);
        TopologyDescription { topology_type: TopologyType::Unknown, servers, max_election_id: None }
    }

    /// The description of the node at `address`, if it is a member.
    pub fn server(&self, address: u64) -> (r: Option<ServerDescription>)
        ensures
            r.is_none() <==> !contains_address(self.servers@, address),
            r matches Some(sd) ==> sd.address == address && self.servers@.contains(sd),
    {
        match position_of(&self.servers, address) {
            Some(i) => Some(self.servers[i]),
            None => None,
        }
    }

    /// The address of the primary, if there is one.
    pub fn primary(&self) -> (r: Option<u64>)
        requires
            self.wf(),
        ensures
            r.is_none() <==> !has_primary(self.servers@),
            r matches Some(a) ==> exists|i: int|
                0 <= i < self.servers@.len() && (#[trigger] self.servers@[i]).address == a
                    && self.servers@[i].server_type == ServerType::RSPrimary,
    {
        let mut i: usize = 0;
        while i < self.servers.len()
            invariant
                i <= self.servers@.len(),
                forall|k: int| 0 <= k < i ==> (#[trigger] self.servers@[k]).server_type != ServerType::RSPrimary,
            decreases self.servers@.len() - i,
        {
            if self.servers[i].is_primary() {
                return Some(self.servers[i].address);
            }
            i += 1;
        }
        None
    }

    /// Consumes one health-check result (a fresh description, or an Unknown
    /// one after a failure) and rebuilds the snapshot.
    pub fn apply_update(&mut self, sd: ServerDescription)
        requires
            old(self).wf(),
        ensures
            final(self).wf(),
            final(self)@ == applied(old(self)@, sd),
    {
        proof {
            lemma_update_keeps_single_primary(self@, sd);
        }
        if position_of(&self.servers, sd.address).is_none() {
            return;
        }
        if sd.is_primary() {
            if let (Some(e), Some(m)) = (sd.election_id, self.max_election_id) {
                if e < m {
                    return;
                }
            }
        }
        let ghost s = self.servers@;
        let mut servers: Vec<ServerDescription> = Vec::new();
        let mut found_primary = false;
        let mut i: usize = 0;
        while i < self.servers.len()
            invariant
                s == self.servers@,
                i <= s.len(),
                servers@.len() == i,
                forall|k: int| 0 <= k < i ==> servers@[k] == updated_entry(s[k], sd),
                found_primary <==> exists|k: int| 0 <= k < i && (#[trigger] servers@[k]).server_type == ServerType::RSPrimary,
            decreases s.len() - i,
        {
            let old_entry = self.servers[i];
            let entry = if old_entry.address == sd.address {
                sd
            } else if sd.is_primary() && old_entry.is_primary() {
                ServerDescription::unknown(old_entry.address)
            } else {
                old_entry
            };
            let ghost before = servers@;
            servers.push(entry);
            assert(forall|k: int| 0 <= k < i ==> servers@[k] == before[k]);
            assert(servers@[i as int] == entry);
            if entry.is_primary() {
                found_primary = true;
            }
            i += 1;
        }
        assert(servers@ =~= updated_servers(s, sd));
        let old_type = self.topology_type;
        let topology_type = if found_primary {
            TopologyType::ReplicaSetWithPrimary
        } else if sd.server_type == ServerType::Mongos {
            TopologyType::Sharded
        } else if old_type == TopologyType::ReplicaSetWithPrimary {
            TopologyType::ReplicaSetNoPrimary
        } else if old_type == TopologyType::Unknown {
            match sd.server_type {
                ServerType::Standalone => TopologyType::Single,
                ServerType::RSSecondary | ServerType::RSArbiter | ServerType::RSOther | ServerType::RSGhost => {
                    TopologyType::ReplicaSetNoPrimary
                },
                _ => TopologyType::Unknown,
            }
        } else {
            old_type
        };
        if sd.is_primary() && sd.election_id.is_some() {
            self.max_election_id = sd.election_id;
        }
        self.servers = servers;
        self.topology_type = topology_type;
    }

    /// Fast invalidation after application traffic learned that the node is
    /// no longer primary or is shutting down: it becomes Unknown at once.
    pub fn mark_server_unknown(&mut self, address: u64)
        requires
            old(self).wf(),
        ensures
            final(self).wf(),
            final(self)@ == applied(old(self)@, unknown_server(address)),
    {
        self.apply_update(ServerDescription::unknown(address));
    }
}

/// Whether `a` occurs in `hosts`.
fn lists(hosts: &Vec<u64>, a: u64) -> (r: bool)
    ensures
        r == hosts@.contains(a),
{
    let mut i: usize = 0;
    while i < hosts.len()
        invariant
            i <= hosts@.len(),
            forall|k: int| 0 <= k < i ==> hosts@[k] != a,
        decreases hosts@.len() - i,
    {
        if hosts[i] == a {
            assert(hosts@[i as int] == a);
            return true;
        }
        i += 1;
    }
    false
}

impl TopologyDescription {
    /// Brings the members in line with a primary's host list: hosts not yet
    /// known are added as Unknown, members it no longer lists are dropped.
    /// Returns the dropped addresses, whose monitors and pools are torn down.
    pub fn sync_members(&mut self, hosts: &Vec<u64>) -> (removed: Vec<u64>)
        requires
            old(self).wf(),
        ensures
            final(self).wf(),
            final(self).max_election_id == old(self).max_election_id,
            final(self).topology_type == if old(self).topology_type == TopologyType::ReplicaSetWithPrimary
                && !has_primary(final(self).servers@) {
                TopologyType::ReplicaSetNoPrimary
            } else {
                old(self).topology_type
            },
            forall|a: u64| contains_address(final(self).servers@, a) <==> hosts@.contains(a),
            forall|i: int|
                0 <= i < final(self).servers@.len() ==> if contains_address(
                    old(self).servers@,
                    (#[trigger] final(self).servers@[i]).address,
                ) {
                    old(self).servers@.contains(final(self).servers@[i])
                } else {
                    final(self).servers@[i] == unknown_server(final(self).servers@[i].address)
                },
            forall|a: u64| removed@.contains(a) <==> contains_address(old(self).servers@, a) && !hosts@.contains(a),
    {
        let ghost s = self.servers@;
        let mut kept: Vec<ServerDescription> = Vec::new();
        let mut removed: Vec<u64> = Vec::new();
        let mut any_primary = false;
        let mut i: usize = 0;
        while i < self.servers.len()
            invariant
                s == self.servers@,
                well_formed(self@),
                i <= s.len(),
                // kept holds the listed members of s[0..i]
                forall|k: int| 0 <= k < kept@.len() ==> exists|j: int| 0 <= j < i && s[j] == #[trigger] kept@[k],
                forall|k: int| 0 <= k < kept@.len() ==> hosts@.contains((#[trigger] kept@[k]).address),
                forall|j: int| 0 <= j < i && hosts@.contains((#[trigger] s[j]).address) ==> kept@.contains(s[j]),
                forall|a: u64| removed@.contains(a) <==> exists|j: int| 0 <= j < i && (#[trigger] s[j]).address == a && !hosts@.contains(a),
                distinct_addresses(kept@),
                at_most_one_primary(kept@),
                any_primary == has_primary(kept@),
            decreases s.len() - i,
        {
            let sd = self.servers[i];
            let ghost before = kept@;
            let ghost removed_before = removed@;
            if lists(hosts, sd.address) {
                kept.push(sd);
                if sd.is_primary() {
                    any_primary = true;
                }
                assert forall|k: int| 0 <= k < kept@.len() implies exists|j: int| 0 <= j < i + 1 && s[j] == #[trigger] kept@[k] by {
                    if k < before.len() {
                        assert(kept@[k] == before[k]);
                    } else {
                        assert(s[i as int] == kept@[k]);
                    }
                }
                assert forall|k1: int, k2: int|
                    0 <= k1 < kept@.len() && 0 <= k2 < kept@.len() && #[trigger] kept@[k1].address == #[trigger] kept@[k2].address implies k1 == k2 by {
                    if k1 < before.len() && k2 == before.len() {
                        let j = choose|j: int| 0 <= j < i && s[j] == #[trigger] before[k1];
                        assert(s[j].address == s[i as int].address);
                    } else if k2 < before.len() && k1 == before.len() {
                        let j = choose|j: int| 0 <= j < i && s[j] == #[trigger] before[k2];
                        assert(s[j].address == s[i as int].address);
                    } else if k1 < before.len() && k2 < before.len() {
                        assert(before[k1].address == before[k2].address);
                    }
                }
                assert forall|k1: int, k2: int|
                    0 <= k1 < kept@.len() && 0 <= k2 < kept@.len() && (#[trigger] kept@[k1]).server_type == ServerType::RSPrimary
                        && (#[trigger] kept@[k2]).server_type == ServerType::RSPrimary implies k1 == k2 by {
                    if k1 < before.len() && k2 == before.len() {
                        let j = choose|j: int| 0 <= j < i && s[j] == #[trigger] before[k1];
                        assert(s[j].server_type == ServerType::RSPrimary);
                    } else if k2 < before.len() && k1 == before.len() {
                        let j = choose|j: int| 0 <= j < i && s[j] == #[trigger] before[k2];
                        assert(s[j].server_type == ServerType::RSPrimary);
                    } else if k1 < before.len() && k2 < before.len() {
                        assert(before[k1] == kept@[k1] && before[k2] == kept@[k2]);
                    }
                }
                assert forall|j: int| 0 <= j < i + 1 && hosts@.contains((#[trigger] s[j]).address) implies kept@.contains(s[j]) by {
                    if j < i {
                        let k = choose|k: int| 0 <= k < before.len() && before[k] == s[j];
                        assert(kept@[k] == s[j]);
                    } else {
                        assert(kept@[before.len() as int] == s[j]);
                    }
                }
                proof {
                    if any_primary {
                        if sd.server_type == ServerType::RSPrimary {
                            assert(kept@[before.len() as int].server_type == ServerType::RSPrimary);
                        } else {
                            let k = choose|k: int| 0 <= k < before.len() && (#[trigger] before[k]).server_type == ServerType::RSPrimary;
                            assert(kept@[k] == before[k]);
                        }
                    } else {
                        assert forall|k: int| 0 <= k < kept@.len() implies (#[trigger] kept@[k]).server_type != ServerType::RSPrimary by {
                            if k < before.len() {
                                assert(kept@[k] == before[k]);
                            }
                        }
                    }
                }
                assert forall|a: u64| removed@.contains(a) <==> exists|j: int| 0 <= j < i + 1 && (#[trigger] s[j]).address == a && !hosts@.contains(a) by {
                    if exists|j: int| 0 <= j < i + 1 && (#[trigger] s[j]).address == a && !hosts@.contains(a) {
                        let j = choose|j: int| 0 <= j < i + 1 && (#[trigger] s[j]).address == a && !hosts@.contains(a);
                        assert(j < i);
                    }
                }
            } else {
                removed.push(sd.address);
                assert forall|a: u64| removed@.contains(a) <==> exists|j: int| 0 <= j < i + 1 && (#[trigger] s[j]).address == a && !hosts@.contains(a) by {
                    if removed@.contains(a) {
                        let k = choose|k: int| 0 <= k < removed@.len() && removed@[k] == a;
                        if k < removed_before.len() {
                            assert(removed_before[k] == a);
                            assert(removed_before.contains(a));
                            let j = choose|j: int| 0 <= j < i && (#[trigger] s[j]).address == a && !hosts@.contains(a);
                            assert(s[j].address == a);
                        } else {
                            assert(s[i as int].address == a);
                        }
                    }
                    if exists|j: int| 0 <= j < i + 1 && (#[trigger] s[j]).address == a && !hosts@.contains(a) {
                        let j = choose|j: int| 0 <= j < i + 1 && (#[trigger] s[j]).address == a && !hosts@.contains(a);
                        if j < i {
                            assert(s[j].address == a);
                            assert(removed_before.contains(a));
                            let k = choose|k: int| 0 <= k < removed_before.len() && removed_before[k] == a;
                            assert(removed@[k] == a);
                        } else {
                            assert(removed@[removed_before.len() as int] == a);
                        }
                    }
                }
                assert forall|j: int| 0 <= j < i + 1 && hosts@.contains((#[trigger] s[j]).address) implies kept@.contains(s[j]) by {
                    assert(j < i);
                }
            }
            i += 1;
        }
        let ghost kept_all = kept@;
        assert(i == s.len());
        assert forall|k: int| 0 <= k < kept_all.len() implies s.contains(#[trigger] kept_all[k]) by {
            let j = choose|j: int| 0 <= j < i && s[j] == #[trigger] kept_all[k];
            assert(s[j] == kept_all[k]);
        }
        let mut servers = kept;
        let mut h: usize = 0;
        while h < hosts.len()
            invariant
                s == self.servers@,
                well_formed(self@),
                h <= hosts@.len(),
                kept_all.len() <= servers@.len(),
                forall|k: int| 0 <= k < kept_all.len() ==> servers@[k] == kept_all[k],
                forall|k: int| 0 <= k < kept_all.len() ==> s.contains(#[trigger] kept_all[k]),
                forall|k: int| kept_all.len() <= k < servers@.len() ==> (#[trigger] servers@[k]) == unknown_server(servers@[k].address)
                    && !contains_address(s, servers@[k].address),
                forall|k: int| 0 <= k < servers@.len() ==> hosts@.contains((#[trigger] servers@[k]).address),
                forall|j: int| 0 <= j < s.len() && hosts@.contains((#[trigger] s[j]).address) ==> kept_all.contains(s[j]),
                forall|k: int| 0 <= k < h ==> contains_address(servers@, #[trigger] hosts@[k]),
                distinct_addresses(servers@),
                at_most_one_primary(servers@),
                any_primary == has_primary(servers@),
            decreases hosts@.len() - h,
        {
            let a = hosts[h];
            let ghost before = servers@;
            if position_of(&servers, a).is_none() {
                servers.push(ServerDescription::unknown(a));
                proof {
                    if contains_address(s, a) {
                        let j = choose|j: int| 0 <= j < s.len() && (#[trigger] s[j]).address == a;
                        assert(hosts@.contains(s[j].address)) by {
                            assert(hosts@[h as int] == a);
                        }
                        let k = choose|k: int| 0 <= k < kept_all.len() && kept_all[k] == s[j];
                        assert(before[k].address == a);
                    }
                    assert(servers@[before.len() as int].address == a);
                    assert forall|k: int| 0 <= k < h + 1 implies contains_address(servers@, #[trigger] hosts@[k]) by {
                        if k < h {
                            let m = choose|m: int| 0 <= m < before.len() && (#[trigger] before[m]).address == hosts@[k];
                            assert(servers@[m] == before[m]);
                        }
                    }
                    assert forall|k1: int, k2: int|
                        0 <= k1 < servers@.len() && 0 <= k2 < servers@.len() && #[trigger] servers@[k1].address == #[trigger] servers@[k2].address implies k1 == k2 by {
                        if k1 < before.len() && k2 == before.len() {
                            assert(before[k1].address == a);
                        } else if k2 < before.len() && k1 == before.len() {
                            assert(before[k2].address == a);
                        } else if k1 < before.len() && k2 < before.len() {
                            assert(before[k1].address == before[k2].address);
                        }
                    }
                    assert forall|k1: int, k2: int|
                        0 <= k1 < servers@.len() && 0 <= k2 < servers@.len() && (#[trigger] servers@[k1]).server_type == ServerType::RSPrimary
                            && (#[trigger] servers@[k2]).server_type == ServerType::RSPrimary implies k1 == k2 by {
                        assert(servers@[k1] == before[k1] && servers@[k2] == before[k2]);
                    }
                    if any_primary {
                        let k = choose|k: int| 0 <= k < before.len() && (#[trigger] before[k]).server_type == ServerType::RSPrimary;
                        assert(servers@[k] == before[k]);
                    } else {
                        assert forall|k: int| 0 <= k < servers@.len() implies (#[trigger] servers@[k]).server_type != ServerType::RSPrimary by {
                            if k < before.len() {
                                assert(servers@[k] == before[k]);
                            }
                        }
                    }
                }
            } else {
                assert(contains_address(servers@, hosts@[h as int]));
            }
            h += 1;
        }
        proof {
            assert forall|a: u64| contains_address(servers@, a) <==> hosts@.contains(a) by {
                if hosts@.contains(a) {
                    let k = choose|k: int| 0 <= k < hosts@.len() && hosts@[k] == a;
                    assert(contains_address(servers@, hosts@[k]));
                }
                if contains_address(servers@, a) {
                    let k = choose|k: int| 0 <= k < servers@.len() && (#[trigger] servers@[k]).address == a;
                    assert(hosts@.contains(servers@[k].address));
                }
            }
            assert forall|a: u64| removed@.contains(a) <==> contains_address(s, a) && !hosts@.contains(a) by {
                if contains_address(s, a) && !hosts@.contains(a) {
                    let j = choose|j: int| 0 <= j < s.len() && (#[trigger] s[j]).address == a;
                    assert(s[j].address == a);
                }
            }
            assert forall|i: int| 0 <= i < servers@.len() implies if contains_address(s, (#[trigger] servers@[i]).address) {
                s.contains(servers@[i])
            } else {
                servers@[i] == unknown_server(servers@[i].address)
            } by {
                if i < kept_all.len() {
                    assert(s.contains(kept_all[i]));
                }
            }
        }
        self.servers = servers;
        if self.topology_type == TopologyType::ReplicaSetWithPrimary && !any_primary {
            self.topology_type = TopologyType::ReplicaSetNoPrimary;
        }
        removed
    }
}

/// The index of the member at `address`.
pub fn position_of(s: &Vec<ServerDescription>, address: u64) -> (r: Option<usize>)
    ensures
        r.is_none() <==> !contains_address(s@, address),
        r matches Some(i) ==> i < s@.len() && s@[i as int].address == address,
{
    let mut i: usize = 0;
    while i < s.len()
        invariant
            i <= s@.len(),
            forall|k: int| 0 <= k < i ==> (#[trigger] s@[k]).address != address,
        decreases s@.len() - i,
    {
        if s[i].address == address {
            return Some(i);
        }
        i += 1;
    }
    None
}

} // verus!
