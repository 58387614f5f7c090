//! Server selection: which members of a topology may serve an operation, and
//! a uniformly random pick among them.
use vstd::prelude::*;
use rand::Rng;
use crate::description::{ServerDescription, ServerType, TopologyType};
use crate::topology::{TopologyDescription, TopologyView};

verus! {

#[derive(Clone, Copy, Debug, PartialEq, Eq, Structural)]
pub enum ReadPreference {
    Primary,
    PrimaryPreferred,
    Secondary,
    SecondaryPreferred,
    Nearest,
}

/// A read preference and a latency window: only nodes within the shortest
/// round-trip time plus the window are eligible.
#[derive(Clone, Copy, Debug, PartialEq, Eq, Structural)]
pub struct SelectionCriteria {
    pub mode: ReadPreference,
    pub latency_window_ms: u64,
}

pub open spec fn has_type(s: Seq<ServerDescription>, t: ServerType) -> bool {
    exists|i: int| 0 <= i < s.len() && (#[trigger] s[i]).server_type == t
}

/// Whether a member's type suits the criteria in a topology, before the
/// latency window is applied.
pub open spec fn suitable(t: TopologyView, mode: ReadPreference, sd: ServerDescription) -> bool {
    let primary = sd.server_type == ServerType::RSPrimary;
    let secondary = sd.server_type == ServerType::RSSecondary;
    match t.topology_type {
        TopologyType::Unknown => false,
        TopologyType::Single => sd.server_type != ServerType::Unknown,
        TopologyType::Sharded => sd.server_type == ServerType::Mongos,
        _ => match mode {
            ReadPreference::Primary => primary,
            ReadPreference::PrimaryPreferred => if has_type(t.servers, ServerType::RSPrimary) {
                primary
            } else {
                secondary
            },
            ReadPreference::Secondary => secondary,
            ReadPreference::SecondaryPreferred => if has_type(t.servers, ServerType::RSSecondary) {
                secondary
            } else {
                primary
            },
            ReadPreference::Nearest => primary || secondary,
        },
    }
}

/// Whether a round-trip time is as fast as `fastest`, or slower by less than
/// the window.
pub open spec fn within_window(rtt: u64, fastest: u64, window: u64) -> bool {
    rtt <= fastest || rtt < fastest + window
}

/// A suitable member within the window of every suitable one, hence of the
/// fastest.
pub open spec fn eligible(t: TopologyView, c: SelectionCriteria, sd: ServerDescription) -> bool {
    &&& suitable(t, c.mode, sd)
    &&& forall|j: int|
        0 <= j < t.servers.len() && suitable(t, c.mode, #[trigger] t.servers[j])
            ==> within_window(sd.round_trip_ms, t.servers[j].round_trip_ms, c.latency_window_ms)
}

pub open spec fn eligible_members(t: TopologyView, c: SelectionCriteria) -> Seq<ServerDescription> {
    t.servers.filter(|sd: ServerDescription| eligible(t, c, sd))
}

/// What a selection with a given random choice returns.
pub open spec fn selected(t: TopologyView, c: SelectionCriteria, choice: usize) -> Option<u64> {
    let e = eligible_members(t, c);
    if e.len() == 0 {
        None
    } else {
        Some(e[(choice as int) % (e.len() as int)].address)
    }
}

/// Relies on rand's `thread_rng().gen_range(0..n)`: a uniformly drawn index
/// below `n`. It panics on an empty range, which `requires` excludes.
#[verifier::external_body]
fn random_index(n: usize) -> (r: usize)
    requires
        n > 0,
    ensures
        r < n,
{
    rand::thread_rng().gen_range(0..n)
}

fn has_server_type(s: &Vec<ServerDescription>, t: ServerType) -> (r: bool)
    ensures
        r == has_type(s@, t),
{
    let mut i: usize = 0;
    while i < s.len()
        invariant
            i <= s@.len(),
            forall|k: int| 0 <= k < i ==> (#[trigger] s@[k]).server_type != t,
        decreases s@.len() - i,
    {
        if s[i].server_type == t {
            return true;
        }
        i += 1;
    }
    false
}

fn is_suitable(
    topology_type: TopologyType,
    mode: ReadPreference,
    any_primary: bool,
    any_secondary: bool,
    sd: &ServerDescription,
) -> (r: bool)
    ensures
        forall|t: TopologyView|
            t.topology_type == topology_type && any_primary == has_type(t.servers, ServerType::RSPrimary)
                && any_secondary == has_type(t.servers, ServerType::RSSecondary) ==> r == suitable(t, mode, *sd),
{
    let primary = sd.server_type == ServerType::RSPrimary;
    let secondary = sd.server_type == ServerType::RSSecondary;
    match topology_type {
        TopologyType::Unknown => false,
        TopologyType::Single => sd.server_type != ServerType::Unknown,
        TopologyType::Sharded => sd.server_type == ServerType::Mongos,
        _ => match mode {
            ReadPreference::Primary => primary,
            ReadPreference::PrimaryPreferred => if any_primary {
                primary
            } else {
                secondary
            },
            ReadPreference::Secondary => secondary,
            ReadPreference::SecondaryPreferred => if any_secondary {
                secondary
            } else {
                primary
            },
            ReadPreference::Nearest => primary || secondary,
        },
    }
}

/// The members that may serve an operation under `criteria`, in topology
/// order.
pub fn eligible_servers(topology: &TopologyDescription, criteria: SelectionCriteria) -> (r: Vec<ServerDescription>)
    ensures
        r@ == eligible_members(topology@, criteria),
{
    let ghost t = topology@;
    let s = &topology.servers;
    let any_primary = has_server_type(s, ServerType::RSPrimary);
    let any_secondary = has_server_type(s, ServerType::RSSecondary);
    let tt = topology.topology_type;
    let mode = criteria.mode;
    // The shortest round-trip time among suitable members.
    let mut fastest: Option<u64> = None;
    let mut i: usize = 0;
    while i < s.len()
        invariant
            t == topology@,
            s@ == t.servers,
            tt == t.topology_type,
            mode == criteria.mode,
            any_primary == has_type(t.servers, ServerType::RSPrimary),
            any_secondary == has_type(t.servers, ServerType::RSSecondary),
            i <= s@.len(),
            fastest.is_none() <==> forall|k: int| 0 <= k < i ==> !suitable(t, mode, #[trigger] s@[k]),
            fastest matches Some(m) ==> {
                &&& exists|k: int| 0 <= k < i && suitable(t, mode, #[trigger] s@[k]) && s@[k].round_trip_ms == m
                &&& forall|k: int| 0 <= k < i && suitable(t, mode, #[trigger] s@[k]) ==> m <= s@[k].round_trip_ms
            },
        decreases s@.len() - i,
    {
        let sd = &s[i];
        if is_suitable(tt, mode, any_primary, any_secondary, sd) {
            match fastest {
                Some(m) => {
                    if sd.round_trip_ms < m {
                        fastest = Some(sd.round_trip_ms);
                    }
                },
                None => {
                    fastest = Some(sd.round_trip_ms);
                },
            }
        }
        i += 1;
    }
    let ghost pred = |sd: ServerDescription| eligible(t, criteria, sd);
    let mut r: Vec<ServerDescription> = Vec::new();
    let mut i: usize = 0;
    while i < s.len()
        invariant
            t == topology@,
            s@ == t.servers,
            tt == t.topology_type,
            mode == criteria.mode,
            any_primary == has_type(t.servers, ServerType::RSPrimary),
            any_secondary == has_type(t.servers, ServerType::RSSecondary),
            i <= s@.len(),
            pred == (|sd: ServerDescription| eligible(t, criteria, sd)),
            fastest.is_none() <==> forall|k: int| 0 <= k < s@.len() ==> !suitable(t, mode, #[trigger] s@[k]),
            fastest matches Some(m) ==> {
                &&& exists|k: int| 0 <= k < s@.len() && suitable(t, mode, #[trigger] s@[k]) && s@[k].round_trip_ms == m
                &&& forall|k: int| 0 <= k < s@.len() && suitable(t, mode, #[trigger] s@[k]) ==> m <= s@[k].round_trip_ms
            },
            r@ == s@.subrange(0, i as int).filter(pred),
        decreases s@.len() - i,
    {
        let sd = s[i];
        let fits = is_suitable(tt, mode, any_primary, any_secondary, &sd);
        assert(fits == suitable(t, mode, sd));
        let ok = match fastest {
            Some(m) => fits && (sd.round_trip_ms <= m || (sd.round_trip_ms as u128) < (m as u128)
                + (criteria.latency_window_ms as u128)),
            None => false,
        };
        proof {
            let next = s@.subrange(0, i + 1);
            assert(next.drop_last() =~= s@.subrange(0, i as int));
            assert(next.last() == sd);
            reveal(Seq::filter);
            if ok {
                let m = fastest.unwrap();
                assert forall|j: int|
                    0 <= j < t.servers.len() && suitable(t, criteria.mode, #[trigger] t.servers[j])
                        implies within_window(sd.round_trip_ms, t.servers[j].round_trip_ms, criteria.latency_window_ms) by {
                    assert(suitable(t, mode, s@[j]));
                }
                assert(eligible(t, criteria, sd));
            } else if eligible(t, criteria, sd) {
                assert(suitable(t, mode, s@[i as int]));
                let m = fastest.unwrap();
                let k = choose|k: int| 0 <= k < s@.len() && suitable(t, mode, #[trigger] s@[k]) && s@[k].round_trip_ms == m;
                assert(suitable(t, criteria.mode, t.servers[k]));
            }
            assert(ok == pred(sd));
        }
        if ok {
            r.push(sd);
        }
        i += 1;
    }
    assert(s@.subrange(0, s@.len() as int) =~= s@);
    r
}

/// Picks the eligible member at `choice`, taken modulo their number.
pub fn select_server_at(topology: &TopologyDescription, criteria: SelectionCriteria, choice: usize) -> (r: Option<u64>)
    ensures
        r == selected(topology@, criteria, choice),
{
    let e = eligible_servers(topology, criteria);
    if e.len() == 0 {
        None
    } else {
        Some(e[choice % e.len()].address)
    }
}

/// Picks one eligible member uniformly at random, or none when no member
/// is eligible.
pub fn select_server(topology: &TopologyDescription, criteria: SelectionCriteria) -> (r: Option<u64>)
    ensures
        r.is_none() <==> eligible_members(topology@, criteria).len() == 0,
        r matches Some(a) ==> exists|i: int|
            0 <= i < eligible_members(topology@, criteria).len()
                && (#[trigger] eligible_members(topology@, criteria)[i]).address == a,
{
    let e = eligible_servers(topology, criteria);
    if e.len() == 0 {
        None
    } else {
        let choice = random_index(e.len());
        let r = select_server_at(topology, criteria, choice);
        assert((choice as int) % (e@.len() as int) == choice as int) by (nonlinear_arith)
            requires
                choice < e@.len(),
        ;
        r
    }
}

} // verus!
