//! Per-node connection pool: checkout, checkin, clear and maintenance, with
//! generation-based invalidation. Waiting for a free slot and opening the
//! transport are left to the caller; the pool decides.
use vstd::prelude::*;

verus! {

/// A pooled connection, as the pool tracks it. The transport handle itself
/// stays with the caller, keyed by `id`.
#[derive(Clone, Copy, Debug, PartialEq, Eq, Structural)]
pub struct Connection {
    pub id: u64,
    /// The pool's generation when the connection was created.
    pub generation: u64,
    pub created_at: u64,
    pub last_used_at: u64,
}

/// Bounds a pool is configured with. Times are in milliseconds.
#[derive(Clone, Copy, Debug, PartialEq, Eq, Structural)]
pub struct PoolOptions {
    pub min_size: u64,
    pub max_size: u64,
    pub max_idle_ms: u64,
    pub wait_queue_timeout_ms: u64,
}

/// The connections to one node.
#[derive(Debug)]
pub struct ConnectionPool {
    pub address: u64,
    pub options: PoolOptions,
    /// Incremented on every clear.
    pub generation: u64,
    /// Idle connections, the most recently used last.
    pub available: Vec<Connection>,
    /// Connections handed out, or reserved for one being opened.
    pub checked_out: u64,
    pub next_id: u64,
}

/// What a checkout attempt decided.
#[derive(Clone, Copy, Debug, PartialEq, Eq, Structural)]
pub enum Checkout {
    /// An idle connection of the current generation.
    Ready(Connection),
    /// A slot was reserved: the caller opens a transport for this new
    /// connection, or reports the failure with `creation_failed`.
    Create(Connection),
    /// The pool is at its maximum size: the caller waits for a checkin.
    Full,
}

/// What a pool is, mathematically.
pub struct PoolView {
    pub address: u64,
    pub options: PoolOptions,
    pub generation: u64,
    pub available: Seq<Connection>,
    pub checked_out: u64,
    pub next_id: u64,
}

impl View for ConnectionPool {
    type V = PoolView;

    open spec fn view(&self) -> PoolView {
        PoolView {
            address: self.address,
            options: self.options,
            generation: self.generation,
            available: self.available@,
            checked_out: self.checked_out,
            next_id: self.next_id,
        }
    }
}

pub open spec fn total_connections(p: PoolView) -> int {
    p.checked_out + p.available.len()
}

/// The pool's invariant: never more connections than its maximum, and every
/// idle connection of the current generation.
pub open spec fn pool_wf(p: PoolView) -> bool {
    &&& total_connections(p) <= p.options.max_size
    &&& forall|i: int| 0 <= i < p.available.len() ==> (#[trigger] p.available[i]).generation == p.generation
}

pub open spec fn next_id_after(id: u64) -> u64 {
    if id < u64::MAX {
        (id + 1) as u64
    } else {
        0
    }
}

/// The connection that a checkout hands out, if any.
pub open spec fn handed_out(r: Checkout) -> Option<Connection> {
    match r {
        Checkout::Ready(c) => Some(c),
        Checkout::Create(c) => Some(c),
        Checkout::Full => None,
    }
}

/// How a checkout at time `now` relates the pool before, the pool after and
/// its result.
pub open spec fn checkout_step(before: PoolView, after: PoolView, now: u64, r: Checkout) -> bool {
    &&& after.address == before.address
    &&& after.options == before.options
    &&& after.generation == before.generation
    &&& match r {
        Checkout::Ready(c) => {
            &&& before.available.len() > 0
            &&& c == (Connection { last_used_at: now, ..before.available.last() })
            &&& after.available == before.available.drop_last()
            &&& after.checked_out == before.checked_out + 1
            &&& after.next_id == before.next_id
        },
        Checkout::Create(c) => {
            &&& before.available.len() == 0
            &&& before.checked_out < before.options.max_size
            &&& c == (Connection {
                id: before.next_id,
                generation: before.generation,
                created_at: now,
                last_used_at: now,
            })
            &&& after.available == before.available
            &&& after.checked_out == before.checked_out + 1
            &&& after.next_id == next_id_after(before.next_id)
        },
        Checkout::Full => {
            &&& before.available.len() == 0
            &&& before.checked_out >= before.options.max_size
            &&& after == before
        },
    }
}

pub open spec fn is_idle(c: Connection, now: u64, max_idle_ms: u64) -> bool {
    c.last_used_at + max_idle_ms < now
}

/// After a clear, no checkout on the pool, then or later, hands out a
/// connection that existed before it.
pub proof fn lemma_clear_retires_older(
    c: Connection,
    before: PoolView,
    cleared: PoolView,
    later: PoolView,
    after: PoolView,
    now: u64,
    r: Checkout,
)
    requires
        c.generation <= before.generation,
        cleared.generation == before.generation + 1,
        later.generation >= cleared.generation,
        checkout_step(later, after, now, r),
        pool_wf(later),
    ensures
        handed_out(r) != Some(c),
        handed_out(r) matches Some(h) ==> h.generation == later.generation,
{
    if let Checkout::Ready(h) = r {
        assert(later.available[later.available.len() - 1].generation == later.generation);
    }
}

/// The callers waiting for a pool slot, in the order they began to wait.
/// Only the first waiter may take a freed slot.
#[derive(Debug)]
pub struct WaitQueue {
    pub waiters: Vec<u64>,
    pub next_ticket: u64,
}

impl WaitQueue {
    pub fn new() -> (r: WaitQueue)
        ensures
            r.waiters@.len() == 0,
            r.next_ticket == 0,
    {
        WaitQueue { waiters: Vec::new(), next_ticket: 0 }
    }

    /// Enters the queue at its end; returns the caller's ticket.
    pub fn join(&mut self) -> (ticket: u64)
        ensures
            ticket == old(self).next_ticket,
            final(self).waiters@ == old(self).waiters@.push(ticket),
            final(self).next_ticket == next_id_after(old(self).next_ticket),
    {
        let ticket = self.next_ticket;
        self.waiters.push(ticket);
        self.next_ticket = if ticket < u64::MAX {
            ticket + 1
        } else {
            0
        };
        ticket
    }

    /// Whether `ticket` is at the head of the queue.
    pub fn is_first(&self, ticket: u64) -> (r: bool)
        ensures
            r == (self.waiters@.len() > 0 && self.waiters@[0] == ticket),
    {
        self.waiters.len() > 0 && self.waiters[0] == ticket
    }

    /// Leaves the queue, after being served or when the wait timed out.
    pub fn leave(&mut self, ticket: u64)
        ensures
            final(self).next_ticket == old(self).next_ticket,
            final(self).waiters@ == old(self).waiters@.filter(|t: u64| t != ticket),
    {
        let ghost pred = |t: u64| t != ticket;
        let ghost s = self.waiters@;
        let mut rest: Vec<u64> = Vec::new();
        let mut i: usize = 0;
        while i < self.waiters.len()
            invariant
                s == self.waiters@,
                pred == (|t: u64| t != ticket),
                i <= s.len(),
                rest@ == s.subrange(0, i as int).filter(pred),
            decreases s.len() - i,
        {
            let t = self.waiters[i];
            proof {
                let next = s.subrange(0, i + 1);
                assert(next.drop_last() =~= s.subrange(0, i as int));
                assert(next.last() == t);
                reveal(Seq::filter);
            }
            if t != ticket {
                rest.push(t);
            }
            i += 1;
        }
        assert(s.subrange(0, s.len() as int) =~= s);
        self.waiters = rest;
    }
}

impl ConnectionPool {
    pub open spec fn wf(&self) -> bool {
        pool_wf(self@)
    }

    /// An empty pool of generation zero.
    pub fn new(address: u64, options: PoolOptions) -> (r: ConnectionPool)
        ensures
            r.wf(),
            r.address == address,
            r.options == options,
            r.generation == 0,
            r.available@.len() == 0,
            r.checked_out == 0,
            r.next_id == 0,
    {
        ConnectionPool { address, options, generation: 0, available: Vec::new(), checked_out: 0, next_id: 0 }
    }

    /// Hands out the most recently used idle connection; otherwise reserves a
    /// new one if the pool is under its maximum; otherwise reports it full.
    pub fn checkout(&mut self, now: u64) -> (r: Checkout)
        requires
            old(self).wf(),
        ensures
            final(self).wf(),
            checkout_step(old(self)@, final(self)@, now, r),
            handed_out(r) matches Some(c) ==> c.generation == final(self).generation,
    {
        match self.available.pop() {
            Some(c) => {
                assert(c.generation == self.generation);
                self.checked_out = self.checked_out + 1;
                Checkout::Ready(Connection { last_used_at: now, ..c })
            },
            None => {
                if self.checked_out < self.options.max_size {
                    let c = Connection { id: self.next_id, generation: self.generation, created_at: now, last_used_at: now };
                    self.next_id = if self.next_id < u64::MAX {
                        self.next_id + 1
                    } else {
                        0
                    };
                    self.checked_out = self.checked_out + 1;
                    Checkout::Create(c)
                } else {
                    Checkout::Full
                }
            },
        }
    }

    /// Gives back a slot reserved by `Checkout::Create` whose transport could
    /// not be opened.
    pub fn creation_failed(&mut self)
        requires
            old(self).wf(),
            old(self).checked_out > 0,
        ensures
            final(self).wf(),
            final(self)@ == (PoolView { checked_out: (old(self).checked_out - 1) as u64, ..old(self)@ }),
    {
        self.checked_out = self.checked_out - 1;
    }

    /// Returns a checked-out connection. It becomes idle again if it is of
    /// the current generation and still usable; otherwise it is discarded.
    pub fn checkin(&mut self, conn: Connection, usable: bool, now: u64) -> (kept: bool)
        requires
            old(self).wf(),
            old(self).checked_out > 0,
        ensures
            final(self).wf(),
            kept == (usable && conn.generation == old(self).generation),
            final(self)@ == (PoolView {
                available: if kept {
                    old(self).available@.push(Connection { last_used_at: now, ..conn })
                } else {
                    old(self).available@
                },
                checked_out: (old(self).checked_out - 1) as u64,
                ..old(self)@
            }),
    {
        self.checked_out = self.checked_out - 1;
        if usable && conn.generation == self.generation {
            self.available.push(Connection { last_used_at: now, ..conn });
            true
        } else {
            false
        }
    }

    /// Starts a new generation: every idle connection is dropped, and those
    /// checked out are discarded when they come back.
    pub fn clear(&mut self)
        requires
            old(self).wf(),
            old(self).generation < u64::MAX,
        ensures
            final(self).wf(),
            final(self)@ == (PoolView {
                generation: (old(self).generation + 1) as u64,
                available: Seq::empty(),
                ..old(self)@
            }),
    {
        self.generation = self.generation + 1;
        self.available = Vec::new();
        assert(self.available@ =~= Seq::<Connection>::empty());
    }

    /// Drops the idle connections unused for longer than the configured
    /// maximum idle time.
    pub fn remove_idle(&mut self, now: u64)
        requires
            old(self).wf(),
        ensures
            final(self).wf(),
            final(self)@ == (PoolView {
                available: old(self).available@.filter(|c: Connection| !is_idle(c, now, old(self).options.max_idle_ms)),
                ..old(self)@
            }),
    {
        let ghost pred = |c: Connection| !is_idle(c, now, self.options.max_idle_ms);
        let ghost s = self.available@;
        let max_idle = self.options.max_idle_ms;
        let mut kept: Vec<Connection> = Vec::new();
        let mut i: usize = 0;
        while i < self.available.len()
            invariant
                s == self.available@,
                max_idle == self.options.max_idle_ms,
                pred == (|c: Connection| !is_idle(c, now, max_idle)),
                i <= s.len(),
                kept@ == s.subrange(0, i as int).filter(pred),
                forall|k: int| 0 <= k < s.len() ==> (#[trigger] s[k]).generation == self.generation,
                forall|k: int| 0 <= k < kept@.len() ==> (#[trigger] kept@[k]).generation == self.generation,
                kept@.len() <= i,
            decreases s.len() - i,
        {
            let c = self.available[i];
            proof {
                let next = s.subrange(0, i + 1);
                assert(next.drop_last() =~= s.subrange(0, i as int));
                assert(next.last() == c);
                reveal(Seq::filter);
            }
            if (c.last_used_at as u128) + (max_idle as u128) >= now as u128 {
                kept.push(c);
            }
            i += 1;
        }
        assert(s.subrange(0, s.len() as int) =~= s);
        self.available = kept;
    }

    /// Reserves a slot for a connection that brings the pool up to its
    /// minimum size, if it is below it: the caller opens it and checks it in.
    pub fn reserve_for_minimum(&mut self, now: u64) -> (r: Option<Connection>)
        requires
            old(self).wf(),
        ensures
            final(self).wf(),
            r.is_some() <==> total_connections(old(self)@) < old(self).options.min_size
                && total_connections(old(self)@) < old(self).options.max_size,
            r.is_none() ==> final(self)@ == old(self)@,
            r matches Some(c) ==> {
                &&& c == (Connection {
                    id: old(self).next_id,
                    generation: old(self).generation,
                    created_at: now,
                    last_used_at: now,
                })
                &&& final(self)@ == (PoolView {
                    checked_out: (old(self).checked_out + 1) as u64,
                    next_id: next_id_after(old(self).next_id),
                    ..old(self)@
                })
            },
    {
        let total = self.checked_out + self.available.len() as u64;
        if total < self.options.min_size && total < self.options.max_size {
            let c = Connection { id: self.next_id, generation: self.generation, created_at: now, last_used_at: now };
            self.next_id = if self.next_id < u64::MAX {
                self.next_id + 1
            } else {
                0
            };
            self.checked_out = self.checked_out + 1;
            Some(c)
        } else {
            None
        }
    }
}

} // verus!
