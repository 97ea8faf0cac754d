//! The connection pool: a bounded number of connections to the store,
//! checked out for one query at a time.
//!
//! The pool fails fast. A checkout that finds every connection in use is
//! refused with `PoolExhausted` at once; it does not wait for one to come
//! back. A checkout that would have to open a connection while the store
//! cannot be reached is refused with `ConnectFailed`.

use crate::db::models::users::Error;
use vstd::prelude::*;

verus! {

/// How many connections there are, how many of them are out, and whether
/// the store can be reached.
#[derive(Debug)]
pub struct ConnectionPool {
    capacity: usize,
    in_use: usize,
    online: bool,
}

/// The pool as contracts speak of it.
pub struct PoolView {
    pub capacity: nat,
    pub in_use: nat,
    pub online: bool,
}

impl PoolView {
    /// No more connections are out than there are.
    pub open spec fn wf(self) -> bool {
        self.in_use <= self.capacity
    }

    /// The connections that can still be checked out.
    pub open spec fn available(self) -> nat {
        (self.capacity - self.in_use) as nat
    }

    /// Why a checkout is refused, if it is.
    pub open spec fn checkout_fault(self) -> Option<Error> {
        if self.in_use >= self.capacity {
            Some(Error::PoolExhausted)
        } else if !self.online {
            Some(Error::ConnectFailed)
        } else {
            None
        }
    }

    /// A pool as its counters show it at a moment when it refused a
    /// checkout: `capacity` connections at most, `open` of them open, `idle`
    /// of those not in use. It did not reach the store then, or it would
    /// have opened a connection.
    pub open spec fn refusing(capacity: nat, open: nat, idle: nat) -> PoolView {
        PoolView { capacity, in_use: if open >= idle { (open - idle) as nat } else { 0 }, online: false }
    }

    /// The pool with one more connection out.
    pub open spec fn checked_out(self) -> PoolView {
        PoolView { in_use: self.in_use + 1, ..self }
    }

    /// The connection that the next checkout hands out.
    pub open spec fn next_connection(self) -> Connection {
        Connection::numbered(self.in_use + 1)
    }

    /// The pool with one connection back.
    pub open spec fn checked_in(self) -> PoolView {
        PoolView { in_use: if self.in_use > 0 { (self.in_use - 1) as nat } else { 0 }, ..self }
    }
}

/// A connection that is checked out. It is handed back with `checkin`.
#[derive(Debug)]
pub struct Connection {
    slot: usize,
}

impl Connection {
    /// How many connections were out, this one included, when it was
    /// checked out.
    pub fn slot(&self) -> (slot: usize)
        ensures
            slot == self.spec_slot(),
    {
        self.slot
    }

    /// How many connections were out, this one included, when it was
    /// checked out.
    pub closed spec fn spec_slot(&self) -> usize {
        self.slot
    }

    /// The connection that is checked out as number `slot`.
    pub closed spec fn numbered(slot: nat) -> Connection {
        Connection { slot: slot as usize }
    }
}

impl View for ConnectionPool {
    type V = PoolView;

    closed spec fn view(&self) -> PoolView {
        PoolView { capacity: self.capacity as nat, in_use: self.in_use as nat, online: self.online }
    }
}

impl ConnectionPool {
    /// No more connections are out than there are.
    pub open spec fn wf(&self) -> bool {
        self@.wf()
    }

    /// A pool of `capacity` connections, none of them out, with the store
    /// in reach.
    pub fn new(capacity: usize) -> (pool: ConnectionPool)
        ensures
            pool@ == (PoolView { capacity: capacity as nat, in_use: 0, online: true }),
            pool.wf(),
    {
        ConnectionPool { capacity, in_use: 0, online: true }
    }

    /// The number of connections.
    pub fn capacity(&self) -> (n: usize)
        ensures
            n == self@.capacity,
    {
        self.capacity
    }

    /// The number of connections that are out.
    pub fn in_use(&self) -> (n: usize)
        ensures
            n == self@.in_use,
    {
        self.in_use
    }

    /// The number of connections that can still be checked out.
    pub fn available(&self) -> (n: usize)
        requires
            self.wf(),
        ensures
            n == self@.available(),
    {
        self.capacity - self.in_use
    }

    /// Whether the store can be reached.
    pub fn is_online(&self) -> (online: bool)
        ensures
            online == self@.online,
    {
        self.online
    }

    /// Records that the store came into reach, or went out of it.
    /// Connections that are out stay out.
    pub fn set_online(&mut self, online: bool)
        ensures
            final(self)@ == (PoolView { online, ..old(self)@ }),
    {
        self.online = online;
    }

    /// Checks a connection out. Refused with `PoolExhausted` when all are
    /// out, and with `ConnectFailed` when one is free but the store is out
    /// of reach; the pool is then unchanged.
    pub fn checkout(&mut self) -> (taken: Result<Connection, Error>)
        requires
            old(self).wf(),
        ensures
            final(self).wf(),
            match taken {
                Ok(connection) => {
                    &&& old(self)@.checkout_fault() is None
                    &&& final(self)@ == old(self)@.checked_out()
                    &&& connection == old(self)@.next_connection()
                    &&& connection.spec_slot() == final(self)@.in_use
                },
                Err(fault) => {
                    &&& old(self)@.checkout_fault() == Some(fault)
                    &&& final(self)@ == old(self)@
                },
            },
    {
        if self.in_use >= self.capacity {
            return Err(Error::PoolExhausted);
        }
        if !self.online {
            return Err(Error::ConnectFailed);
        }
        self.in_use = self.in_use + 1;
        Ok(Connection { slot: self.in_use })
    }

    /// Runs `work` on a connection checked out for it, and takes the
    /// connection back when `work` is done: whatever `work` answers, the
    /// pool is left as it was found. Where no connection can be checked
    /// out, `work` does not run.
    pub fn with_connection<T, F: FnOnce(&Connection) -> T>(&mut self, work: F) -> (outcome: Result<
        T,
        Error,
    >)
        requires
            old(self).wf(),
            work.requires((&old(self)@.next_connection(),)),
        ensures
            final(self).wf(),
            final(self)@ == old(self)@,
            match outcome {
                Ok(value) => {
                    &&& old(self)@.checkout_fault() is None
                    &&& work.ensures((&old(self)@.next_connection(),), value)
                },
                Err(fault) => old(self)@.checkout_fault() == Some(fault),
            },
    {
        let connection = match self.checkout() {
            Ok(connection) => connection,
            Err(fault) => {
                return Err(fault);
            },
        };
        let value = work(&connection);
        self.checkin(connection);
        Ok(value)
    }

    /// Takes a connection back. With none out, the pool stays as it is.
    pub fn checkin(&mut self, connection: Connection)
        requires
            old(self).wf(),
        ensures
            final(self).wf(),
            final(self)@ == old(self)@.checked_in(),
    {
        if self.in_use > 0 {
            self.in_use = self.in_use - 1;
        }
    }
}

/// Names the fault behind a checkout that a pool refused, from the pool's
/// counters at that moment: `PoolExhausted` if as many connections were in
/// use as the pool may hold, and `ConnectFailed` if one was free to be
/// opened and the pool still refused.
pub fn refused_checkout(capacity: u32, open: u32, idle: u32) -> (fault: Error)
    ensures
        Some(fault) == PoolView::refusing(capacity as nat, open as nat, idle as nat).checkout_fault(),
{
    let in_use: u32 = if open >= idle {
        open - idle
    } else {
        0
    };
    if in_use >= capacity {
        Error::PoolExhausted
    } else {
        Error::ConnectFailed
    }
}

/// A connection that is checked out and handed back leaves the pool as it
/// was: the number of available connections is back at its baseline.
pub proof fn lemma_checkout_checkin_restores(pool: PoolView)
    requires
        pool.wf(),
        pool.checkout_fault() is None,
    ensures
        pool.checked_out().wf(),
        pool.checked_out().checked_in() == pool,
        pool.checked_out().checked_in().available() == pool.available(),
{
}

/// One step of a call that goes through the pool, where many calls are in
/// flight at once: the call checks a connection out, or hands back the one
/// it holds. Calls are told apart by number.
pub enum PoolStep {
    Checkout(nat),
    Checkin(nat),
}

/// A pool with calls in flight: the pool, and the calls that hold one of
/// its connections.
pub struct PoolRun {
    pub pool: PoolView,
    pub holding: Set<nat>,
}

impl PoolRun {
    /// The pool with no call in flight.
    pub open spec fn idle(pool: PoolView) -> PoolRun {
        PoolRun { pool, holding: Set::empty() }
    }

    /// The run after one step. A checkout that the pool refuses leaves the
    /// call with nothing in hand, and so does one by a call that holds a
    /// connection already; a call hands back only what it holds.
    pub open spec fn step(self, step: PoolStep) -> PoolRun {
        match step {
            PoolStep::Checkout(call) => if self.holding.contains(call)
                || self.pool.checkout_fault() is Some {
                self
            } else {
                PoolRun { pool: self.pool.checked_out(), holding: self.holding.insert(call) }
            },
            PoolStep::Checkin(call) => if self.holding.contains(call) {
                PoolRun { pool: self.pool.checked_in(), holding: self.holding.remove(call) }
            } else {
                self
            },
        }
    }

    /// The run after the steps of any number of calls, in the order in
    /// which they happen to fall.
    pub open spec fn run(self, steps: Seq<PoolStep>) -> PoolRun
        decreases steps.len(),
    {
        if steps.len() == 0 {
            self
        } else {
            self.run(steps.drop_last()).step(steps.last())
        }
    }
}

/// However the steps of any number of calls interleave, the pool has
/// exactly one connection out for each call that holds one, and never more
/// than it has. Once every call has handed back what it took, the pool is
/// as it was before the first: the number of available connections is back
/// at its baseline, whatever the calls were answered.
pub proof fn lemma_calls_in_flight_leak_nothing(pool: PoolView, steps: Seq<PoolStep>)
    requires
        pool.wf(),
    ensures
        ({
            let end = PoolRun::idle(pool).run(steps);
            &&& end.pool.wf()
            &&& end.holding.finite()
            &&& end.pool.in_use == pool.in_use + end.holding.len()
            &&& end.pool.capacity == pool.capacity
            &&& end.pool.online == pool.online
            &&& end.holding.is_empty() ==> end.pool == pool && end.pool.available()
                == pool.available()
        }),
    decreases steps.len(),
{
    if steps.len() > 0 {
        lemma_calls_in_flight_leak_nothing(pool, steps.drop_last());
        let before = PoolRun::idle(pool).run(steps.drop_last());
        let end = before.step(steps.last());
        match steps.last() {
            PoolStep::Checkout(call) => {},
            PoolStep::Checkin(call) => {
                if before.holding.contains(call) {
                    assert(before.holding.len() > 0);
                }
            },
        }
        if end.holding.is_empty() {
            assert(end.holding.len() == 0);
        }
    } else {
        assert(PoolRun::idle(pool).run(steps).holding.len() == 0);
    }
}

} // verus!
