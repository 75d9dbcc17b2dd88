//! Per-worker in-flight connection counter.
//!
//! A worker may hold at most `cap` connections in flight at once. Taking a
//! permit (`get`) is allowed only while spare capacity remains; a permit is
//! returned (`put`) when the connection's service future completes. The
//! count can therefore never exceed the capacity the counter was built with.

use vstd::prelude::*;

verus! {

/// Semaphore-like counter bounding the connections a worker holds in flight.
pub struct Counter {
    capacity: usize,
    in_flight: usize,
}

impl Counter {
    /// The capacity the counter was created with.
    pub closed spec fn cap(self) -> nat {
        self.capacity as nat
    }

    /// How many permits are currently out.
    pub closed spec fn count(self) -> nat {
        self.in_flight as nat
    }

    /// The counter never holds more permits out than its capacity.
    pub closed spec fn wf(self) -> bool {
        self.in_flight <= self.capacity
    }

    /// Spare capacity remains.
    pub open spec fn spec_available(self) -> bool {
        self.count() < self.cap()
    }

    pub fn new(capacity: usize) -> (c: Counter)
        ensures
            c.wf(),
            c.cap() == capacity,
            c.count() == 0,
    {
        Counter { capacity, in_flight: 0 }
    }

    /// True iff a further permit may be taken.
    pub fn available(&self) -> (r: bool)
        ensures
            r == self.spec_available(),
    {
        self.in_flight < self.capacity
    }

    /// Number of permits currently out.
    pub fn total(&self) -> (n: usize)
        ensures
            n == self.count(),
    {
        self.in_flight
    }

    /// Take one permit; the caller holds one more connection in flight.
    pub fn get(&mut self)
        requires
            old(self).wf(),
            old(self).spec_available(),
        ensures
            final(self).wf(),
            final(self).cap() == old(self).cap(),
            final(self).count() == old(self).count() + 1,
    {
        self.in_flight = self.in_flight + 1;
    }

    /// Return one permit; one in-flight connection has completed.
    pub fn put(&mut self)
        requires
            old(self).wf(),
            old(self).count() > 0,
        ensures
            final(self).wf(),
            final(self).cap() == old(self).cap(),
            final(self).count() == old(self).count() - 1,
    {
        self.in_flight = self.in_flight - 1;
    }
}

/// A worker never holds more than its capacity in flight: the bound is part
/// of the counter's well-formedness, which every operation preserves.
pub proof fn lemma_in_flight_bounded(c: Counter)
    requires
        c.wf(),
    ensures
        c.count() <= c.cap(),
{
}

/// A permit ledger over a whole run: `true` is one permit taken when a
/// connection is dispatched, `false` one returned when its service future
/// completed. A trace is guarded when every take happens with spare
/// capacity and every return with a permit out — exactly what `get` and
/// `put` demand of every call.
pub open spec fn trace_guarded(cap: int, count: int, ops: Seq<bool>) -> bool
    decreases ops.len(),
{
    if ops.len() == 0 {
        true
    } else if ops[0] {
        count < cap && trace_guarded(cap, count + 1, ops.drop_first())
    } else {
        count > 0 && trace_guarded(cap, count - 1, ops.drop_first())
    }
}

/// Permits out after the events of `ops`, starting from `count`.
pub open spec fn count_after(count: int, ops: Seq<bool>) -> int
    decreases ops.len(),
{
    if ops.len() == 0 {
        count
    } else {
        count_after(
            if ops[0] {
                count + 1
            } else {
                count - 1
            },
            ops.drop_first(),
        )
    }
}

/// Takes minus returns over a whole trace.
pub open spec fn net_permits(ops: Seq<bool>) -> int
    decreases ops.len(),
{
    if ops.len() == 0 {
        0
    } else {
        (if ops[0] {
            1int
        } else {
            -1int
        }) + net_permits(ops.drop_first())
    }
}

/// The ledger balances: each dispatched connection takes exactly one permit
/// and each completion returns exactly one, so the count is always the
/// takes minus the returns.
pub proof fn lemma_count_is_net_permits(count: int, ops: Seq<bool>)
    ensures
        count_after(count, ops) == count + net_permits(ops),
    decreases ops.len(),
{
    if ops.len() > 0 {
        lemma_count_is_net_permits(
            if ops[0] {
                count + 1
            } else {
                count - 1
            },
            ops.drop_first(),
        );
    }
}

/// Along any guarded trace the permit count stays within zero and the
/// capacity at every prefix: at no time does a worker hold more connections
/// in flight than its cap.
pub proof fn lemma_trace_bounded(cap: int, count: int, ops: Seq<bool>)
    requires
        0 <= count <= cap,
        trace_guarded(cap, count, ops),
    ensures
        forall|k: int|
            0 <= k <= ops.len() ==> 0 <= #[trigger] count_after(count, ops.take(k)) <= cap,
    decreases ops.len(),
{
    assert(ops.take(0) =~= Seq::<bool>::empty());
    if ops.len() > 0 {
        let next = if ops[0] {
            count + 1
        } else {
            count - 1
        };
        let rest = ops.drop_first();
        lemma_trace_bounded(cap, next, rest);
        assert forall|k: int|
            0 <= k <= ops.len() implies 0 <= #[trigger] count_after(count, ops.take(k))
            <= cap by {
            if k > 0 {
                assert(ops.take(k)[0] == ops[0]);
                assert(ops.take(k).drop_first() =~= rest.take(k - 1));
                assert(0 <= count_after(next, rest.take(k - 1)) <= cap);
            }
        }
    }
}

/// With a capacity of one every guarded trace strictly alternates: a permit
/// is taken exactly when none is out, so each next connection is dispatched
/// only after the previous one returned its permit.
pub proof fn lemma_unit_capacity_trace_alternates(count: int, ops: Seq<bool>)
    requires
        0 <= count <= 1,
        trace_guarded(1, count, ops),
    ensures
        forall|k: int|
            0 <= k < ops.len() ==> ((#[trigger] ops[k]) == (count_after(count, ops.take(k))
                == 0)),
    decreases ops.len(),
{
    if ops.len() > 0 {
        let next = if ops[0] {
            count + 1
        } else {
            count - 1
        };
        let rest = ops.drop_first();
        lemma_unit_capacity_trace_alternates(next, rest);
        assert forall|k: int|
            0 <= k < ops.len() implies ((#[trigger] ops[k]) == (count_after(count, ops.take(k))
            == 0)) by {
            if k == 0 {
                assert(ops.take(0) =~= Seq::<bool>::empty());
            } else {
                assert(ops[k] == rest[k - 1]);
                assert(ops.take(k)[0] == ops[0]);
                assert(ops.take(k).drop_first() =~= rest.take(k - 1));
                assert(rest[k - 1] == (count_after(next, rest.take(k - 1)) == 0));
            }
        }
    }
}

/// A counter of capacity one serializes connections: while any permit is
/// out, no further permit may be taken until it is returned.
pub proof fn lemma_unit_capacity_serializes(c: Counter)
    requires
        c.wf(),
        c.cap() == 1,
        c.count() > 0,
    ensures
        c.count() == 1,
        !c.spec_available(),
{
}

} // verus!
