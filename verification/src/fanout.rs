//! Fan-out of each snapshot to two independent consumers under
//! different backpressure rules.
//!
//! Both lanes are bounded first-in-first-out queues with independent
//! fill states.  The guaranteed-delivery lane (to the telemetry
//! publisher) never drops a snapshot: its producer suspends until there
//! is room, so [`fan_out`] requires room on it.  The best-effort lane
//! (to the renderer) never blocks the producer: when it is full the new
//! snapshot is dropped and the caller is told the consumer is falling
//! behind.

use vstd::prelude::*;

use crate::readings::Readings;

verus! {

/// Capacity both delivery lanes are built with at startup.
pub const LANE_CAPACITY: usize = 10;

/// A bounded single-producer queue of snapshots, delivered in the order
/// produced.
pub struct Lane {
    items: Vec<Readings>,
    cap: usize,
}

impl Lane {
    /// The queued snapshots, oldest first.
    pub closed spec fn contents(self) -> Seq<Readings> {
        self.items@
    }

    /// The fixed capacity the lane was built with.
    pub closed spec fn capacity(self) -> nat {
        self.cap as nat
    }

    /// The queue never holds more than its capacity.
    pub open spec fn wf(self) -> bool {
        &&& self.contents().len() <= self.capacity()
        &&& self.capacity() >= 1
    }

    /// An empty lane of capacity `cap`.
    pub fn new(cap: usize) -> (r: Lane)
        requires
            cap >= 1,
        ensures
            r.wf(),
            r.capacity() == cap,
            r.contents() == Seq::<Readings>::empty(),
    {
        Lane { items: Vec::new(), cap }
    }

    /// How many snapshots are queued.
    pub fn len(&self) -> (r: usize)
        ensures
            r == self.contents().len(),
    {
        self.items.len()
    }

    /// Whether the lane has no room left.
    pub fn is_full(&self) -> (r: bool)
        ensures
            r <==> self.contents().len() >= self.capacity(),
    {
        self.items.len() >= self.cap
    }

    /// Enqueue a snapshot if there is room; a full lane rejects the new
    /// snapshot and is left unchanged.
    pub fn try_send(&mut self, s: Readings) -> (accepted: bool)
        requires
            old(self).wf(),
        ensures
            final(self).wf(),
            final(self).capacity() == old(self).capacity(),
            accepted <==> old(self).contents().len() < old(self).capacity(),
            accepted ==> final(self).contents() == old(self).contents().push(s),
            !accepted ==> final(self).contents() == old(self).contents(),
    {
        if self.items.len() < self.cap {
            self.items.push(s);
            true
        } else {
            false
        }
    }

    /// Dequeue the oldest snapshot, if any: delivery keeps the order of
    /// production.
    pub fn recv(&mut self) -> (r: Option<Readings>)
        requires
            old(self).wf(),
        ensures
            final(self).wf(),
            final(self).capacity() == old(self).capacity(),
            old(self).contents().len() == 0 ==> r is None && final(self).contents() == old(
                self).contents(),
            old(self).contents().len() > 0 ==> r == Some(old(self).contents()[0]) && final(
                self).contents() == old(self).contents().drop_first(),
    {
        if self.items.len() == 0 {
            None
        } else {
            let r = self.items.remove(0);
            proof {
                assert(final(self).items@ =~= old(self).items@.drop_first());
            }
            Some(r)
        }
    }
}

/// Hand one snapshot to both consumers.  The guaranteed lane must have
/// room (its producer waits until it does) and always receives the
/// snapshot; the best-effort lane receives it only if it has room, and
/// otherwise drops the new snapshot without touching what it already
/// holds.  Returns whether the best-effort consumer fell behind.
pub fn fan_out(guaranteed: &mut Lane, best_effort: &mut Lane, s: Readings) -> (fell_behind: bool)
    requires
        old(guaranteed).wf(),
        old(best_effort).wf(),
        old(guaranteed).contents().len() < old(guaranteed).capacity(),
    ensures
        final(guaranteed).wf(),
        final(best_effort).wf(),
        final(guaranteed).capacity() == old(guaranteed).capacity(),
        final(best_effort).capacity() == old(best_effort).capacity(),
        final(guaranteed).contents() == old(guaranteed).contents().push(s),
        fell_behind <==> old(best_effort).contents().len() >= old(best_effort).capacity(),
        !fell_behind ==> final(best_effort).contents() == old(best_effort).contents().push(s),
        fell_behind ==> final(best_effort).contents() == old(best_effort).contents(),
{
    let sent = guaranteed.try_send(s);
    assert(sent);  // the guaranteed lane had room, so it accepted
    let accepted = best_effort.try_send(s);
    !accepted
}

} // verus!
