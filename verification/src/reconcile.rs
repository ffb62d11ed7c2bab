//! The reconciliation: evict the visitors whose liveness marker is gone, then
//! promote the oldest waiting visitors into the free slots.

use vstd::prelude::*;
use crate::identity::VisitorId;
use crate::model::{dead_at, free_slots_of, instant_after, mark_all, quota_of};
use crate::store::StateStore;
use crate::theorems::{promote_keeps_well_formed, prune_keeps_well_formed};

verus! {

/// How many active visitors one reconciliation inspects.
pub const PRUNE_WINDOW: usize = 101;

/// The free slots of the active set.
pub fn free_slots(capacity: usize, active_len: usize) -> (free: usize)
    ensures
        free == free_slots_of(capacity as nat, active_len as nat),
{
    if active_len < capacity {
        capacity - active_len
    } else {
        0
    }
}

/// How many visitors the next promotion moves.
pub fn promotion_quota(capacity: usize, active_len: usize, queue_len: usize) -> (quota: usize)
    ensures
        quota == quota_of(capacity as nat, active_len as nat, queue_len as nat),
{
    let free = free_slots(capacity, active_len);
    if free < queue_len {
        free
    } else {
        queue_len
    }
}

/// Of the inspected visitors, those observed without a liveness marker, in
/// their order. `alive[i]` tells whether the marker of `members[i]` exists;
/// a visitor without an observation is left alone.
pub open spec fn dead_among(members: Seq<VisitorId>, alive: Seq<bool>) -> Seq<VisitorId>
    decreases members.len(),
{
    if members.len() == 0 {
        Seq::empty()
    } else {
        let rest = dead_among(members.drop_last(), alive);
        if members.len() <= alive.len() && !alive[members.len() - 1] {
            rest.push(members.last())
        } else {
            rest
        }
    }
}

/// The visitors to evict, given what was observed of their markers.
pub fn dead_members(members: &Vec<VisitorId>, alive: &Vec<bool>) -> (dead: Vec<VisitorId>)
    ensures
        dead@ == dead_among(members@, alive@),
{
    let mut dead: Vec<VisitorId> = Vec::new();
    let mut i: usize = 0;
    proof {
        assert(members@.take(0) =~= Seq::<VisitorId>::empty());
    }
    while i < members.len()
        invariant
            i <= members.len(),
            dead@ == dead_among(members@.take(i as int), alive@),
        decreases members.len() - i,
    {
        proof {
            assert(members@.take(i + 1).drop_last() =~= members@.take(i as int));
        }
        if i < alive.len() && !alive[i] {
            dead.push(members[i]);
        }
        i += 1;
    }
    proof {
        assert(members@.take(i as int) =~= members@);
    }
    dead
}

/// What one reconciliation did.
#[derive(Clone, Debug, PartialEq, Eq)]
pub struct TickReport {
    /// The visitors removed from the active set, in the order they had in it.
    pub evicted: Vec<VisitorId>,
    /// The visitors moved from the queue to the active set, oldest first.
    pub promoted: Vec<VisitorId>,
}

impl StateStore {
    /// Removes from the first `window` active visitors those whose liveness
    /// marker no longer exists at `now`, and returns them.
    pub fn prune(&mut self, now: i64, window: usize) -> (evicted: Vec<VisitorId>)
        ensures
            final(self)@ == old(self)@.prune(now, window as nat),
            evicted@ == old(self)@.active.take(old(self)@.inspected(window as nat)).filter(
                dead_at(old(self)@, now),
            ),
            old(self)@.well_formed() ==> final(self)@.well_formed(),
    {
        proof {
            if self@.well_formed() {
                prune_keeps_well_formed(self@, now, window as nat);
            }
        }
        let members = self.active();
        let w: usize = if window < members.len() {
            window
        } else {
            members.len()
        };
        let ghost start = self@;
        let mut kept: Vec<VisitorId> = Vec::new();
        let mut evicted: Vec<VisitorId> = Vec::new();
        let mut i: usize = 0;
        proof {
            reveal(Seq::filter);
            assert(members@.take(0) =~= Seq::<VisitorId>::empty());
        }
        while i < w
            invariant
                i <= w <= members.len(),
                self@ == start,
                members@ == start.active,
                kept@ == members@.take(i as int).filter(start.alive_at(now)),
                evicted@ == members@.take(i as int).filter(dead_at(start, now)),
            decreases w - i,
        {
            let a = members[i];
            proof {
                members@.take(i as int).lemma_filter_push(a, start.alive_at(now));
                members@.take(i as int).lemma_filter_push(a, dead_at(start, now));
                assert(members@.take(i as int).push(a) =~= members@.take(i + 1));
            }
            if self.marker_exists(a, now) {
                kept.push(a);
            } else {
                evicted.push(a);
            }
            i += 1;
        }
        while i < members.len()
            invariant
                w <= i <= members.len(),
                self@ == start,
                members@ == start.active,
                kept@ == members@.take(w as int).filter(start.alive_at(now)) + members@.subrange(
                    w as int,
                    i as int,
                ),
            decreases members.len() - i,
        {
            kept.push(members[i]);
            i += 1;
        }
        assert(members@.subrange(w as int, i as int) =~= members@.skip(w as int));
        self.replace_active(kept);
        evicted
    }

    /// Moves the oldest waiting visitors into the free slots of the active
    /// set, gives each a liveness marker that expires `ttl` seconds after
    /// `now`, and returns them.
    pub fn promote(&mut self, now: i64, ttl: u32) -> (promoted: Vec<VisitorId>)
        ensures
            final(self)@ == old(self)@.promote(now, ttl),
            promoted@ == old(self)@.queue.take(old(self)@.quota() as int),
            old(self)@.well_formed() ==> final(self)@.well_formed(),
    {
        proof {
            if self@.well_formed() {
                promote_keeps_well_formed(self@, now, ttl);
            }
        }
        let quota = promotion_quota(
            self.capacity(),
            self.get_active_length(),
            self.get_queue_length(),
        );
        let ghost start = self@;
        let ghost at = instant_after(now, ttl);
        let mut promoted: Vec<VisitorId> = Vec::new();
        let mut i: usize = 0;
        proof {
            assert(start.queue.skip(0) =~= start.queue);
            assert(start.queue.take(0) =~= Seq::<VisitorId>::empty());
            assert(start.active + start.queue.take(0) =~= start.active);
            assert(mark_all(start.markers, start.queue.take(0), at) =~= start.markers);
        }
        while i < quota
            invariant
                i <= quota,
                quota == start.quota(),
                at == instant_after(now, ttl),
                self@.queue == start.queue.skip(i as int),
                self@.active == start.active + start.queue.take(i as int),
                self@.markers == mark_all(start.markers, start.queue.take(i as int), at),
                self@.capacity == start.capacity,
                promoted@ == start.queue.take(i as int),
            decreases quota - i,
        {
            let ghost before = self@;
            match self.promote_front() {
                Some(id) => {
                    self.set_marker(id, now, ttl);
                    promoted.push(id);
                    proof {
                        let next = start.queue.take(i + 1);
                        let prev = start.queue.take(i as int);
                        assert(id == start.queue[i as int]);
                        assert(next =~= prev.push(id));
                        assert(self@.queue =~= start.queue.skip(i + 1));
                        assert(self@.active =~= start.active + next);
                        assert forall|x: VisitorId| next.contains(x) <==> prev.contains(x) || x
                            == id by {
                            if next.contains(x) {
                                let k = choose|k: int| 0 <= k < next.len() && next[k] == x;
                                if k < prev.len() {
                                    assert(prev[k] == x);
                                }
                            }
                            if prev.contains(x) {
                                let k = choose|k: int| 0 <= k < prev.len() && prev[k] == x;
                                assert(next[k] == x);
                            }
                            if x == id {
                                assert(next[i as int] == x);
                            }
                        }
                        assert(self@.markers =~= mark_all(start.markers, next, at));
                    }
                },
                None => {},
            }
            i += 1;
        }
        promoted
    }

    /// One reconciliation at `now`: prune the first [`PRUNE_WINDOW`] active
    /// visitors, then promote into the free slots.
    pub fn tick(&mut self, now: i64, ttl: u32) -> (report: TickReport)
        ensures
            final(self)@ == old(self)@.tick(now, ttl, PRUNE_WINDOW as nat),
            report.evicted@ == old(self)@.active.take(
                old(self)@.inspected(PRUNE_WINDOW as nat),
            ).filter(dead_at(old(self)@, now)),
            report.promoted@ == old(self)@.prune(now, PRUNE_WINDOW as nat).queue.take(
                old(self)@.prune(now, PRUNE_WINDOW as nat).quota() as int,
            ),
            old(self)@.well_formed() ==> final(self)@.well_formed(),
    {
        let evicted = self.prune(now, PRUNE_WINDOW);
        let promoted = self.promote(now, ttl);
        TickReport { evicted, promoted }
    }
}

} // verus!
