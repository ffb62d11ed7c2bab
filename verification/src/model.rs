//! The mathematical model of the shared state: the waiting queue, the active
//! set, the liveness markers and the capacity.

use vstd::prelude::*;
use crate::identity::VisitorId;

verus! {

/// The shared state as plain mathematical values.
pub struct StoreView {
    /// Waiting visitors, oldest first.
    pub queue: Seq<VisitorId>,
    /// Visitors currently admitted, in the order they entered.
    pub active: Seq<VisitorId>,
    /// For each visitor that has a liveness marker, the instant at which the
    /// marker expires.
    pub markers: Map<u128, i64>,
    /// The largest size the active set is filled up to.
    pub capacity: nat,
}

/// The instant `secs` seconds after `now`, held at the largest representable
/// instant.
pub open spec fn instant_after(now: i64, secs: u32) -> i64 {
    if now + secs > i64::MAX {
        i64::MAX
    } else {
        (now + secs) as i64
    }
}

impl StoreView {
    /// The state of a deployment that no visitor has reached yet.
    pub open spec fn empty(capacity: nat) -> StoreView {
        StoreView { queue: Seq::empty(), active: Seq::empty(), markers: Map::empty(), capacity }
    }

    /// No visitor occurs twice in the queue or twice in the active set, and
    /// none is in both.
    pub open spec fn well_formed(self) -> bool {
        &&& self.queue.no_duplicates()
        &&& self.active.no_duplicates()
        &&& forall|id: VisitorId| !(self.queue.contains(id) && self.active.contains(id))
    }

    /// The visitor's liveness marker exists at `now`: it was set and has not
    /// expired.
    pub open spec fn alive(self, id: VisitorId, now: i64) -> bool {
        self.markers.contains_key(id.value) && now < self.markers[id.value]
    }

    /// The test that a prune applies to a visitor: is their marker alive at
    /// `now`?
    pub open spec fn alive_at(self, now: i64) -> spec_fn(VisitorId) -> bool {
        |a: VisitorId| self.alive(a, now)
    }

    /// Appends a visitor to the queue, unless they already wait or are active.
    pub open spec fn enqueue(self, id: VisitorId) -> StoreView {
        if self.queue.contains(id) || self.active.contains(id) {
            self
        } else {
            StoreView { queue: self.queue.push(id), ..self }
        }
    }

    /// Adds a visitor to the active set, unless they are active or waiting.
    pub open spec fn activate(self, id: VisitorId) -> StoreView {
        if self.queue.contains(id) || self.active.contains(id) {
            self
        } else {
            StoreView { active: self.active.push(id), ..self }
        }
    }

    /// Sets the visitor's liveness marker to expire `ttl` seconds after `now`.
    pub open spec fn mark(self, id: VisitorId, now: i64, ttl: u32) -> StoreView {
        StoreView { markers: self.markers.insert(id.value, instant_after(now, ttl)), ..self }
    }

    /// Renews the visitor's liveness marker if it still exists at `now`; a
    /// marker that is gone is not brought back.
    pub open spec fn renew(self, id: VisitorId, now: i64, ttl: u32) -> StoreView {
        if self.alive(id, now) {
            self.mark(id, now, ttl)
        } else {
            self
        }
    }

    /// Moves the oldest waiting visitor to the end of the active set.
    pub open spec fn promote_front(self) -> StoreView {
        if self.queue.len() == 0 {
            self
        } else {
            StoreView {
                queue: self.queue.drop_first(),
                active: self.active.push(self.queue[0]),
                ..self
            }
        }
    }

    /// Removes a visitor from the active set.
    pub open spec fn evict(self, id: VisitorId) -> StoreView {
        StoreView { active: self.active.filter(other_than(id)), ..self }
    }

    /// Replaces the capacity.
    pub open spec fn with_capacity(self, capacity: nat) -> StoreView {
        StoreView { capacity, ..self }
    }

    /// How many of the active visitors one reconciliation inspects: the first
    /// `window` of them.
    pub open spec fn inspected(self, window: nat) -> int {
        if window < self.active.len() {
            window as int
        } else {
            self.active.len() as int
        }
    }

    /// Drops from the first `window` active visitors those whose liveness
    /// marker no longer exists at `now`.
    pub open spec fn prune(self, now: i64, window: nat) -> StoreView {
        let w = self.inspected(window);
        StoreView {
            active: self.active.take(w).filter(self.alive_at(now)) + self.active.skip(w),
            ..self
        }
    }

    /// How many visitors the active set can still take.
    pub open spec fn free_slots(self) -> nat {
        free_slots_of(self.capacity, self.active.len())
    }

    /// How many visitors a promotion moves: as many as there are free slots,
    /// and no more than wait.
    pub open spec fn quota(self) -> nat {
        quota_of(self.capacity, self.active.len(), self.queue.len())
    }

    /// Moves the oldest waiting visitors into the free slots of the active
    /// set, in queue order, and gives each a fresh liveness marker.
    pub open spec fn promote(self, now: i64, ttl: u32) -> StoreView {
        let k = self.quota() as int;
        StoreView {
            queue: self.queue.skip(k),
            active: self.active + self.queue.take(k),
            markers: mark_all(self.markers, self.queue.take(k), instant_after(now, ttl)),
            ..self
        }
    }

    /// One reconciliation: prune, then promote.
    pub open spec fn tick(self, now: i64, ttl: u32, window: nat) -> StoreView {
        self.prune(now, window).promote(now, ttl)
    }

    /// What a visit of `id` does to the shared state.
    pub open spec fn plan(self, id: VisitorId) -> VisitPlan {
        plan_for(
            self.queue.contains(id),
            self.active.contains(id),
            self.queue.len(),
            self.active.len(),
            self.capacity,
        )
    }

    /// The shared state after a visit of `id` at `now`.
    pub open spec fn visit(self, id: VisitorId, now: i64, ttl: u32) -> StoreView {
        match self.plan(id) {
            VisitPlan::Resume | VisitPlan::Wait => self,
            VisitPlan::Enqueue => self.enqueue(id),
            VisitPlan::Admit => self.activate(id).mark(id, now, ttl),
        }
    }

    /// The shared state after the visitors in `ids` were appended to the
    /// queue one after the other, first to last.
    pub open spec fn enqueue_each(self, ids: Seq<VisitorId>) -> StoreView
        decreases ids.len(),
    {
        if ids.len() == 0 {
            self
        } else {
            self.enqueue_each(ids.drop_last()).enqueue(ids.last())
        }
    }

    /// The shared state after one operation.
    pub open spec fn step(self, op: Operation) -> StoreView {
        match op {
            Operation::Visit { id, now, ttl } => self.visit(id, now, ttl),
            Operation::Tick { now, ttl, window } => self.tick(now, ttl, window),
            Operation::Renew { id, now, ttl } => self.renew(id, now, ttl),
            Operation::Terminate { id } => self.evict(id),
            Operation::SetCapacity { capacity } => self.with_capacity(capacity),
        }
    }

    /// The shared state after a sequence of operations, applied first to last.
    pub open spec fn run(self, ops: Seq<Operation>) -> StoreView
        decreases ops.len(),
    {
        if ops.len() == 0 {
            self
        } else {
            self.run(ops.drop_last()).step(ops.last())
        }
    }
}

/// The free slots of an active set of `active_len` visitors under `capacity`.
pub open spec fn free_slots_of(capacity: nat, active_len: nat) -> nat {
    if active_len < capacity {
        (capacity - active_len) as nat
    } else {
        0
    }
}

/// How many visitors to promote: one per free slot, and no more than wait.
pub open spec fn quota_of(capacity: nat, active_len: nat, queue_len: nat) -> nat {
    if free_slots_of(capacity, active_len) < queue_len {
        free_slots_of(capacity, active_len)
    } else {
        queue_len
    }
}

/// The test that keeps every visitor but `id`.
pub open spec fn other_than(id: VisitorId) -> spec_fn(VisitorId) -> bool {
    |a: VisitorId| a != id
}

/// The test that a prune fails a visitor on: is their marker gone at `now`?
pub open spec fn dead_at(s: StoreView, now: i64) -> spec_fn(VisitorId) -> bool {
    |a: VisitorId| !s.alive(a, now)
}

/// The markers after each of `ids` received a marker that expires at `at`.
pub open spec fn mark_all(markers: Map<u128, i64>, ids: Seq<VisitorId>, at: i64) -> Map<u128, i64> {
    Map::new(
        |k: u128| markers.contains_key(k) || ids.contains(VisitorId { value: k }),
        |k: u128|
            if ids.contains(VisitorId { value: k }) {
                at
            } else {
                markers[k]
            },
    )
}

/// The admission policy: a new arrival is admitted only while nobody waits
/// and the active set is below capacity.
#[derive(Clone, Copy, Debug, PartialEq, Eq, Structural)]
pub enum Decision {
    Admit,
    Enqueue,
}

/// The policy as a function of the three numbers it reads.
pub open spec fn decision_for(queue_len: nat, active_len: nat, capacity: nat) -> Decision {
    if queue_len >= 1 || active_len >= capacity {
        Decision::Enqueue
    } else {
        Decision::Admit
    }
}

/// What becomes of one visit.
#[derive(Clone, Copy, Debug, PartialEq, Eq, Structural)]
pub enum VisitPlan {
    /// The visitor is active already and goes on to the destination.
    Resume,
    /// The visitor waits already and keeps their place.
    Wait,
    /// The visitor joins the end of the queue.
    Enqueue,
    /// The visitor enters the active set directly.
    Admit,
}

/// The plan for a visitor, from where the store holds them and from the
/// numbers the policy reads. Membership is taken from the store: a visitor
/// found in neither list is decided anew.
pub open spec fn plan_for(
    in_queue: bool,
    in_active: bool,
    queue_len: nat,
    active_len: nat,
    capacity: nat,
) -> VisitPlan {
    if in_active {
        VisitPlan::Resume
    } else if in_queue {
        VisitPlan::Wait
    } else {
        match decision_for(queue_len, active_len, capacity) {
            Decision::Enqueue => VisitPlan::Enqueue,
            Decision::Admit => VisitPlan::Admit,
        }
    }
}

/// One change of the shared state.
pub enum Operation {
    /// A visitor asks for admission.
    Visit { id: VisitorId, now: i64, ttl: u32 },
    /// The reconciliation runs once.
    Tick { now: i64, ttl: u32, window: nat },
    /// An admitted visitor proves they are still there.
    Renew { id: VisitorId, now: i64, ttl: u32 },
    /// An operator removes a visitor from the active set.
    Terminate { id: VisitorId },
    /// An operator changes the capacity.
    SetCapacity { capacity: nat },
}

/// `a` stands before `b` in `items`.
pub open spec fn precedes(items: Seq<VisitorId>, a: VisitorId, b: VisitorId) -> bool {
    exists|i: int, j: int| 0 <= i < j < items.len() && items[i] == a && items[j] == b
}

} // verus!
