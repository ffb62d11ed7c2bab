//! The state store held in memory: the queue, the active set, the liveness
//! markers and the capacity, with the primitive operations on them.

use vstd::prelude::*;
use vstd::std_specs::hash::*;
use std::collections::HashMap;
use crate::identity::VisitorId;
use crate::model::{instant_after, other_than, StoreView};
use crate::seqs::lemma_filter_membership;
use crate::theorems::{
    activate_keeps_well_formed, enqueue_keeps_well_formed, evict_keeps_well_formed,
    promote_front_keeps_well_formed,
};

verus! {

/// The instant `secs` seconds after `now`, held at the largest representable
/// instant.
pub fn expiry_instant(now: i64, secs: u32) -> (at: i64)
    ensures
        at == instant_after(now, secs),
{
    let span: i64 = secs as i64;
    if now > i64::MAX - span {
        i64::MAX
    } else {
        now + span
    }
}

/// The 0-based index of the first occurrence of `id` in `items`.
pub open spec fn first_index(items: Seq<VisitorId>, id: VisitorId, found: Option<usize>) -> bool {
    match found {
        Some(i) => {
            &&& i < items.len()
            &&& items[i as int] == id
            &&& forall|j: int| 0 <= j < i ==> items[j] != id
        },
        None => !items.contains(id),
    }
}

/// Looks for `id` in `items`.
pub fn find(items: &Vec<VisitorId>, id: VisitorId) -> (found: Option<usize>)
    ensures
        first_index(items@, id, found),
{
    let mut i: usize = 0;
    while i < items.len()
        invariant
            i <= items.len(),
            forall|j: int| 0 <= j < i ==> items@[j] != id,
        decreases items.len() - i,
    {
        if items[i] == id {
            return Some(i);
        }
        i += 1;
    }
    None
}

/// The shared state of one deployment.
#[derive(Clone, Debug)]
pub struct StateStore {
    queue: Vec<VisitorId>,
    active: Vec<VisitorId>,
    markers: HashMap<u128, i64>,
    capacity: usize,
}

impl View for StateStore {
    type V = StoreView;

    closed spec fn view(&self) -> StoreView {
        StoreView {
            queue: self.queue@,
            active: self.active@,
            markers: self.markers@,
            capacity: self.capacity as nat,
        }
    }
}

impl StateStore {
    /// An empty store with the given capacity.
    pub fn new(capacity: usize) -> (store: StateStore)
        ensures
            store@ == StoreView::empty(capacity as nat),
            store@.well_formed(),
    {
        StateStore { queue: Vec::new(), active: Vec::new(), markers: HashMap::new(), capacity }
    }

    /// The configured capacity.
    pub fn capacity(&self) -> (capacity: usize)
        ensures
            capacity == self@.capacity,
    {
        self.capacity
    }

    /// Replaces the capacity; the lists and markers stay as they are.
    pub fn set_capacity(&mut self, capacity: usize)
        ensures
            final(self)@ == old(self)@.with_capacity(capacity as nat),
            old(self)@.well_formed() ==> final(self)@.well_formed(),
    {
        self.capacity = capacity;
    }

    /// The number of waiting visitors.
    pub fn get_queue_length(&self) -> (len: usize)
        ensures
            len == self@.queue.len(),
    {
        self.queue.len()
    }

    /// The number of active visitors.
    pub fn get_active_length(&self) -> (len: usize)
        ensures
            len == self@.active.len(),
    {
        self.active.len()
    }

    /// The 0-based index of a visitor in the queue, or `None` if they do not
    /// wait.
    pub fn get_queue_position(&self, id: VisitorId) -> (found: Option<usize>)
        ensures
            first_index(self@.queue, id, found),
            found matches Some(i) ==> i < usize::MAX,
    {
        let len = self.queue.len();
        let found = find(&self.queue, id);
        assert(found matches Some(i) ==> i < len);
        found
    }

    /// Whether the visitor waits in the queue.
    pub fn is_queued(&self, id: VisitorId) -> (queued: bool)
        ensures
            queued == self@.queue.contains(id),
    {
        find(&self.queue, id).is_some()
    }

    /// Whether the visitor is in the active set.
    pub fn is_active(&self, id: VisitorId) -> (active: bool)
        ensures
            active == self@.active.contains(id),
    {
        find(&self.active, id).is_some()
    }

    /// Appends a visitor to the queue, unless they already wait or are
    /// active, and returns the length of the queue afterwards.
    pub fn push_to_queue(&mut self, id: VisitorId) -> (len: usize)
        ensures
            final(self)@ == old(self)@.enqueue(id),
            len == final(self)@.queue.len(),
            old(self)@.well_formed() ==> final(self)@.well_formed(),
    {
        proof {
            if self@.well_formed() {
                enqueue_keeps_well_formed(self@, id);
            }
        }
        if find(&self.queue, id).is_none() && find(&self.active, id).is_none() {
            self.queue.push(id);
        }
        self.queue.len()
    }

    /// Adds a visitor to the active set, unless they are active or wait, and
    /// returns the size of the active set afterwards.
    pub fn push_to_active(&mut self, id: VisitorId) -> (len: usize)
        ensures
            final(self)@ == old(self)@.activate(id),
            len == final(self)@.active.len(),
            old(self)@.well_formed() ==> final(self)@.well_formed(),
    {
        proof {
            if self@.well_formed() {
                activate_keeps_well_formed(self@, id);
            }
        }
        if find(&self.queue, id).is_none() && find(&self.active, id).is_none() {
            self.active.push(id);
        }
        self.active.len()
    }

    /// Moves the oldest waiting visitor to the end of the active set and
    /// returns them; `None` if nobody waits.
    pub fn promote_front(&mut self) -> (moved: Option<VisitorId>)
        ensures
            final(self)@ == old(self)@.promote_front(),
            moved == if old(self)@.queue.len() == 0 {
                None
            } else {
                Some(old(self)@.queue[0])
            },
            old(self)@.well_formed() ==> final(self)@.well_formed(),
    {
        proof {
            if self@.well_formed() {
                promote_front_keeps_well_formed(self@);
            }
        }
        if self.queue.len() == 0 {
            None
        } else {
            let id = self.queue.remove(0);
            self.active.push(id);
            assert(self.queue@ =~= old(self).queue@.drop_first());
            Some(id)
        }
    }

    /// Removes a visitor from the active set and returns how many entries
    /// were removed.
    pub fn terminate(&mut self, id: VisitorId) -> (removed: usize)
        ensures
            final(self)@ == old(self)@.evict(id),
            removed == old(self)@.active.len() - final(self)@.active.len(),
            !final(self)@.active.contains(id),
            old(self)@.well_formed() ==> final(self)@.well_formed(),
    {
        proof {
            if self@.well_formed() {
                evict_keeps_well_formed(self@, id);
            }
            lemma_filter_membership(self@.active, other_than(id), id);
        }
        let mut kept: Vec<VisitorId> = Vec::new();
        let mut i: usize = 0;
        proof {
            reveal(Seq::filter);
            assert(self.active@.take(0) =~= Seq::<VisitorId>::empty());
        }
        while i < self.active.len()
            invariant
                i <= self.active.len(),
                kept@ == self.active@.take(i as int).filter(other_than(id)),
                kept.len() <= i,
            decreases self.active.len() - i,
        {
            let a = self.active[i];
            proof {
                self.active@.take(i as int).lemma_filter_push(a, other_than(id));
                assert(self.active@.take(i as int).push(a) =~= self.active@.take(i + 1));
            }
            if a != id {
                kept.push(a);
            }
            i += 1;
        }
        assert(self.active@.take(i as int) =~= self.active@);
        let removed = self.active.len() - kept.len();
        self.active = kept;
        removed
    }

    /// Sets the visitor's liveness marker to expire `ttl` seconds after
    /// `now`, whether or not one existed.
    pub fn set_marker(&mut self, id: VisitorId, now: i64, ttl: u32)
        ensures
            final(self)@ == old(self)@.mark(id, now, ttl),
            old(self)@.well_formed() ==> final(self)@.well_formed(),
    {
        broadcast use group_hash_axioms;

        self.markers.insert(id.value, expiry_instant(now, ttl));
    }

    /// Whether the visitor's liveness marker exists at `now`.
    pub fn marker_exists(&self, id: VisitorId, now: i64) -> (exists: bool)
        ensures
            exists == self@.alive(id, now),
    {
        broadcast use group_hash_axioms;

        match self.markers.get(&id.value) {
            Some(at) => now < *at,
            None => false,
        }
    }

    /// Renews the visitor's liveness marker if it exists at `now`, and says
    /// whether it did. A marker that is gone is not brought back.
    pub fn refresh_marker(&mut self, id: VisitorId, now: i64, ttl: u32) -> (renewed: bool)
        ensures
            final(self)@ == old(self)@.renew(id, now, ttl),
            renewed == old(self)@.alive(id, now),
            old(self)@.well_formed() ==> final(self)@.well_formed(),
    {
        if self.marker_exists(id, now) {
            self.set_marker(id, now, ttl);
            true
        } else {
            false
        }
    }

    /// Replaces the active set, for the reconciliation's prune.
    pub(crate) fn replace_active(&mut self, active: Vec<VisitorId>)
        ensures
            final(self)@ == (StoreView { active: active@, ..old(self)@ }),
    {
        self.active = active;
    }

    /// The waiting visitors, oldest first.
    pub fn queue(&self) -> (ids: Vec<VisitorId>)
        ensures
            ids@ == self@.queue,
    {
        self.queue.clone()
    }

    /// The active visitors, in the order they entered.
    pub fn active(&self) -> (ids: Vec<VisitorId>)
        ensures
            ids@ == self@.active,
    {
        self.active.clone()
    }
}

} // verus!
