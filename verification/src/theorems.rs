//! What holds of the shared state under every operation: the lists stay
//! disjoint and free of duplicates, waiting order is arrival order, promotion
//! follows waiting order, and a reconciliation leaves no dead visitor behind.

use vstd::prelude::*;
use crate::identity::VisitorId;
use crate::model::{dead_at, other_than, precedes, Operation, StoreView, VisitPlan};
use crate::reconcile::dead_among;
use crate::seqs::{lemma_filter_membership, lemma_filter_no_duplicates};

verus! {

/// Appending a visitor who is in neither list keeps the lists disjoint and
/// free of duplicates.
pub proof fn enqueue_keeps_well_formed(s: StoreView, id: VisitorId)
    requires
        s.well_formed(),
    ensures
        s.enqueue(id).well_formed(),
{
    let t = s.enqueue(id);
    if !(s.queue.contains(id) || s.active.contains(id)) {
        assert forall|i: int, j: int|
            0 <= i < t.queue.len() && 0 <= j < t.queue.len() && i != j implies t.queue[i]
            != t.queue[j] by {
            if i < s.queue.len() {
                assert(s.queue.contains(s.queue[i]));
            }
            if j < s.queue.len() {
                assert(s.queue.contains(s.queue[j]));
            }
        }
        assert forall|x: VisitorId| !(t.queue.contains(x) && t.active.contains(x)) by {
            if t.queue.contains(x) && t.active.contains(x) {
                let i = choose|i: int| 0 <= i < t.queue.len() && t.queue[i] == x;
                if i < s.queue.len() {
                    assert(s.queue.contains(x));
                }
            }
        }
    }
}

/// Adding a visitor who is in neither list to the active set keeps the lists
/// disjoint and free of duplicates.
pub proof fn activate_keeps_well_formed(s: StoreView, id: VisitorId)
    requires
        s.well_formed(),
    ensures
        s.activate(id).well_formed(),
{
    let t = s.activate(id);
    if !(s.queue.contains(id) || s.active.contains(id)) {
        assert forall|i: int, j: int|
            0 <= i < t.active.len() && 0 <= j < t.active.len() && i != j implies t.active[i]
            != t.active[j] by {
            if i < s.active.len() {
                assert(s.active.contains(s.active[i]));
            }
            if j < s.active.len() {
                assert(s.active.contains(s.active[j]));
            }
        }
        assert forall|x: VisitorId| !(t.queue.contains(x) && t.active.contains(x)) by {
            if t.queue.contains(x) && t.active.contains(x) {
                let i = choose|i: int| 0 <= i < t.active.len() && t.active[i] == x;
                if i < s.active.len() {
                    assert(s.active.contains(x));
                }
            }
        }
    }
}

/// Removing a visitor from the active set keeps the lists disjoint and free
/// of duplicates, and the visitor is gone from the active set.
pub proof fn evict_keeps_well_formed(s: StoreView, id: VisitorId)
    requires
        s.well_formed(),
    ensures
        s.evict(id).well_formed(),
        !s.evict(id).active.contains(id),
{
    let pred = other_than(id);
    lemma_filter_no_duplicates(s.active, pred);
    lemma_filter_membership(s.active, pred, id);
    let t = s.evict(id);
    assert forall|x: VisitorId| !(t.queue.contains(x) && t.active.contains(x)) by {
        lemma_filter_membership(s.active, pred, x);
    }
}

/// Who is active after a prune: the visitors that were active, but for those
/// among the first `window` whose marker is gone.
pub proof fn prune_membership(s: StoreView, now: i64, window: nat, x: VisitorId)
    ensures
        s.prune(now, window).active.contains(x) <==> exists|i: int|
            0 <= i < s.active.len() && s.active[i] == x && (i >= s.inspected(window) || s.alive(
                x,
                now,
            )),
{
    let w = s.inspected(window);
    let pred = s.alive_at(now);
    let head = s.active.take(w);
    let tail = s.active.skip(w);
    let kept = head.filter(pred);
    let t = s.prune(now, window);
    lemma_filter_membership(head, pred, x);
    if t.active.contains(x) {
        let k = choose|k: int| 0 <= k < t.active.len() && t.active[k] == x;
        if k < kept.len() {
            assert(kept.contains(x));
            let i = choose|i: int| 0 <= i < head.len() && head[i] == x;
            assert(s.active[i] == x);
        } else {
            assert(tail[k - kept.len()] == x);
            assert(s.active[k - kept.len() + w] == x);
        }
    }
    if exists|i: int|
        0 <= i < s.active.len() && s.active[i] == x && (i >= w || s.alive(x, now)) {
        let i = choose|i: int|
            0 <= i < s.active.len() && s.active[i] == x && (i >= w || s.alive(x, now));
        if i >= w {
            assert(tail[i - w] == x);
            assert(t.active[kept.len() + i - w] == x);
        } else {
            assert(head[i] == x);
            assert(head.contains(x));
            let k = choose|k: int| 0 <= k < kept.len() && kept[k] == x;
            assert(t.active[k] == x);
        }
    }
}

/// A prune keeps the lists disjoint and free of duplicates.
pub proof fn prune_keeps_well_formed(s: StoreView, now: i64, window: nat)
    requires
        s.well_formed(),
    ensures
        s.prune(now, window).well_formed(),
{
    let w = s.inspected(window);
    let pred = s.alive_at(now);
    let head = s.active.take(w);
    let tail = s.active.skip(w);
    let kept = head.filter(pred);
    let t = s.prune(now, window);
    assert(head.no_duplicates());
    lemma_filter_no_duplicates(head, pred);
    assert forall|i: int, j: int|
        0 <= i < t.active.len() && 0 <= j < t.active.len() && i != j implies t.active[i]
        != t.active[j] by {
        if i < kept.len() && j < kept.len() {
        } else if i >= kept.len() && j >= kept.len() {
            assert(tail[i - kept.len()] == s.active[i - kept.len() + w]);
            assert(tail[j - kept.len()] == s.active[j - kept.len() + w]);
        } else {
            let (a, b) = if i < kept.len() {
                (i, j)
            } else {
                (j, i)
            };
            assert(kept.contains(kept[a]));
            lemma_filter_membership(head, pred, kept[a]);
            let h = choose|h: int| 0 <= h < head.len() && head[h] == kept[a];
            assert(s.active[h] == kept[a]);
            assert(tail[b - kept.len()] == s.active[b - kept.len() + w]);
        }
    }
    assert forall|x: VisitorId| !(t.queue.contains(x) && t.active.contains(x)) by {
        prune_membership(s, now, window, x);
        if t.active.contains(x) {
            let i = choose|i: int| 0 <= i < s.active.len() && s.active[i] == x;
            assert(s.active.contains(x));
        }
    }
}

/// A promotion keeps the lists disjoint and free of duplicates.
pub proof fn promote_keeps_well_formed(s: StoreView, now: i64, ttl: u32)
    requires
        s.well_formed(),
    ensures
        s.promote(now, ttl).well_formed(),
{
    let k = s.quota() as int;
    let t = s.promote(now, ttl);
    let moved = s.queue.take(k);
    assert forall|i: int, j: int|
        0 <= i < t.active.len() && 0 <= j < t.active.len() && i != j implies t.active[i]
        != t.active[j] by {
        let n = s.active.len() as int;
        if i < n && j < n {
        } else if i >= n && j >= n {
            assert(moved[i - n] == s.queue[i - n]);
            assert(moved[j - n] == s.queue[j - n]);
        } else {
            let (a, b) = if i < n {
                (i, j)
            } else {
                (j, i)
            };
            assert(s.active.contains(s.active[a]));
            assert(s.queue.contains(s.queue[b - n]));
        }
    }
    assert forall|x: VisitorId| !(t.queue.contains(x) && t.active.contains(x)) by {
        if t.queue.contains(x) && t.active.contains(x) {
            let q = choose|q: int| 0 <= q < t.queue.len() && t.queue[q] == x;
            assert(s.queue[q + k] == x);
            assert(s.queue.contains(x));
            let a = choose|a: int| 0 <= a < t.active.len() && t.active[a] == x;
            if a < s.active.len() {
                assert(s.active.contains(x));
            } else {
                assert(s.queue[a - s.active.len()] == x);
            }
        }
    }
}

/// Every operation keeps the lists disjoint and free of duplicates.
pub proof fn step_keeps_well_formed(s: StoreView, op: Operation)
    requires
        s.well_formed(),
    ensures
        s.step(op).well_formed(),
{
    match op {
        Operation::Visit { id, now, ttl } => {
            enqueue_keeps_well_formed(s, id);
            activate_keeps_well_formed(s, id);
        },
        Operation::Tick { now, ttl, window } => {
            prune_keeps_well_formed(s, now, window);
            promote_keeps_well_formed(s.prune(now, window), now, ttl);
        },
        Operation::Renew { id, now, ttl } => {},
        Operation::Terminate { id } => {
            evict_keeps_well_formed(s, id);
        },
        Operation::SetCapacity { capacity } => {},
    }
}

/// Whatever operations a deployment has seen since it started empty, no
/// visitor is in both the queue and the active set, and none is twice in
/// either.
pub proof fn reachable_states_are_well_formed(capacity: nat, ops: Seq<Operation>)
    ensures
        StoreView::empty(capacity).run(ops).well_formed(),
        forall|id: VisitorId|
            !(StoreView::empty(capacity).run(ops).queue.contains(id) && StoreView::empty(
                capacity,
            ).run(ops).active.contains(id)),
    decreases ops.len(),
{
    if ops.len() > 0 {
        reachable_states_are_well_formed(capacity, ops.drop_last());
        step_keeps_well_formed(StoreView::empty(capacity).run(ops.drop_last()), ops.last());
    }
}

/// Appending a visitor moves nobody who waits: whoever stood before another
/// still does.
pub proof fn enqueue_keeps_order(s: StoreView, id: VisitorId, a: VisitorId, b: VisitorId)
    requires
        precedes(s.queue, a, b),
    ensures
        precedes(s.enqueue(id).queue, a, b),
{
    let (i, j) = choose|i: int, j: int|
        0 <= i < j < s.queue.len() && s.queue[i] == a && s.queue[j] == b;
    let t = s.enqueue(id);
    assert(t.queue[i] == a && t.queue[j] == b);
}

/// Who waits after a run of arrivals: those who waited before, and each
/// arrival that was not active. The active set is untouched and the old queue
/// is the front of the new one.
pub proof fn enqueue_each_membership(s: StoreView, ids: Seq<VisitorId>)
    ensures
        s.enqueue_each(ids).active == s.active,
        s.enqueue_each(ids).markers == s.markers,
        s.enqueue_each(ids).capacity == s.capacity,
        s.queue.len() <= s.enqueue_each(ids).queue.len(),
        s.enqueue_each(ids).queue.take(s.queue.len() as int) == s.queue,
        forall|x: VisitorId|
            s.enqueue_each(ids).queue.contains(x) <==> s.queue.contains(x) || (ids.contains(x)
                && !s.active.contains(x)),
    decreases ids.len(),
{
    if ids.len() > 0 {
        let front = ids.drop_last();
        let last = ids.last();
        let m = s.enqueue_each(front);
        let t = s.enqueue_each(ids);
        enqueue_each_membership(s, front);
        assert(t.queue.take(s.queue.len() as int) =~= m.queue.take(s.queue.len() as int));
        assert forall|x: VisitorId|
            t.queue.contains(x) <==> s.queue.contains(x) || (ids.contains(x)
                && !s.active.contains(x)) by {
            if t.queue.contains(x) {
                let k = choose|k: int| 0 <= k < t.queue.len() && t.queue[k] == x;
                if k < m.queue.len() {
                    assert(m.queue[k] == x);
                    assert(m.queue.contains(x));
                    if front.contains(x) {
                        let f = choose|f: int| 0 <= f < front.len() && front[f] == x;
                        assert(ids[f] == x);
                    }
                } else {
                    assert(x == last);
                    assert(ids[ids.len() - 1] == x);
                }
            }
            if s.queue.contains(x) || (ids.contains(x) && !s.active.contains(x)) {
                if m.queue.contains(x) {
                    let k = choose|k: int| 0 <= k < m.queue.len() && m.queue[k] == x;
                    assert(t.queue[k] == x);
                } else {
                    assert(!s.queue.contains(x));
                    let f = choose|f: int| 0 <= f < ids.len() && ids[f] == x;
                    if f < front.len() {
                        assert(front[f] == x);
                        assert(front.contains(x));
                    }
                    assert(x == last);
                    assert(t.queue[m.queue.len() as int] == x);
                }
            }
        }
    } else {
        assert(s.queue.take(s.queue.len() as int) =~= s.queue);
    }
}

/// The queue keeps arrival order: of two visitors who arrive one after the
/// other, the earlier stands before the later. The later one arrives for the
/// first time at `j` and is in neither list before; the earlier one is not
/// active, so that their arrival puts or leaves them in the queue.
pub proof fn queue_keeps_arrival_order(s: StoreView, ids: Seq<VisitorId>, i: int, j: int)
    requires
        0 <= i < j < ids.len(),
        !s.active.contains(ids[i]),
        !s.queue.contains(ids[j]),
        !s.active.contains(ids[j]),
        forall|k: int| 0 <= k < j ==> ids[k] != ids[j],
    ensures
        precedes(s.enqueue_each(ids).queue, ids[i], ids[j]),
    decreases ids.len(),
{
    let front = ids.drop_last();
    let m = s.enqueue_each(front);
    if j == ids.len() - 1 {
        enqueue_each_membership(s, front);
        assert(front[i] == ids[i]);
        assert(front.contains(ids[i]));
        assert(m.queue.contains(ids[i]));
        assert(!front.contains(ids[j])) by {
            if front.contains(ids[j]) {
                let f = choose|f: int| 0 <= f < front.len() && front[f] == ids[j];
                assert(ids[f] == ids[j]);
            }
        }
        assert(!m.queue.contains(ids[j]));
        let a = choose|a: int| 0 <= a < m.queue.len() && m.queue[a] == ids[i];
        let t = s.enqueue_each(ids);
        assert(t.queue[a] == ids[i]);
        assert(t.queue[m.queue.len() as int] == ids[j]);
    } else {
        assert(front[i] == ids[i] && front[j] == ids[j]);
        assert forall|k: int| 0 <= k < j implies front[k] != front[j] by {
            assert(front[k] == ids[k]);
        }
        queue_keeps_arrival_order(s, front, i, j);
        enqueue_keeps_order(m, ids.last(), ids[i], ids[j]);
    }
}

/// Promotion follows waiting order. If `a` stands before `b` in the queue,
/// then after a reconciliation `b` is active only if `a` is, and `a` entered
/// the active set before `b`; and if `a` still waits, so does `b`, behind
/// `a`.
pub proof fn promotion_follows_queue_order(
    s: StoreView,
    now: i64,
    ttl: u32,
    window: nat,
    a: VisitorId,
    b: VisitorId,
)
    requires
        s.well_formed(),
        precedes(s.queue, a, b),
    ensures
        s.tick(now, ttl, window).active.contains(b) ==> precedes(
            s.tick(now, ttl, window).active,
            a,
            b,
        ),
        s.tick(now, ttl, window).queue.contains(a) ==> precedes(
            s.tick(now, ttl, window).queue,
            a,
            b,
        ),
        s.tick(now, ttl, window).queue.contains(a) || s.tick(now, ttl, window).active.contains(a),
{
    let p = s.prune(now, window);
    let t = s.tick(now, ttl, window);
    let k = p.quota() as int;
    let n = p.active.len() as int;
    let (i, j) = choose|i: int, j: int|
        0 <= i < j < s.queue.len() && s.queue[i] == a && s.queue[j] == b;
    assert(s.queue.contains(a) && s.queue.contains(b));
    if t.active.contains(b) {
        let x = choose|x: int| 0 <= x < t.active.len() && t.active[x] == b;
        if x < n {
            assert(p.active.contains(b));
            prune_membership(s, now, window, b);
            let y = choose|y: int| 0 <= y < s.active.len() && s.active[y] == b;
            assert(s.active.contains(b));
        } else {
            assert(s.queue[x - n] == b);
            assert(x - n == j);
            assert(t.active[n + i] == a && t.active[n + j] == b);
        }
    }
    if t.queue.contains(a) {
        let q = choose|q: int| 0 <= q < t.queue.len() && t.queue[q] == a;
        assert(s.queue[q + k] == a);
        assert(q + k == i);
        assert(t.queue[i - k] == a && t.queue[j - k] == b);
    }
    if i < k {
        assert(t.active[n + i] == a);
    } else {
        assert(t.queue[i - k] == a);
    }
}

/// A promotion fills the active set up to the capacity and never beyond it:
/// the active set is within capacity after a reconciliation whenever the
/// visitors that survive its prune are.
pub proof fn tick_respects_capacity(s: StoreView, now: i64, ttl: u32, window: nat)
    requires
        s.prune(now, window).active.len() <= s.capacity,
    ensures
        s.tick(now, ttl, window).active.len() <= s.capacity,
{
}

/// A reconciliation adds to the active set only while it is below capacity:
/// afterwards it is within capacity, or exactly what the prune left.
pub proof fn promotion_never_exceeds_capacity(s: StoreView, now: i64, ttl: u32, window: nat)
    ensures
        s.tick(now, ttl, window).active.len() <= s.capacity || s.tick(now, ttl, window).active
            == s.prune(now, window).active,
{
    let p = s.prune(now, window);
    if p.active.len() >= p.capacity {
        assert(p.queue.take(0) =~= Seq::<VisitorId>::empty());
        assert(p.active + p.queue.take(0) =~= p.active);
    }
}

/// Expiry is observed by the next reconciliation: an active visitor among
/// those it inspects, whose liveness marker is gone at `now`, is no longer
/// active afterwards.
pub proof fn tick_evicts_expired(s: StoreView, now: i64, ttl: u32, window: nat, i: int)
    requires
        s.well_formed(),
        0 <= i < s.inspected(window),
        !s.alive(s.active[i], now),
    ensures
        !s.tick(now, ttl, window).active.contains(s.active[i]),
{
    let x = s.active[i];
    let p = s.prune(now, window);
    let t = s.tick(now, ttl, window);
    prune_membership(s, now, window, x);
    assert(s.active.contains(x));
    if t.active.contains(x) {
        let k = choose|k: int| 0 <= k < t.active.len() && t.active[k] == x;
        if k < p.active.len() {
            assert(p.active.contains(x));
        } else {
            assert(s.queue[k - p.active.len()] == x);
            assert(s.queue.contains(x));
        }
    }
}

/// After a reconciliation that inspected the whole active set, every active
/// visitor either had a live marker at `now` or was promoted just now.
pub proof fn tick_leaves_live_or_promoted(
    s: StoreView,
    now: i64,
    ttl: u32,
    window: nat,
    x: VisitorId,
)
    requires
        s.active.len() <= window,
        s.tick(now, ttl, window).active.contains(x),
    ensures
        s.alive(x, now) || s.queue.contains(x),
{
    let p = s.prune(now, window);
    let t = s.tick(now, ttl, window);
    prune_membership(s, now, window, x);
    let k = choose|k: int| 0 <= k < t.active.len() && t.active[k] == x;
    if k < p.active.len() {
        assert(p.active.contains(x));
    } else {
        assert(s.queue[k - p.active.len()] == x);
    }
}

/// A visitor who waits keeps their place however often they ask again: the
/// visit changes nothing.
pub proof fn waiting_visit_changes_nothing(s: StoreView, id: VisitorId, now: i64, ttl: u32)
    requires
        s.queue.contains(id),
    ensures
        s.visit(id, now, ttl) == s,
{
}

/// A second visit by the same visitor changes nothing, whatever the first
/// did.
pub proof fn visit_is_idempotent(
    s: StoreView,
    id: VisitorId,
    now: i64,
    ttl: u32,
    again: i64,
    again_ttl: u32,
)
    ensures
        s.visit(id, now, ttl).visit(id, again, again_ttl) == s.visit(id, now, ttl),
{
    let t = s.visit(id, now, ttl);
    match s.plan(id) {
        VisitPlan::Enqueue => {
            assert(t.queue[s.queue.len() as int] == id);
        },
        VisitPlan::Admit => {
            assert(t.active[s.active.len() as int] == id);
        },
        _ => {},
    }
}

/// Evicting by observation agrees with the prune: where each inspected
/// visitor was observed as their marker stands at `now`, the visitors found
/// dead are those that the prune drops.
pub proof fn observed_dead_are_the_pruned(
    s: StoreView,
    now: i64,
    members: Seq<VisitorId>,
    alive: Seq<bool>,
)
    requires
        alive.len() == members.len(),
        forall|i: int| 0 <= i < members.len() ==> alive[i] == s.alive(#[trigger] members[i], now),
    ensures
        dead_among(members, alive) == members.filter(dead_at(s, now)),
    decreases members.len(),
{
    reveal(Seq::filter);
    if members.len() > 0 {
        let front = members.drop_last();
        let seen = alive.drop_last();
        assert forall|i: int| 0 <= i < front.len() implies seen[i] == s.alive(
            #[trigger] front[i],
            now,
        ) by {
            assert(front[i] == members[i]);
        }
        observed_dead_are_the_pruned(s, now, front, seen);
        lemma_dead_among_reads_a_prefix(front, alive, seen);
        assert(members[members.len() - 1] == members.last());
    }
}

/// Observations beyond the inspected visitors are not read.
proof fn lemma_dead_among_reads_a_prefix(
    members: Seq<VisitorId>,
    alive: Seq<bool>,
    seen: Seq<bool>,
)
    requires
        members.len() <= seen.len() <= alive.len(),
        forall|i: int| 0 <= i < members.len() ==> alive[i] == seen[i],
    ensures
        dead_among(members, alive) == dead_among(members, seen),
    decreases members.len(),
{
    if members.len() > 0 {
        lemma_dead_among_reads_a_prefix(members.drop_last(), alive, seen);
    }
}

/// Moving the oldest waiting visitor to the active set keeps the lists
/// disjoint and free of duplicates.
pub proof fn promote_front_keeps_well_formed(s: StoreView)
    requires
        s.well_formed(),
    ensures
        s.promote_front().well_formed(),
{
    let t = s.promote_front();
    if s.queue.len() > 0 {
        let id = s.queue[0];
        assert(s.queue.contains(id));
        assert forall|i: int, j: int|
            0 <= i < t.active.len() && 0 <= j < t.active.len() && i != j implies t.active[i]
            != t.active[j] by {
            if i < s.active.len() {
                assert(s.active.contains(s.active[i]));
            }
            if j < s.active.len() {
                assert(s.active.contains(s.active[j]));
            }
        }
        assert forall|x: VisitorId| !(t.queue.contains(x) && t.active.contains(x)) by {
            if t.queue.contains(x) && t.active.contains(x) {
                let q = choose|q: int| 0 <= q < t.queue.len() && t.queue[q] == x;
                assert(s.queue[q + 1] == x);
                assert(s.queue.contains(x));
                let a = choose|a: int| 0 <= a < t.active.len() && t.active[a] == x;
                if a < s.active.len() {
                    assert(s.active.contains(x));
                }
            }
        }
    }
}

/// No operation reorders the queue: two visitors who wait before and after
/// it stand in the same order.
pub proof fn step_keeps_waiting_order(s: StoreView, op: Operation, a: VisitorId, b: VisitorId)
    requires
        s.well_formed(),
        precedes(s.queue, a, b),
        s.step(op).queue.contains(a),
    ensures
        precedes(s.step(op).queue, a, b),
{
    match op {
        Operation::Visit { id, now, ttl } => {
            enqueue_keeps_order(s, id, a, b);
        },
        Operation::Tick { now, ttl, window } => {
            promotion_follows_queue_order(s, now, ttl, window, a, b);
        },
        _ => {},
    }
}

/// A visitor leaves the queue only by promotion: whoever waits before an
/// operation waits after it or was made active by a reconciliation.
pub proof fn queue_is_left_only_by_promotion(s: StoreView, op: Operation, x: VisitorId)
    requires
        s.queue.contains(x),
    ensures
        s.step(op).queue.contains(x) || (op is Tick && s.step(op).active.contains(x)),
{
    let i = choose|i: int| 0 <= i < s.queue.len() && s.queue[i] == x;
    let t = s.step(op);
    match op {
        Operation::Visit { id, now, ttl } => {
            assert(t.queue[i] == x);
        },
        Operation::Tick { now, ttl, window } => {
            let p = s.prune(now, window);
            let k = p.quota() as int;
            if i < k {
                assert(t.active[p.active.len() + i] == x);
            } else {
                assert(t.queue[i - k] == x);
            }
        },
        _ => {},
    }
}

/// After a reconciliation nobody waits while a slot is free.
pub proof fn tick_fills_free_slots(s: StoreView, now: i64, ttl: u32, window: nat)
    ensures
        s.tick(now, ttl, window).queue.len() == 0 || s.tick(now, ttl, window).active.len()
            >= s.capacity,
{
}

/// No operation but a change of capacity takes the active set beyond the
/// capacity.
pub proof fn step_keeps_within_capacity(s: StoreView, op: Operation)
    requires
        s.active.len() <= s.capacity,
        !(op is SetCapacity),
    ensures
        s.step(op).active.len() <= s.step(op).capacity,
{
    match op {
        Operation::Tick { now, ttl, window } => {
            let w = s.inspected(window);
            s.active.take(w).lemma_filter_len(s.alive_at(now));
        },
        Operation::Terminate { id } => {
            s.active.lemma_filter_len(other_than(id));
        },
        _ => {},
    }
}

/// While the capacity is left alone, the active set of a deployment that
/// started empty stays within it.
pub proof fn reachable_states_are_within_capacity(capacity: nat, ops: Seq<Operation>)
    requires
        forall|i: int| 0 <= i < ops.len() ==> !(#[trigger] ops[i] is SetCapacity),
    ensures
        StoreView::empty(capacity).run(ops).capacity == capacity,
        StoreView::empty(capacity).run(ops).active.len() <= capacity,
    decreases ops.len(),
{
    if ops.len() > 0 {
        let front = ops.drop_last();
        assert forall|i: int| 0 <= i < front.len() implies !(#[trigger] front[i] is SetCapacity) by {
            assert(front[i] == ops[i]);
        }
        reachable_states_are_within_capacity(capacity, front);
        assert(ops.last() == ops[ops.len() - 1]);
        step_keeps_within_capacity(StoreView::empty(capacity).run(front), ops.last());
    }
}

/// A renewal never brings a marker back: for a visitor whose marker is gone
/// it changes nothing, and in no case does it change who is active or waits.
pub proof fn renewal_never_revives(s: StoreView, id: VisitorId, now: i64, ttl: u32)
    ensures
        !s.alive(id, now) ==> s.renew(id, now, ttl) == s,
        s.renew(id, now, ttl).active == s.active,
        s.renew(id, now, ttl).queue == s.queue,
{
}

/// A marker set at `now` for `ttl` seconds exists until those seconds have
/// passed and no longer: a visitor marked then, inspected by a
/// reconciliation at or after that instant and not renewed in between, is
/// evicted by it.
pub proof fn unrenewed_visitor_is_evicted(
    s: StoreView,
    id: VisitorId,
    now: i64,
    ttl: u32,
    later: i64,
    window: nat,
    i: int,
)
    requires
        s.well_formed(),
        0 <= i < s.inspected(window),
        s.active[i] == id,
        later >= now + ttl,
    ensures
        forall|at: i64| s.mark(id, now, ttl).alive(id, at) <==> at < now + ttl,
        !s.mark(id, now, ttl).tick(later, ttl, window).active.contains(id),
{
    let m = s.mark(id, now, ttl);
    assert(m.active == s.active && m.queue == s.queue);
    tick_evicts_expired(m, later, ttl, window, i);
}

} // verus!
