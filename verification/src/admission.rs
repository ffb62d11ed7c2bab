//! The admission decision: what becomes of a visitor who asks to be let in.

use vstd::prelude::*;
use vstd::string::*;
use crate::identity::{hyphenated, parsed_uuid, VisitorId};
use crate::model::{decision_for, plan_for, Decision, VisitPlan};
use crate::status::position_at;
use crate::store::{first_index, StateStore};
use crate::token::{issue_claims, issued_claims, Claims};

verus! {

/// What a visitor's session remembers of their admission.
#[derive(Clone, Copy, Debug, PartialEq, Eq, Structural)]
pub enum SessionState {
    /// The visitor has not been decided on.
    Unseen,
    /// The visitor joined the queue at the given position, counted from 1.
    Enqueued { original_position: usize },
    /// The visitor was let through.
    Admitted,
}

/// The admission policy: enqueue while anybody waits or the active set is
/// full, admit otherwise.
pub fn decide(queue_len: usize, active_len: usize, capacity: usize) -> (decision: Decision)
    ensures
        decision == decision_for(queue_len as nat, active_len as nat, capacity as nat),
{
    if queue_len >= 1 || active_len >= capacity {
        Decision::Enqueue
    } else {
        Decision::Admit
    }
}

/// The plan for one visit, from where the store holds the visitor and from
/// the numbers the policy reads.
pub fn plan_visit(
    in_queue: bool,
    in_active: bool,
    queue_len: usize,
    active_len: usize,
    capacity: usize,
) -> (plan: VisitPlan)
    ensures
        plan == plan_for(
            in_queue,
            in_active,
            queue_len as nat,
            active_len as nat,
            capacity as nat,
        ),
{
    if in_active {
        VisitPlan::Resume
    } else if in_queue {
        VisitPlan::Wait
    } else {
        match decide(queue_len, active_len, capacity) {
            Decision::Enqueue => VisitPlan::Enqueue,
            Decision::Admit => VisitPlan::Admit,
        }
    }
}

/// The session after a visit. `position` is where the visitor stands in the
/// queue after the visit, counted from 1; it is read only where they wait.
/// The original position is recorded when the visitor joins the queue and
/// kept from then on; a waiting visitor whose session lost it records where
/// they stand now.
pub open spec fn session_after(
    plan: VisitPlan,
    session: SessionState,
    position: usize,
) -> SessionState {
    match plan {
        VisitPlan::Resume | VisitPlan::Admit => SessionState::Admitted,
        VisitPlan::Enqueue => SessionState::Enqueued { original_position: position },
        VisitPlan::Wait => match session {
            SessionState::Enqueued { original_position } => session,
            _ => SessionState::Enqueued { original_position: position },
        },
    }
}

/// Computes the session after a visit.
pub fn next_session(plan: VisitPlan, session: SessionState, position: usize) -> (next:
    SessionState)
    ensures
        next == session_after(plan, session, position),
{
    match plan {
        VisitPlan::Resume | VisitPlan::Admit => SessionState::Admitted,
        VisitPlan::Enqueue => SessionState::Enqueued { original_position: position },
        VisitPlan::Wait => match session {
            SessionState::Enqueued { original_position } => session,
            _ => SessionState::Enqueued { original_position: position },
        },
    }
}

/// A message for the audit sink.
#[derive(Clone, Debug, PartialEq, Eq)]
pub struct AuditEvent {
    pub topic: String,
    pub key: String,
    pub payload: String,
}

/// The audit event for a visitor who joined the queue.
pub fn enqueue_event(id: VisitorId) -> (event: AuditEvent)
    ensures
        event.topic@ == "queue"@,
        event.key@ == "add"@,
        event.payload@ == hyphenated(id.value),
{
    AuditEvent {
        topic: String::from_str("queue"),
        key: String::from_str("add"),
        payload: id.to_text(),
    }
}

/// The audit event for a termination.
pub fn terminate_event() -> (event: AuditEvent)
    ensures
        event.topic@ == "terminate_session"@,
        event.key@ == "Key key"@,
        event.payload@ == "Message payload"@,
{
    AuditEvent {
        topic: String::from_str("terminate_session"),
        key: String::from_str("Key key"),
        payload: String::from_str("Message payload"),
    }
}

/// The path of the waiting room.
pub fn waiting_room_path() -> (path: String)
    ensures
        path@ == "/waiting-room"@,
{
    String::from_str("/waiting-room")
}

/// What the deployment is configured with, as far as admission reads it.
#[derive(Clone, Debug, PartialEq, Eq)]
pub struct Settings {
    /// The URL of this deployment, the issuer of its tokens.
    pub issuer: String,
    /// The URL of the destination, the audience of its tokens.
    pub destination: String,
    /// The active-session timeout in minutes.
    pub timeout_minutes: u16,
}

/// What one visit came to.
#[derive(Clone, Debug, PartialEq, Eq)]
pub struct VisitOutcome {
    /// What was done.
    pub plan: VisitPlan,
    /// The session to store for the visitor.
    pub session: SessionState,
    /// The claims of the egress token, for a visitor who goes through.
    pub claims: Option<Claims>,
    /// The audit event to emit, for a visitor who joined the queue.
    pub audit: Option<AuditEvent>,
}

/// Seconds of liveness granted by a timeout configured in minutes.
pub open spec fn ttl_seconds_of(minutes: u16) -> u32 {
    (minutes as int * 60) as u32
}

/// Converts the configured active-session timeout to seconds.
pub fn ttl_seconds(minutes: u16) -> (secs: u32)
    ensures
        secs == ttl_seconds_of(minutes),
        secs as int == minutes as int * 60,
{
    let wide: u32 = minutes as u32;
    wide * 60
}

/// Whether a plan lets the visitor through to the destination.
pub open spec fn goes_through(plan: VisitPlan) -> bool {
    plan == VisitPlan::Resume || plan == VisitPlan::Admit
}

/// Handles a visit of `id` at `now`.
///
/// Where the store holds the visitor decides first: an active visitor goes
/// through again, a waiting visitor keeps their place, and the store is left
/// as it is. A visitor in neither list is decided by the policy: enqueued at
/// the end of the queue, or admitted directly with a liveness marker. A
/// visitor who goes through receives claims minted at `now`; one who joins
/// the queue is reported to the audit sink.
pub fn visit(
    store: &mut StateStore,
    session: SessionState,
    id: VisitorId,
    now: i64,
    settings: &Settings,
) -> (outcome: VisitOutcome)
    ensures
        outcome.plan == old(store)@.plan(id),
        final(store)@ == old(store)@.visit(id, now, ttl_seconds_of(settings.timeout_minutes)),
        match outcome.plan {
            VisitPlan::Enqueue => outcome.session == (SessionState::Enqueued {
                original_position: (old(store)@.queue.len() + 1) as usize,
            }) && old(store)@.queue.len() < usize::MAX,
            VisitPlan::Wait => exists|i: usize|
                #![trigger first_index(old(store)@.queue, id, Some(i))]
                first_index(old(store)@.queue, id, Some(i)) && outcome.session == session_after(
                    VisitPlan::Wait,
                    session,
                    (i + 1) as usize,
                ),
            _ => outcome.session == SessionState::Admitted,
        },
        match outcome.claims {
            Some(claims) => goes_through(outcome.plan) && claims@ == issued_claims(
                id,
                settings.issuer@,
                settings.destination@,
                now,
                settings.timeout_minutes,
            ),
            None => !goes_through(outcome.plan),
        },
        match outcome.audit {
            Some(event) => {
                &&& outcome.plan == VisitPlan::Enqueue
                &&& event.topic@ == "queue"@
                &&& event.key@ == "add"@
                &&& event.payload@ == hyphenated(id.value)
            },
            None => outcome.plan != VisitPlan::Enqueue,
        },
        old(store)@.well_formed() ==> final(store)@.well_formed(),
{
    let found = store.get_queue_position(id);
    let plan = plan_visit(
        found.is_some(),
        store.is_active(id),
        store.get_queue_length(),
        store.get_active_length(),
        store.capacity(),
    );
    match plan {
        VisitPlan::Resume => VisitOutcome {
            plan,
            session: next_session(plan, session, 0),
            claims: Some(
                issue_claims(
                    id,
                    settings.issuer.as_str(),
                    settings.destination.as_str(),
                    now,
                    settings.timeout_minutes,
                ),
            ),
            audit: None,
        },
        VisitPlan::Wait => {
            let position = match found {
                Some(index) => position_at(index),
                None => 0,
            };
            VisitOutcome {
                plan,
                session: next_session(plan, session, position),
                claims: None,
                audit: None,
            }
        },
        VisitPlan::Enqueue => {
            let position = store.push_to_queue(id);
            VisitOutcome {
                plan,
                session: next_session(plan, session, position),
                claims: None,
                audit: Some(enqueue_event(id)),
            }
        },
        VisitPlan::Admit => {
            store.push_to_active(id);
            store.set_marker(id, now, ttl_seconds(settings.timeout_minutes));
            VisitOutcome {
                plan,
                session: next_session(plan, session, 0),
                claims: Some(
                    issue_claims(
                        id,
                        settings.issuer.as_str(),
                        settings.destination.as_str(),
                        now,
                        settings.timeout_minutes,
                    ),
                ),
                audit: None,
            }
        },
    }
}

/// What a termination request came to.
#[derive(Clone, Debug, PartialEq, Eq)]
pub struct Termination {
    /// How many entries left the active set.
    pub removed: usize,
    /// The audit event to emit.
    pub audit: AuditEvent,
}

/// Handles a termination request for the visitor named by `text`: the
/// visitor leaves the active set if they are in it. A text that names no
/// visitor removes nobody. The request always succeeds.
pub fn terminate_session(store: &mut StateStore, text: &str) -> (done: Termination)
    ensures
        final(store)@ == match parsed_uuid(text@) {
            Some(value) => old(store)@.evict(VisitorId { value }),
            None => old(store)@,
        },
        done.removed == old(store)@.active.len() - final(store)@.active.len(),
        done.audit.topic@ == "terminate_session"@,
        done.audit.key@ == "Key key"@,
        done.audit.payload@ == "Message payload"@,
        old(store)@.well_formed() ==> final(store)@.well_formed(),
{
    let removed = match VisitorId::parse(text) {
        Some(id) => store.terminate(id),
        None => 0,
    };
    Termination { removed, audit: terminate_event() }
}

} // verus!
