//! What a waiting visitor is told: their position in the queue and how far
//! they have come since they joined it.

use vstd::prelude::*;
use vstd::string::*;
use crate::admission::SessionState;
use crate::clock::{clock_label, clock_text};
use crate::identity::VisitorId;
use crate::store::{first_index, StateStore};

verus! {

/// A notice shown to waiting visitors.
#[derive(Clone, Debug, PartialEq, Eq)]
pub struct Message {
    pub timestamp: String,
    pub message: String,
}

/// The status of one visitor.
#[derive(Clone, Debug, PartialEq, Eq)]
pub struct Status {
    /// Position in the queue, counted from 1.
    pub position: usize,
    /// Progress since joining the queue, in percent.
    pub progress: usize,
    /// A coarse estimate of the wait.
    pub wait_time: String,
    /// When this status was computed.
    pub last_updated: String,
    /// Notices for the visitor.
    pub messages: Vec<Message>,
}

/// Why no status can be given.
#[derive(Clone, Copy, Debug, PartialEq, Eq, Structural)]
pub enum StatusError {
    /// The request carries no visitor identifier.
    NoSession,
    /// The visitor does not wait in the queue: they were promoted, or never
    /// enqueued.
    NotQueued,
}

/// Progress in percent of a visitor at `position` who joined at `original`,
/// both counted from 1: the share of the original distance that is covered,
/// rounded down. A visitor who has not advanced, or whose original position
/// is unknown (zero), has made no progress.
pub open spec fn progress_of(position: nat, original: nat) -> nat {
    if original == 0 || position >= original {
        0
    } else {
        (100 * (original - position) / original as int) as nat
    }
}

/// Progress is a percentage, and it does not fall as the visitor advances.
pub proof fn progress_is_monotone(nearer: nat, farther: nat, original: nat)
    requires
        nearer <= farther,
    ensures
        progress_of(farther, original) <= progress_of(nearer, original) <= 100,
{
    if original > 0 && nearer < original {
        let o = original as int;
        let a = 100 * (original - nearer);
        assert(a / o <= 100) by (nonlinear_arith)
            requires
                0 <= a <= 100 * o,
                o > 0,
        ;
        assert(0 <= a / o) by (nonlinear_arith)
            requires
                0 <= a,
                o > 0,
        ;
        if farther < original {
            let b = 100 * (original - farther);
            assert(b / o <= a / o) by (nonlinear_arith)
                requires
                    0 <= b <= a,
                    o > 0,
            ;
            assert(0 <= b / o) by (nonlinear_arith)
                requires
                    0 <= b,
                    o > 0,
            ;
        }
    }
}

/// Computes the progress of a visitor.
pub fn progress_percent(position: usize, original: usize) -> (progress: usize)
    ensures
        progress == progress_of(position as nat, original as nat),
        progress <= 100,
{
    proof {
        progress_is_monotone(position as nat, position as nat, original as nat);
    }
    if original == 0 || position >= original {
        0
    } else {
        let covered: u128 = (original - position) as u128;
        let scaled: u128 = covered * 100;
        let share: u128 = scaled / (original as u128);
        share as usize
    }
}

/// The status with the given position and progress, as plain values.
pub open spec fn status_with(
    status: Status,
    position: nat,
    progress: nat,
    updated: Seq<char>,
) -> bool {
    &&& status.position == position
    &&& status.progress == progress
    &&& status.wait_time@ == "119 Minutes"@
    &&& status.last_updated@ == updated
    &&& status.messages@.len() == 0
}

/// The status of a visitor nobody has seen before: first in line, no
/// progress.
pub fn default_status(last_updated: String) -> (status: Status)
    ensures
        status_with(status, 1, 0, last_updated@),
{
    Status {
        position: 1,
        progress: 0,
        wait_time: String::from_str("119 Minutes"),
        last_updated,
        messages: Vec::new(),
    }
}

/// The position, counted from 1, of the visitor at 0-based `index`; held at
/// the largest representable number.
pub open spec fn position_of(index: usize) -> usize {
    if index < usize::MAX {
        (index + 1) as usize
    } else {
        usize::MAX
    }
}

/// Computes the position of the visitor at 0-based `index`.
pub fn position_at(index: usize) -> (position: usize)
    ensures
        position == position_of(index),
{
    if index < usize::MAX {
        index + 1
    } else {
        usize::MAX
    }
}

/// The status of a visitor found at 0-based `index` in the queue, who joined
/// at position `original`; a visitor without a recorded original position
/// is measured against where they stand now.
pub fn queued_status(index: usize, original: Option<usize>, last_updated: String) -> (status:
    Status)
    ensures
        status_with(
            status,
            position_of(index) as nat,
            progress_of(
                position_of(index) as nat,
                match original {
                    Some(o) => o as nat,
                    None => position_of(index) as nat,
                },
            ),
            last_updated@,
        ),
{
    let position = position_at(index);
    let joined = match original {
        Some(o) => o,
        None => position,
    };
    Status {
        position,
        progress: progress_percent(position, joined),
        wait_time: String::from_str("119 Minutes"),
        last_updated,
        messages: Vec::new(),
    }
}

/// The original position that a session recorded, if it recorded one.
pub open spec fn recorded_position(session: SessionState) -> Option<usize> {
    match session {
        SessionState::Enqueued { original_position } => Some(original_position),
        _ => None,
    }
}

/// Reports the status of a visitor from the store. A request without an
/// identifier gets the default status; a visitor who does not wait gets
/// `NotQueued`.
pub fn report(
    store: &StateStore,
    visitor: Option<VisitorId>,
    session: SessionState,
    last_updated: String,
) -> (reported: Result<Status, StatusError>)
    ensures
        match visitor {
            None => reported matches Ok(status) && status_with(status, 1, 0, last_updated@),
            Some(id) => if store@.queue.contains(id) {
                &&& reported matches Ok(status)
                &&& exists|i: usize|
                    #![trigger first_index(store@.queue, id, Some(i))]
                    {
                        &&& first_index(store@.queue, id, Some(i))
                        &&& status_with(
                            status,
                            (i + 1) as nat,
                            progress_of(
                                (i + 1) as nat,
                                match recorded_position(session) {
                                    Some(o) => o as nat,
                                    None => (i + 1) as nat,
                                },
                            ),
                            last_updated@,
                        )
                    }
            } else {
                reported == Err::<Status, StatusError>(StatusError::NotQueued)
            },
        },
{
    match visitor {
        None => Ok(default_status(last_updated)),
        Some(id) => match store.get_queue_position(id) {
            None => Err(StatusError::NotQueued),
            Some(index) => {
                let original = match session {
                    SessionState::Enqueued { original_position } => Some(original_position),
                    _ => None,
                };
                Ok(queued_status(index, original, last_updated))
            },
        },
    }
}

/// Reports the status of a visitor as [`report`] does, stamped with the time
/// of day that lies `seconds` after midnight.
pub fn get_status(
    store: &StateStore,
    visitor: Option<VisitorId>,
    session: SessionState,
    seconds: u32,
) -> (reported: Result<Status, StatusError>)
    ensures
        match visitor {
            None => reported matches Ok(status) && status_with(
                status,
                1,
                0,
                clock_text(
                    (seconds as int / 3600) % 24,
                    (seconds as int / 60) % 60,
                    seconds as int % 60,
                ),
            ),
            Some(id) => if store@.queue.contains(id) {
                &&& reported matches Ok(status)
                &&& exists|i: usize|
                    #![trigger first_index(store@.queue, id, Some(i))]
                    {
                        &&& first_index(store@.queue, id, Some(i))
                        &&& status_with(
                            status,
                            (i + 1) as nat,
                            progress_of(
                                (i + 1) as nat,
                                match recorded_position(session) {
                                    Some(o) => o as nat,
                                    None => (i + 1) as nat,
                                },
                            ),
                            clock_text(
                                (seconds as int / 3600) % 24,
                                (seconds as int / 60) % 60,
                                seconds as int % 60,
                            ),
                        )
                    }
            } else {
                reported == Err::<Status, StatusError>(StatusError::NotQueued)
            },
        },
{
    report(store, visitor, session, clock_label(seconds))
}

/// Answers a status request: a request without an identifier is refused,
/// any other is reported from the store.
pub fn status(
    store: &StateStore,
    visitor: Option<VisitorId>,
    session: SessionState,
    last_updated: String,
) -> (reported: Result<Status, StatusError>)
    ensures
        match visitor {
            None => reported == Err::<Status, StatusError>(StatusError::NoSession),
            Some(id) => if store@.queue.contains(id) {
                &&& reported matches Ok(status)
                &&& exists|i: usize|
                    #![trigger first_index(store@.queue, id, Some(i))]
                    {
                        &&& first_index(store@.queue, id, Some(i))
                        &&& status_with(
                            status,
                            (i + 1) as nat,
                            progress_of(
                                (i + 1) as nat,
                                match recorded_position(session) {
                                    Some(o) => o as nat,
                                    None => (i + 1) as nat,
                                },
                            ),
                            last_updated@,
                        )
                    }
            } else {
                reported == Err::<Status, StatusError>(StatusError::NotQueued)
            },
        },
{
    match visitor {
        None => Err(StatusError::NoSession),
        Some(_) => report(store, visitor, session, last_updated),
    }
}

} // verus!
