//! What each request is answered with, as far as the library decides it: the
//! status code, and the target of a redirect.

use vstd::prelude::*;
use crate::admission::waiting_room_path;
use crate::model::VisitPlan;
use crate::status::StatusError;
use crate::token::{egress_location, egress_location_of, TokenError};

verus! {

/// The answer to a request.
#[derive(Clone, Debug, PartialEq, Eq)]
pub enum Reply {
    /// Success.
    Done,
    /// A redirect to `location`.
    Found { location: String },
    /// The request is refused as the client's fault.
    BadRequest,
    /// The request failed on the server's side.
    ServerError,
}

impl Reply {
    /// The HTTP status code of an answer.
    pub open spec fn code_of(self) -> u16 {
        match self {
            Reply::Done => 200,
            Reply::Found { .. } => 302,
            Reply::BadRequest => 400,
            Reply::ServerError => 500,
        }
    }

    /// The HTTP status code of this answer.
    pub fn code(&self) -> (code: u16)
        ensures
            code == self.code_of(),
    {
        match self {
            Reply::Done => 200,
            Reply::Found { .. } => 302,
            Reply::BadRequest => 400,
            Reply::ServerError => 500,
        }
    }
}

/// The view of a token that may be absent.
pub open spec fn token_view(token: Option<&str>) -> Option<Seq<char>> {
    match token {
        Some(t) => Some(t@),
        None => None,
    }
}

/// Answers a visit. A visitor who waits is sent to the waiting room. A
/// visitor who goes through is sent to the destination with their signed
/// token attached, and never without one: where signing failed, the request
/// fails.
pub fn visit_reply(plan: VisitPlan, destination: &str, token: Option<&str>) -> (reply: Reply)
    ensures
        match plan {
            VisitPlan::Wait | VisitPlan::Enqueue => reply matches Reply::Found { location }
                && location@ == "/waiting-room"@,
            VisitPlan::Resume | VisitPlan::Admit => match token_view(token) {
                Some(signed) => reply matches Reply::Found { location } && location@
                    == egress_location_of(destination@, signed),
                None => reply == Reply::ServerError,
            },
        },
{
    match plan {
        VisitPlan::Wait | VisitPlan::Enqueue => Reply::Found { location: waiting_room_path() },
        VisitPlan::Resume | VisitPlan::Admit => match token {
            Some(signed) => Reply::Found { location: egress_location(destination, signed) },
            None => Reply::ServerError,
        },
    }
}

/// Answers a liveness renewal: success for a valid token, whether or not a
/// marker was there to renew, and a refusal for an invalid one.
pub fn heartbeat_reply(renewed: Result<bool, TokenError>) -> (reply: Reply)
    ensures
        reply == match renewed {
            Ok(_) => Reply::Done,
            Err(_) => Reply::BadRequest,
        },
{
    match renewed {
        Ok(_) => Reply::Done,
        Err(_) => Reply::BadRequest,
    }
}

/// Answers a status request by its outcome: success where a status was
/// reported, a refusal where the request carried no identifier, and a
/// failure where the visitor does not wait.
pub fn status_reply(outcome: Result<(), StatusError>) -> (reply: Reply)
    ensures
        reply == match outcome {
            Ok(_) => Reply::Done,
            Err(StatusError::NoSession) => Reply::BadRequest,
            Err(StatusError::NotQueued) => Reply::ServerError,
        },
{
    match outcome {
        Ok(_) => Reply::Done,
        Err(StatusError::NoSession) => Reply::BadRequest,
        Err(StatusError::NotQueued) => Reply::ServerError,
    }
}

/// Answers a termination request: always success.
pub fn terminate_reply() -> (reply: Reply)
    ensures
        reply == Reply::Done,
{
    Reply::Done
}

} // verus!
