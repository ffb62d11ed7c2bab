//! The egress token: the claims minted when a visitor is admitted, and the
//! checks made when a token comes back with a liveness renewal.
//!
//! Signing and signature verification happen outside this library; it
//! decides what a token says and whether verified claims are acceptable.

use vstd::prelude::*;
use vstd::string::*;
use crate::identity::{hyphenated, parsed_uuid, VisitorId};
use crate::model::instant_after;
use crate::store::{expiry_instant, StateStore};

verus! {

/// How long an egress token is valid, in seconds.
pub const TOKEN_LIFETIME_SECS: u32 = 1200;

/// The claims of an egress token.
#[derive(Clone, Debug, PartialEq, Eq)]
pub struct Claims {
    /// Subject type.
    pub sub: String,
    /// Issuer: the URL of this deployment.
    pub iss: String,
    /// The visitor identifier, in its canonical text.
    pub qid: String,
    /// Audience: the URL of the destination.
    pub aud: String,
    /// Issued at, in seconds since the epoch.
    pub iat: i64,
    /// Not valid before.
    pub nbf: i64,
    /// Not valid after.
    pub exp: i64,
    /// The active-session timeout in minutes.
    pub cexp: u16,
}

/// Claims as plain mathematical values.
pub struct ClaimsView {
    pub sub: Seq<char>,
    pub iss: Seq<char>,
    pub qid: Seq<char>,
    pub aud: Seq<char>,
    pub iat: i64,
    pub nbf: i64,
    pub exp: i64,
    pub cexp: u16,
}

impl View for Claims {
    type V = ClaimsView;

    open spec fn view(&self) -> ClaimsView {
        ClaimsView {
            sub: self.sub@,
            iss: self.iss@,
            qid: self.qid@,
            aud: self.aud@,
            iat: self.iat,
            nbf: self.nbf,
            exp: self.exp,
            cexp: self.cexp,
        }
    }
}

/// The claims minted for a visitor admitted at `now`: valid from `now` for
/// [`TOKEN_LIFETIME_SECS`].
pub open spec fn issued_claims(
    id: VisitorId,
    issuer: Seq<char>,
    audience: Seq<char>,
    now: i64,
    timeout_minutes: u16,
) -> ClaimsView {
    ClaimsView {
        sub: "queue-egress"@,
        iss: issuer,
        qid: hyphenated(id.value),
        aud: audience,
        iat: now,
        nbf: now,
        exp: instant_after(now, TOKEN_LIFETIME_SECS),
        cexp: timeout_minutes,
    }
}

/// Mints the claims of the egress token for a visitor admitted at `now`.
pub fn issue_claims(
    id: VisitorId,
    issuer: &str,
    audience: &str,
    now: i64,
    timeout_minutes: u16,
) -> (claims: Claims)
    ensures
        claims@ == issued_claims(id, issuer@, audience@, now, timeout_minutes),
{
    Claims {
        sub: String::from_str("queue-egress"),
        iss: String::from_str(issuer),
        qid: id.to_text(),
        aud: String::from_str(audience),
        iat: now,
        nbf: now,
        exp: expiry_instant(now, TOKEN_LIFETIME_SECS),
        cexp: timeout_minutes,
    }
}

/// Why a token is refused.
#[derive(Clone, Copy, Debug, PartialEq, Eq, Structural)]
pub enum TokenError {
    /// The signature did not verify, or the token could not be read.
    Unverified,
    /// The token is presented before its not-before instant.
    NotYetValid,
    /// The token is presented after its expiry.
    Expired,
    /// The claims name no visitor.
    Malformed,
}

/// The time window of claims at `now`: acceptable from not-before up to and
/// including expiry.
pub open spec fn window_at(claims: ClaimsView, now: i64) -> Result<(), TokenError> {
    if now < claims.nbf {
        Err(TokenError::NotYetValid)
    } else if now > claims.exp {
        Err(TokenError::Expired)
    } else {
        Ok(())
    }
}

/// Checks the time window of claims.
pub fn check_window(claims: &Claims, now: i64) -> (checked: Result<(), TokenError>)
    ensures
        checked == window_at(claims@, now),
{
    if now < claims.nbf {
        Err(TokenError::NotYetValid)
    } else if now > claims.exp {
        Err(TokenError::Expired)
    } else {
        Ok(())
    }
}

/// The visitor that a token stands for at `now`. `verified` holds the claims
/// of a token whose signature verified, and `None` for a token that failed.
pub open spec fn validated(verified: Option<ClaimsView>, now: i64) -> Result<
    VisitorId,
    TokenError,
> {
    match verified {
        None => Err(TokenError::Unverified),
        Some(claims) => match window_at(claims, now) {
            Err(e) => Err(e),
            Ok(_) => match parsed_uuid(claims.qid) {
                Some(value) => Ok(VisitorId { value }),
                None => Err(TokenError::Malformed),
            },
        },
    }
}

/// The view of claims that may be absent.
pub open spec fn claims_view(verified: Option<&Claims>) -> Option<ClaimsView> {
    match verified {
        Some(claims) => Some(claims@),
        None => None,
    }
}

/// Validates a token at `now` and names the visitor it stands for. Claims
/// that carry the canonical text of an identifier, as minted claims do, name
/// that identifier.
pub fn validate(verified: Option<&Claims>, now: i64) -> (visitor: Result<VisitorId, TokenError>)
    ensures
        visitor == validated(claims_view(verified), now),
        forall|v: u128|
            verified matches Some(claims) && claims@.qid == #[trigger] hyphenated(v) && window_at(
                claims@,
                now,
            ) is Ok ==> visitor == Ok::<VisitorId, TokenError>(VisitorId { value: v }),
{
    match verified {
        None => Err(TokenError::Unverified),
        Some(claims) => match check_window(claims, now) {
            Err(e) => Err(e),
            Ok(_) => match VisitorId::parse(claims.qid.as_str()) {
                Some(id) => Ok(id),
                None => Err(TokenError::Malformed),
            },
        },
    }
}

/// Handles a liveness renewal. A valid token renews the visitor's liveness
/// marker if it still exists and leaves the store alone if it is gone; the
/// result says which. An invalid token changes nothing.
pub fn heartbeat(store: &mut StateStore, verified: Option<&Claims>, now: i64, ttl: u32) -> (renewed:
    Result<bool, TokenError>)
    ensures
        match validated(claims_view(verified), now) {
            Ok(id) => {
                &&& renewed == Ok::<bool, TokenError>(old(store)@.alive(id, now))
                &&& final(store)@ == old(store)@.renew(id, now, ttl)
            },
            Err(e) => {
                &&& renewed == Err::<bool, TokenError>(e)
                &&& final(store)@ == old(store)@
            },
        },
        old(store)@.well_formed() ==> final(store)@.well_formed(),
{
    match validate(verified, now) {
        Ok(id) => Ok(store.refresh_marker(id, now, ttl)),
        Err(e) => Err(e),
    }
}

/// Where an admitted visitor is sent: the destination with the token
/// attached.
pub open spec fn egress_location_of(destination: Seq<char>, token: Seq<char>) -> Seq<char> {
    destination + "?egress_token="@ + token
}

/// The redirect target for an admitted visitor.
pub fn egress_location(destination: &str, token: &str) -> (location: String)
    ensures
        location@ == egress_location_of(destination@, token@),
{
    String::from_str(destination).concat("?egress_token=").concat(token)
}

/// Minted claims are acceptable from the instant of issue up to and
/// including their expiry, and at no other time.
pub proof fn issued_claims_window(
    id: VisitorId,
    issuer: Seq<char>,
    audience: Seq<char>,
    now: i64,
    timeout_minutes: u16,
    at: i64,
)
    ensures
        window_at(issued_claims(id, issuer, audience, now, timeout_minutes), at) == if at < now {
            Err::<(), TokenError>(TokenError::NotYetValid)
        } else if at > instant_after(now, TOKEN_LIFETIME_SECS) {
            Err::<(), TokenError>(TokenError::Expired)
        } else {
            Ok::<(), TokenError>(())
        },
        now <= instant_after(now, TOKEN_LIFETIME_SECS),
{
}

} // verus!
