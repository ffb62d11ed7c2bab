//! Visitor identifiers: 128-bit values with a canonical textual form.
//!
//! The textual form is produced and read by the `uuid` crate; the functions
//! here state what those calls return so that the rest of the library can
//! reason about identifiers as plain integers.

use vstd::prelude::*;

verus! {

/// The stable, opaque identifier of one visitor.
#[derive(Clone, Copy, Debug, PartialEq, Eq, Structural, Hash)]
pub struct VisitorId {
    pub value: u128,
}

/// The lower-case hexadecimal digit for a value in `0..16`.
pub open spec fn hex_char(n: int) -> char {
    seq!['0', '1', '2', '3', '4', '5', '6', '7', '8', '9', 'a', 'b', 'c', 'd', 'e', 'f'][n]
}

/// Sixteen to the power `k`.
pub open spec fn sixteen_pow(k: nat) -> int
    decreases k,
{
    if k == 0 {
        1
    } else {
        16 * sixteen_pow((k - 1) as nat)
    }
}

/// The `k`-th hexadecimal digit of `value`, counted from the most significant
/// of its 32 digits.
pub open spec fn hex_digit(value: u128, k: int) -> int {
    (value as int / sixteen_pow((31 - k) as nat)) % 16
}

/// How many hyphens stand before position `i` of the hyphenated form.
pub open spec fn hyphens_before(i: int) -> int {
    if i < 8 {
        0
    } else if i < 13 {
        1
    } else if i < 18 {
        2
    } else if i < 23 {
        3
    } else {
        4
    }
}

/// The canonical text of an identifier: 32 lower-case hexadecimal digits, most
/// significant first, in groups of 8, 4, 4, 4 and 12 separated by hyphens.
pub open spec fn hyphenated(value: u128) -> Seq<char> {
    Seq::new(
        36,
        |i: int|
            if i == 8 || i == 13 || i == 18 || i == 23 {
                '-'
            } else {
                hex_char(hex_digit(value, i - hyphens_before(i)))
            },
    )
}

/// What `uuid::Uuid::parse_str` makes of a text: the 128-bit value it reads,
/// or `None` where it reports an error.
pub uninterp spec fn parsed_uuid(text: Seq<char>) -> Option<u128>;

/// The bits that mark a value as a randomly generated identifier: version 4
/// in the thirteenth hexadecimal digit, and the two variant bits `10` on top
/// of the seventeenth.
pub open spec fn is_random_uuid(value: u128) -> bool {
    value & 0x0000_0000_0000_f000_c000_0000_0000_0000u128
        == 0x0000_0000_0000_4000_8000_0000_0000_0000u128
}

/// Trusted: `uuid::Uuid::parse_str`, with the value read out by
/// `Uuid::as_u128`. The result is a function of the text alone. The parser
/// accepts the hyphenated form (36 characters, hyphens at positions 8, 13, 18
/// and 23, hexadecimal digits elsewhere) and decodes its digits most
/// significant first, so the canonical text of a value reads back as that
/// value.
#[verifier::external_body]
fn uuid_parse(text: &str) -> (value: Option<u128>)
    ensures
        value == parsed_uuid(text@),
        forall|v: u128| text@ == #[trigger] hyphenated(v) ==> value == Some(v),
{
    match uuid::Uuid::parse_str(text) {
        Ok(id) => Some(id.as_u128()),
        Err(_) => None,
    }
}

/// Trusted: `uuid::Uuid::from_u128` followed by the `Display` form of the
/// identifier, which is the lower-case hyphenated form of its sixteen bytes
/// in big-endian order.
#[verifier::external_body]
fn uuid_text(value: u128) -> (text: String)
    ensures
        text@ == hyphenated(value),
{
    uuid::Uuid::from_u128(value).to_string()
}

/// Trusted: `uuid::Uuid::new_v4`, read out by `Uuid::as_u128`. The value is
/// random; only its version and variant bits are fixed.
#[verifier::external_body]
fn uuid_random() -> (value: u128)
    ensures
        is_random_uuid(value),
{
    uuid::Uuid::new_v4().as_u128()
}

impl VisitorId {
    /// Reads an identifier from its textual form.
    pub fn parse(text: &str) -> (id: Option<VisitorId>)
        ensures
            id == match parsed_uuid(text@) {
                Some(value) => Some(VisitorId { value }),
                None => None,
            },
            forall|v: u128|
                text@ == #[trigger] hyphenated(v) ==> id == Some(VisitorId { value: v }),
    {
        match uuid_parse(text) {
            Some(value) => Some(VisitorId { value }),
            None => None,
        }
    }

    /// The canonical text of this identifier.
    pub fn to_text(&self) -> (text: String)
        ensures
            text@ == hyphenated(self.value),
    {
        uuid_text(self.value)
    }

    /// A new random identifier.
    pub fn generate() -> (id: VisitorId)
        ensures
            is_random_uuid(id.value),
    {
        VisitorId { value: uuid_random() }
    }
}

/// A visitor identifier together with whether it was created just now.
#[derive(Clone, Copy, Debug, PartialEq, Eq, Structural)]
pub struct Identity {
    pub id: VisitorId,
    pub created: bool,
}

/// Why a stored identifier could not be used.
#[derive(Clone, Copy, Debug, PartialEq, Eq, Structural)]
pub enum IdentityError {
    /// The session holds a text that is no identifier.
    Malformed,
}

/// The identity of a visitor whose session holds `stored`, where `fresh` is
/// the identifier to hand out if the session holds none.
pub open spec fn resolved_identity(stored: Option<Seq<char>>, fresh: VisitorId) -> Result<
    Identity,
    IdentityError,
> {
    match stored {
        None => Ok(Identity { id: fresh, created: true }),
        Some(text) => match parsed_uuid(text) {
            Some(value) => Ok(Identity { id: VisitorId { value }, created: false }),
            None => Err(IdentityError::Malformed),
        },
    }
}

/// Resolves the identity of a visitor from what the session holds: a stored
/// identifier is reused, and a session without one receives `fresh`.
pub fn resolve_with(stored: Option<&str>, fresh: VisitorId) -> (resolved: Result<
    Identity,
    IdentityError,
>)
    ensures
        resolved == resolved_identity(
            match stored {
                Some(text) => Some(text@),
                None => None,
            },
            fresh,
        ),
{
    match stored {
        None => Ok(Identity { id: fresh, created: true }),
        Some(text) => match VisitorId::parse(text) {
            Some(id) => Ok(Identity { id, created: false }),
            None => Err(IdentityError::Malformed),
        },
    }
}

/// Resolves the identity of a visitor, generating a random identifier for a
/// session that holds none. A stored identifier is never replaced.
pub fn resolve_identity(stored: Option<&str>) -> (resolved: Result<Identity, IdentityError>)
    ensures
        match stored {
            Some(text) => resolved == match parsed_uuid(text@) {
                Some(value) => Ok::<Identity, IdentityError>(
                    Identity { id: VisitorId { value }, created: false },
                ),
                None => Err::<Identity, IdentityError>(IdentityError::Malformed),
            },
            None => {
                &&& resolved matches Ok(identity)
                &&& identity.created
                &&& is_random_uuid(identity.id.value)
            },
        },
{
    match stored {
        Some(text) => match VisitorId::parse(text) {
            Some(id) => Ok(Identity { id, created: false }),
            None => Err(IdentityError::Malformed),
        },
        None => resolve_with(None, VisitorId::generate()),
    }
}

} // verus!
