use std::fmt;

use jsonwebtoken::{decode, encode, Algorithm, DecodingKey, EncodingKey, Header, Validation};
use queubious::identity::VisitorId;
use queubious::token::{issue_claims, validate, Claims, TokenError};
use serde::de::{IgnoredAny, MapAccess, Visitor};
use serde::ser::SerializeStruct;
use serde::{Deserialize, Deserializer, Serialize, Serializer};

/// The claims as they travel inside a signed token.
struct Wire(Claims);

impl Serialize for Wire {
    fn serialize<S: Serializer>(&self, serializer: S) -> Result<S::Ok, S::Error> {
        let mut out = serializer.serialize_struct("Claims", 8)?;
        out.serialize_field("sub", &self.0.sub)?;
        out.serialize_field("iss", &self.0.iss)?;
        out.serialize_field("qid", &self.0.qid)?;
        out.serialize_field("aud", &self.0.aud)?;
        out.serialize_field("iat", &self.0.iat)?;
        out.serialize_field("nbf", &self.0.nbf)?;
        out.serialize_field("exp", &self.0.exp)?;
        out.serialize_field("cexp", &self.0.cexp)?;
        out.end()
    }
}

struct WireVisitor;

impl<'de> Visitor<'de> for WireVisitor {
    type Value = Wire;

    fn expecting(&self, f: &mut fmt::Formatter) -> fmt::Result {
        f.write_str("the claims of an egress token")
    }

    fn visit_map<A: MapAccess<'de>>(self, mut map: A) -> Result<Wire, A::Error> {
        let mut claims = Claims {
            sub: String::new(),
            iss: String::new(),
            qid: String::new(),
            aud: String::new(),
            iat: 0,
            nbf: 0,
            exp: 0,
            cexp: 0,
        };
        while let Some(key) = map.next_key::<String>()? {
            match key.as_str() {
                "sub" => claims.sub = map.next_value()?,
                "iss" => claims.iss = map.next_value()?,
                "qid" => claims.qid = map.next_value()?,
                "aud" => claims.aud = map.next_value()?,
                "iat" => claims.iat = map.next_value()?,
                "nbf" => claims.nbf = map.next_value()?,
                "exp" => claims.exp = map.next_value()?,
                "cexp" => claims.cexp = map.next_value()?,
                _ => {
                    map.next_value::<IgnoredAny>()?;
                }
            }
        }
        Ok(Wire(claims))
    }
}

impl<'de> Deserialize<'de> for Wire {
    fn deserialize<D: Deserializer<'de>>(deserializer: D) -> Result<Wire, D::Error> {
        deserializer.deserialize_map(WireVisitor)
    }
}

const SECRET: &[u8] = b"a secret shared with nobody else";
const DESTINATION: &str = "https://shop.example";

/// Verifies the signature only; the time window is the library's to judge.
fn verified(token: &str, secret: &[u8]) -> Option<Claims> {
    let mut validation = Validation::new(Algorithm::HS256);
    validation.validate_exp = false;
    validation.validate_nbf = false;
    validation.set_audience(&[DESTINATION]);
    decode::<Wire>(token, &DecodingKey::from_secret(secret), &validation)
        .ok()
        .map(|data| data.claims.0)
}

fn signed(claims: &Claims) -> String {
    encode(&Header::default(), &Wire(claims.clone()), &EncodingKey::from_secret(SECRET)).unwrap()
}

#[test]
fn signed_token_validates_before_expiry_and_not_after() {
    let id = VisitorId { value: 0x936da01f9abd4d9d80c702af85c822a8 };
    let claims = issue_claims(id, "https://queue.example", DESTINATION, 1_000, 5);
    let token = signed(&claims);

    let back = verified(&token, SECRET).expect("the signature verifies");
    assert_eq!(back, claims);
    assert_eq!(validate(Some(&back), 1_000), Ok(id));
    assert_eq!(validate(Some(&back), 2_199), Ok(id));
    assert_eq!(validate(Some(&back), 2_200), Ok(id));
    assert_eq!(validate(Some(&back), 2_201), Err(TokenError::Expired));
    assert_eq!(validate(Some(&back), 999), Err(TokenError::NotYetValid));
}

#[test]
fn token_signed_with_another_key_is_unverified() {
    let id = VisitorId { value: 42 };
    let claims = issue_claims(id, "https://queue.example", DESTINATION, 1_000, 5);
    let token = signed(&claims);
    let back = verified(&token, b"some other secret");
    assert!(back.is_none());
    assert_eq!(validate(back.as_ref(), 1_500), Err(TokenError::Unverified));
}

#[test]
fn tampered_token_is_unverified() {
    let id = VisitorId { value: 42 };
    let claims = issue_claims(id, "https://queue.example", DESTINATION, 1_000, 5);
    let mut later = claims.clone();
    later.exp = 9_999_999;
    let honest = signed(&claims);
    let forged = signed(&later);
    // The payload of one token under the signature of the other.
    let honest_parts: Vec<&str> = honest.split('.').collect();
    let forged_parts: Vec<&str> = forged.split('.').collect();
    assert_eq!(honest_parts.len(), 3);
    let spliced = [forged_parts[0], forged_parts[1], honest_parts[2]].join(".");
    let back = verified(&spliced, SECRET);
    assert!(back.is_none());
    assert_eq!(validate(back.as_ref(), 5_000), Err(TokenError::Unverified));
    assert_eq!(validate(verified("not a token", SECRET).as_ref(), 0), Err(TokenError::Unverified));
}
