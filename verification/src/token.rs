//! Session tokens: issuing and verification, delegated to `jsonwebtoken`.
//!
//! A token is a signed JWT carrying two claims: the subject (the account
//! identifier, rendered as a UUID string) and an absolute expiry. Signing
//! uses a process-wide secret handed in explicitly; expiry is checked here,
//! in verified code, against an explicit clock value, so decoding below is
//! a pure function of token and secret.

use crate::error::AppError;
use crate::model::Claims;
use vstd::prelude::*;

verus! {

/// Sessions live for seven days from issuance.
pub const SESSION_TTL_SECS: i64 = 604800;

/// The token string that signing produces for a subject, an expiry and a
/// secret. Deterministic: HMAC-SHA256 over a canonical serialisation.
pub uninterp spec fn token_of(sub: u128, exp: i64, secret: Seq<u8>) -> Seq<char>;

/// The claims that signature-checked decoding recovers from a token string
/// under a secret, or `None` when the token is malformed or the signature
/// does not match. Deterministic in both arguments; the expiry is not
/// compared to any clock here.
pub uninterp spec fn decoded_claims(token: Seq<char>, secret: Seq<u8>) -> Option<(u128, i64)>;

/// Whether the session verifier accepts `token` at time `now` under
/// `secret`: the signature must check out and the expiry must lie strictly
/// in the future.
pub open spec fn token_accepted(token: Seq<char>, secret: Seq<u8>, now: i64) -> bool {
    match decoded_claims(token, secret) {
        Some(p) => p.1 > now,
        None => false,
    }
}

/// Relies on `jsonwebtoken::encode` with an HS256 header: the output is a
/// deterministic function of the claims and the secret, and
/// `jsonwebtoken::decode` with the same secret recovers exactly the two
/// claims that were encoded. HMAC signing cannot fail and these claims
/// always serialise, so encoding always succeeds. The expiry must be
/// non-negative: the decoder reads numeric claims through a reader that
/// accepts only non-negative numbers, so a negative expiry would encode
/// but never decode.
#[verifier::external_body]
fn encode_token(sub: u128, exp: i64, secret: &[u8]) -> (r: Option<String>)
    requires
        0 <= exp,
    ensures
        r is Some,
        r matches Some(t) ==> t@ == token_of(sub, exp, secret@) && decoded_claims(
            t@,
            secret@,
        ) == Some((sub, exp)),
{
    let mut claims = serde_json::Map::new();
    let sub_str = uuid::Uuid::from_u128(sub).to_string();
    claims.insert("sub".to_owned(), serde_json::Value::String(sub_str));
    claims.insert("exp".to_owned(), serde_json::Value::from(exp));
    let key = jsonwebtoken::EncodingKey::from_secret(secret);
    jsonwebtoken::encode(
        &jsonwebtoken::Header::default(),
        &serde_json::Value::Object(claims),
        &key,
    ).ok()
}

/// Relies on `jsonwebtoken::decode` with expiry validation turned off: it
/// checks the HS256 signature and deserialises the claims, a deterministic
/// function of token and secret that consults no clock.
#[verifier::external_body]
fn decode_token(token: &str, secret: &[u8]) -> (r: Option<(u128, i64)>)
    ensures
        r == decoded_claims(token@, secret@),
{
    let mut validation = jsonwebtoken::Validation::new(jsonwebtoken::Algorithm::HS256);
    validation.validate_exp = false;
    let key = jsonwebtoken::DecodingKey::from_secret(secret);
    let data = match jsonwebtoken::decode::<serde_json::Value>(token, &key, &validation) {
        Ok(d) => d,
        Err(_) => return None,
    };
    let sub_str = data.claims.get("sub")?.as_str()?;
    let sub = match uuid::Uuid::parse_str(sub_str) {
        Ok(u) => u.as_u128(),
        Err(_) => return None,
    };
    Some((sub, data.claims.get("exp")?.as_i64()?))
}

/// Issues a session token for `account_id` at time `now`, expiring
/// `SESSION_TTL_SECS` later. Always succeeds: HMAC signing cannot fail.
/// The expiry must fit in the timestamp type and be non-negative, which
/// the callers establish by failing closed on a pre-epoch or overflowing
/// clock.
pub fn issue_token(account_id: u128, now: i64, secret: &[u8]) -> (r: Result<String, AppError>)
    requires
        0 <= now + SESSION_TTL_SECS,
        now + SESSION_TTL_SECS <= i64::MAX,
    ensures
        r is Ok,
        r matches Ok(t) ==> t@ == token_of(
            account_id,
            (now + SESSION_TTL_SECS) as i64,
            secret@,
        ) && decoded_claims(t@, secret@) == Some((account_id, (now + SESSION_TTL_SECS) as i64)),
{
    let exp = now + SESSION_TTL_SECS;
    match encode_token(account_id, exp, secret) {
        Some(t) => Ok(t),
        None => Err(AppError::Internal),
    }
}

/// Verifies a bearer token at time `now`: accepts exactly the tokens whose
/// signature checks out under `secret` and whose expiry lies in the future,
/// returning the claims; everything else is `Unauthorized`.
pub fn verify_token(token: &str, secret: &[u8], now: i64) -> (r: Result<Claims, AppError>)
    ensures
        r matches Ok(c) ==> decoded_claims(token@, secret@) == Some((c.sub, c.exp)) && c.exp
            > now,
        r matches Err(e) ==> e is Unauthorized && !token_accepted(token@, secret@, now),
        r is Ok == token_accepted(token@, secret@, now),
{
    match decode_token(token, secret) {
        Some(p) => {
            if p.1 > now {
                Ok(Claims { sub: p.0, exp: p.1 })
            } else {
                Err(AppError::Unauthorized)
            }
        },
        None => Err(AppError::Unauthorized),
    }
}

} // verus!
