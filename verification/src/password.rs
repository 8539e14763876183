//! Password hashing, delegated to the `argon2` crate.
//!
//! A digest is a salted, algorithm-tagged PHC string. Hashing draws a fresh
//! random salt, so two digests of the same password differ; verification
//! recomputes the hash from the salt and parameters embedded in the digest
//! and is therefore a pure function of password and digest. Any parse
//! failure of the digest verifies as a mismatch — the caller cannot tell
//! the failure modes apart.

use argon2::password_hash::rand_core::OsRng;
use argon2::password_hash::SaltString;
use argon2::PasswordHasher;
use argon2::PasswordVerifier;
use vstd::prelude::*;

verus! {

/// Whether `password` verifies against `digest`: the result of recomputing
/// the salted hash embedded in `digest` and comparing. A digest that does
/// not parse matches nothing.
pub uninterp spec fn digest_matches(password: Seq<char>, digest: Seq<char>) -> bool;

/// Relies on `argon2::Argon2::hash_password` with a freshly generated salt:
/// the produced PHC string verifies against the hashed password, because
/// `verify_password` recomputes the same hash from the salt and parameters
/// that the string embeds. With a generated salt and default parameters the
/// only failure argon2 reports is a password of 2^32 bytes or more; a
/// string of fewer than 2^30 characters is at most 2^32 - 4 bytes in UTF-8,
/// so hashing it succeeds.
#[verifier::external_body]
pub fn hash_password(password: &str) -> (r: Option<String>)
    ensures
        r matches Some(digest) ==> digest_matches(password@, digest@),
        password@.len() < 0x40000000 ==> r is Some,
{
    let salt = SaltString::generate(&mut OsRng);
    match argon2::Argon2::default().hash_password(password.as_bytes(), &salt) {
        Ok(hash) => Some(hash.to_string()),
        Err(_) => None,
    }
}

/// Relies on `argon2::password_hash::PasswordHash::new` and
/// `argon2::Argon2::verify_password`: both are deterministic in the
/// password and the digest string, and every failure (unparsable digest or
/// hash mismatch) is reported the same way.
#[verifier::external_body]
pub fn verify_password(password: &str, digest: &str) -> (r: bool)
    ensures
        r == digest_matches(password@, digest@),
{
    match argon2::PasswordHash::new(digest) {
        Ok(parsed) => {
            argon2::Argon2::default().verify_password(password.as_bytes(), &parsed).is_ok()
        },
        Err(_) => false,
    }
}

} // verus!
