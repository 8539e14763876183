//! The two ambient inputs the services draw at runtime: fresh identifiers
//! and the current time.
//!
//! Nothing can be promised of either value, so every function that uses one
//! hands it on to a deterministic function whose contract holds for all
//! values.

use vstd::prelude::*;

verus! {

/// Relies on `uuid::Uuid::new_v4`: a randomly generated identifier, about
/// which nothing is promised (in particular not freshness — callers must
/// handle a collision).
#[verifier::external_body]
pub fn fresh_uuid() -> u128 {
    uuid::Uuid::new_v4().as_u128()
}

/// Relies on `chrono::Utc::now`: the wall-clock time as whole seconds since
/// the Unix epoch. Nothing is promised of the value.
#[verifier::external_body]
pub fn current_timestamp() -> i64 {
    chrono::Utc::now().timestamp()
}

} // verus!
