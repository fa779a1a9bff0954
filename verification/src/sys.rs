//! The outside sources the core draws on at creation time: a clock, a
//! random PIN and fresh identifiers.  Each call is behind a thin
//! wrapper; the logic around them is verified for every value they can
//! hand back.

use vstd::prelude::*;

use crate::types::MAX_PIN;

verus! {

/// Relies on chrono's `Utc::now` and `DateTime::timestamp`: the current
/// time as unix seconds.  Nothing is assumed of the value; callers
/// validate it.
#[verifier::external_body]
pub(crate) fn now_unix() -> (t: i64) {
    chrono::Utc::now().timestamp()
}

/// Relies on rand's `random_range`: a uniform draw from the inclusive
/// range handed to it, here the six-digit PIN space.
#[verifier::external_body]
pub(crate) fn random_pin() -> (pin: u32)
    ensures
        pin <= MAX_PIN,
{
    rand::random_range(0..=MAX_PIN)
}

/// Relies on uuid's `Uuid::new_v4` and `Uuid::as_u128`: a freshly drawn
/// random version-4 identifier as its 128-bit value.  Nothing is assumed
/// of the value, not even distinctness from earlier draws.
#[verifier::external_body]
pub(crate) fn fresh_id() -> (id: u128) {
    uuid::Uuid::new_v4().as_u128()
}

} // verus!
