//! Client identity generation.
//!
//! A peer's 64-bit identity is generated locally before connecting and
//! bound server-side during the handshake. Nothing can be promised of a
//! random draw, so the session logic takes the identity as a plain value
//! and is verified for every value of it.

use vstd::prelude::*;

verus! {

/// Relies on rand::random; nothing is promised of the drawn value.
pub assume_specification<T>[ rand::random::<T> ]() -> (r: T)
    where
        rand::distributions::Standard: rand::distributions::Distribution<T>,
;

/// Draw the identity a new session will claim.
pub fn generate_client_id() -> u64 {
    rand::random::<u64>()
}

} // verus!
