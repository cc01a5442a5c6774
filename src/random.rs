use rand::RngCore;
use vstd::prelude::*;

use crate::text::all_lower_hex;

verus! {

/// Relies on rand's `thread_rng().fill_bytes`: `n` bytes from the thread's
/// cryptographically secure generator. Nothing is known of their values.
#[verifier::external_body]
pub(crate) fn random_bytes(n: usize) -> (r: Vec<u8>)
    ensures
        r@.len() == n,
{
    let mut bytes = vec![0u8; n];
    rand::thread_rng().fill_bytes(&mut bytes);
    bytes
}

/// Relies on uuid's `Uuid::new_v4`: a random version-4 identifier, as its
/// 128-bit value.
#[verifier::external_body]
pub(crate) fn random_uuid() -> (r: u128) {
    uuid::Uuid::new_v4().as_u128()
}

/// Relies on uuid's `Uuid::new_v4().simple().to_string()`: a random
/// identifier written as 32 lower-case hex digits without hyphens.
#[verifier::external_body]
pub(crate) fn random_session_id() -> (r: String)
    ensures
        r@.len() == 32,
        all_lower_hex(r@),
{
    uuid::Uuid::new_v4().simple().to_string()
}

/// Relies on chrono's `Utc::now().timestamp()`: the current time in whole
/// seconds since the Unix epoch. Nothing is known of its value.
#[verifier::external_body]
pub(crate) fn now_unix_seconds() -> (r: i64) {
    chrono::Utc::now().timestamp()
}

} // verus!
