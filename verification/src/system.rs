//! What the library reads from the machine: random numbers and the clock.
use vstd::prelude::*;

verus! {

/// `rand_core::OsRng::next_u64`: a random number from the operating system.
/// Nothing is claimed of its value.
#[verifier::external_body]
pub(crate) fn random_u64() -> u64 {
    rand_core::RngCore::next_u64(&mut rand_core::OsRng)
}

/// `chrono::Utc::now().timestamp_nanos()`: the current time in nanoseconds
/// since the unix epoch. Nothing is claimed of its value.
#[verifier::external_body]
pub(crate) fn now_nanos() -> u64 {
    chrono::Utc::now().timestamp_nanos() as u64
}

} // verus!
