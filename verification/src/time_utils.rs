//! Time stamps in nanoseconds since the unix epoch.
use vstd::prelude::*;

verus! {

/// Nanoseconds in a second.
pub const A_BILLY: u64 = 1_000_000_000;

/// A nanosecond time stamp as whole seconds and the nanoseconds past them,
/// the parts from which a calendar date is read.
pub fn timestamp_parts(time_stamp_nano: u64) -> (r: (i64, u32))
    ensures
        r.0 == time_stamp_nano / A_BILLY,
        r.1 == time_stamp_nano % A_BILLY,
        r.0 * A_BILLY + r.1 == time_stamp_nano,
{
    let secs: u64 = time_stamp_nano / A_BILLY;
    let nanos: u64 = time_stamp_nano % A_BILLY;
    assert(secs <= u64::MAX / A_BILLY);
    (secs as i64, nanos as u32)
}

} // verus!
