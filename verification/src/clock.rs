//! The evaluation time.
//!
//! The role classifier compares a last-used timestamp against "now". The
//! clock is read here, once, and everything downstream takes the timestamp
//! as a plain value, so the decision logic is verified for every reading.

use vstd::prelude::*;

verus! {

/// Relies on time::OffsetDateTime::now_utc and unix_timestamp_nanos: the
/// current UTC wall-clock time as nanoseconds since the Unix epoch. The
/// value depends on the clock alone; nothing is assumed of it.
#[verifier::external_body]
fn now_unix_nanos() -> i128 {
    time::OffsetDateTime::now_utc().unix_timestamp_nanos()
}

/// `n` clamped to the range of `i64`.
pub open spec fn spec_saturate_to_i64(n: int) -> int {
    if n < i64::MIN as int {
        i64::MIN as int
    } else if n > i64::MAX as int {
        i64::MAX as int
    } else {
        n
    }
}

/// Narrows a nanosecond timestamp to `i64`, saturating at the ends of the
/// range.
pub fn saturate_to_i64(n: i128) -> (r: i64)
    ensures
        r as int == spec_saturate_to_i64(n as int),
{
    if n < i64::MIN as i128 {
        i64::MIN
    } else if n > i64::MAX as i128 {
        i64::MAX
    } else {
        n as i64
    }
}

/// The current UTC time as epoch nanoseconds, narrowed to `i64`. The value
/// depends on the wall clock: nothing further is promised of it.
pub fn current_time_nanos() -> i64 {
    saturate_to_i64(now_unix_nanos())
}

} // verus!
