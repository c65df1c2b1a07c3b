//! Wall-clock timestamps.
use vstd::prelude::*;

verus! {

/// Relies on chrono's `Utc::now` and `DateTime::timestamp`: the current
/// time in whole seconds since the Unix epoch. Nothing is promised of the
/// value.
#[verifier::external_body]
fn utc_now_timestamp() -> (r: i64) {
    chrono::Utc::now().timestamp()
}

/// `now + elapsed`, or the largest timestamp where that does not fit.
pub open spec fn later(now: i64, elapsed: u32) -> i64 {
    if now + elapsed > i64::MAX {
        i64::MAX
    } else {
        (now + elapsed) as i64
    }
}

/// The timestamp `elapsed` seconds after `now`.
pub fn timestamp_after(now: i64, elapsed: u32) -> (r: i64)
    ensures
        r == later(now, elapsed),
{
    let e = elapsed as i64;
    if now > i64::MAX - e {
        i64::MAX
    } else {
        now + e
    }
}

/// The timestamp `elapsed` seconds from now.
pub fn datetime_to_timestamp(elapsed: u32) -> (r: i64)
    ensures
        exists|now: i64| r == later(now, elapsed),
{
    let now = utc_now_timestamp();
    timestamp_after(now, elapsed)
}

} // verus!
