//! Reading the clocks of the machine.

use vstd::prelude::*;

verus! {

/// A reading of the monotonic clock.
#[verifier::external_type_specification]
#[verifier::external_body]
pub struct ExInstant(std::time::Instant);

/// A reading of the wall clock.
#[verifier::external_type_specification]
#[verifier::external_body]
pub struct ExSystemTime(std::time::SystemTime);

/// `std::time::Instant::now`: the present moment. Nothing is claimed of it.
#[verifier::external_body]
fn instant_now() -> (t: std::time::Instant) {
    std::time::Instant::now()
}

/// `std::time::Instant::elapsed`, in nanoseconds: the time since `t`. Nothing
/// is claimed of how much that is.
#[verifier::external_body]
fn elapsed_nanos(t: &std::time::Instant) -> (n: u128) {
    t.elapsed().as_nanos()
}

/// `std::time::SystemTime::now`: the present wall-clock time. Nothing is
/// claimed of it.
#[verifier::external_body]
fn system_now() -> (t: std::time::SystemTime) {
    std::time::SystemTime::now()
}

/// `std::time::SystemTime::duration_since` the Unix epoch, in whole seconds;
/// none for a time before the epoch. Nothing is claimed of the number.
#[verifier::external_body]
fn secs_since_epoch(t: std::time::SystemTime) -> (s: Option<u64>) {
    t.duration_since(std::time::UNIX_EPOCH).ok().map(|d| d.as_secs())
}

/// Whether `t` may be what the monotonic clock reads.
pub closed spec fn may_be_now(t: std::time::Instant) -> bool {
    call_ensures(instant_now, (), t)
}

/// Whether `n` nanoseconds may have gone by since `t`.
pub closed spec fn may_have_elapsed(t: std::time::Instant, n: u128) -> bool {
    call_ensures(elapsed_nanos, (&t,), n)
}

/// Whether `secs` may be what the wall clock reads, in whole seconds since the
/// Unix epoch.
pub closed spec fn may_be_unix_time(secs: Option<u64>) -> bool {
    exists|t: std::time::SystemTime|
        call_ensures(system_now, (), t) && #[trigger] call_ensures(secs_since_epoch, (t,), secs)
}

/// The present moment.
pub(crate) fn now() -> (t: std::time::Instant)
    ensures
        may_be_now(t),
{
    let read = instant_now;
    read()
}

/// The nanoseconds since `t`.
pub(crate) fn elapsed(t: &std::time::Instant) -> (n: u128)
    ensures
        may_have_elapsed(*t, n),
{
    let read = elapsed_nanos;
    read(t)
}

/// The seconds of a clock reading as a signed timestamp: 0 for a clock that is
/// set before the epoch, wrapping for one beyond the range.
pub open spec fn timestamp_spec(secs: Option<u64>) -> i64 {
    match secs {
        Some(s) => s as i64,
        None => 0,
    }
}

pub fn timestamp(secs: Option<u64>) -> (t: i64)
    ensures
        t == timestamp_spec(secs),
        secs matches Some(s) ==> s <= i64::MAX ==> t == s,
{
    match secs {
        Some(s) => s as i64,
        None => 0,
    }
}

/// Seconds since the Unix epoch, or 0 if the clock is set before it: the
/// [`timestamp`] of what the wall clock reads.
pub fn now_unix() -> (t: i64)
    ensures
        exists|secs: Option<u64>| #[trigger]
            may_be_unix_time(secs) && t == timestamp_spec(secs),
{
    let (read, count) = (system_now, secs_since_epoch);
    let t = read();
    let secs: Option<u64> = count(t);
    assert(may_be_unix_time(secs));
    timestamp(secs)
}

} // verus!
