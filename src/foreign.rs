//! What this library takes from chrono and from `std::time`.

use vstd::prelude::*;

verus! {

/// chrono's calendar date and time, carried through unopened.
#[verifier::external_type_specification]
#[verifier::external_body]
pub struct ExNaiveDateTime(chrono::NaiveDateTime);

/// Seconds on either side of the Unix epoch within which chrono can place
/// every second on the calendar: about 253,000 years, inside its range of
/// about 262,000 years on either side of the common era.
pub const CALENDAR_SECONDS_BOUND: i64 = 8_000_000_000_000;

/// The calendar date and time that chrono builds from whole seconds since
/// the epoch and a nanosecond part.
pub uninterp spec fn calendar_datetime(secs: i64, nsecs: u32) -> Option<chrono::NaiveDateTime>;

/// Relies on chrono's `NaiveDateTime::from_timestamp_opt`, which depends on
/// its arguments alone: it returns `None` for a nanosecond part of two
/// seconds or more, and a value for any nanosecond part under one second
/// together with seconds within `CALENDAR_SECONDS_BOUND` of the epoch.
#[verifier::external_body]
#[allow(deprecated)]
pub(crate) fn datetime_from_timestamp(secs: i64, nsecs: u32) -> (r: Option<chrono::NaiveDateTime>)
    ensures
        r == calendar_datetime(secs, nsecs),
        nsecs >= 2_000_000_000 ==> r.is_none(),
        nsecs < 1_000_000_000 && -CALENDAR_SECONDS_BOUND <= secs <= CALENDAR_SECONDS_BOUND
            ==> r.is_some(),
{
    chrono::NaiveDateTime::from_timestamp_opt(secs, nsecs)
}

/// The `std::time::Duration` of `nanos` nanoseconds.
pub uninterp spec fn std_duration_of(nanos: u64) -> core::time::Duration;

/// Relies on `std::time::Duration::from_nanos`, which builds a duration from
/// a nanosecond count and depends on that count alone.
#[verifier::external_body]
pub(crate) fn std_duration_from_nanos(nanos: u64) -> (r: core::time::Duration)
    ensures
        r == std_duration_of(nanos),
{
    core::time::Duration::from_nanos(nanos)
}

} // verus!
