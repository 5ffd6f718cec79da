//! Instants and durations on the nanosecond wall clock and on the 90 kHz
//! codec clock.

use vstd::prelude::*;
use vstd::std_specs::convert::FromSpec;
use vstd::arithmetic::div_mod::lemma_fundamental_div_mod_converse;

use crate::foreign::{
    calendar_datetime, datetime_from_timestamp, std_duration_from_nanos, std_duration_of,
};
use crate::rescale::{
    h264_ticks_to_nanos, lemma_rescale_fits, nano_to_timescale, nanos_to_ticks, ticks_to_nanos,
};
use crate::units::{
    div_trunc, is_i64, lemma_div_trunc_cases, lemma_div_trunc_fits, lemma_rem_trunc_cases,
    rem_trunc, H264_SECOND, H264_TIMESCALE, HOUR, MILLISECOND, MINUTE, SECOND,
};

verus! {

/// What the calendar makes of the instant `nanos` nanoseconds after the
/// epoch, split into whole seconds rounded down and a nanosecond part in
/// `[0, SECOND)`.
pub open spec fn calendar_of_nanos(nanos: int) -> Option<chrono::NaiveDateTime> {
    calendar_datetime((nanos / SECOND as int) as i64, (nanos % SECOND as int) as u32)
}

/// Places the instant `nanos` nanoseconds after the epoch on the calendar;
/// every `i64` instant lies well inside its range.
fn calendar_of(nanos: i64) -> (r: Option<chrono::NaiveDateTime>)
    ensures
        r == calendar_of_nanos(nanos as int),
        r.is_some(),
{
    let mut sec = nanos / SECOND;
    let mut nanosec = nanos % SECOND;
    if nanosec < 0 {
        sec = sec - 1;
        nanosec = nanosec + SECOND;
    }
    proof {
        let n = nanos as int;
        let d = SECOND as int;
        assert(n == d * sec + nanosec);
        assert(0 <= nanosec < d);
        lemma_fundamental_div_mod_converse(n, d, sec as int, nanosec as int);
        assert(-10_000_000_000 <= sec <= 10_000_000_000);
    }
    datetime_from_timestamp(sec, nanosec as u32)
}

/// An instant, as nanoseconds since the Unix epoch.
#[derive(Clone, Copy, Debug, PartialEq, Eq, Structural)]
pub struct UnixNano(i64);

impl View for UnixNano {
    type V = int;

    closed spec fn view(&self) -> int {
        self.0 as int
    }
}

impl UnixNano {
    /// The latest instant, for values that never expire.
    pub fn max_value() -> (r: Self)
        ensures
            r@ == i64::MAX,
    {
        UnixNano(i64::MAX)
    }

    /// The instant that a clock reading of `nanos` nanoseconds since the
    /// epoch stands for, if an `i64` holds it.
    pub fn from_epoch_nanos(nanos: u128) -> (r: Option<Self>)
        ensures
            match r {
                Some(t) => nanos <= i64::MAX && t@ == nanos,
                None => nanos > i64::MAX,
            },
    {
        match i64::try_from(nanos) {
            Ok(v) => Some(UnixNano(v)),
            Err(_) => None,
        }
    }

    /// `self + duration`, or `None` where an `i64` cannot hold it.
    pub fn add_duration(&self, duration: Duration) -> (r: Option<Self>)
        ensures
            match r {
                Some(t) => is_i64(self@ + duration@) && t@ == self@ + duration@,
                None => !is_i64(self@ + duration@),
            },
    {
        match self.0.checked_add(duration.0) {
            Some(v) => Some(UnixNano(v)),
            None => None,
        }
    }

    /// `self - duration`, or `None` where an `i64` cannot hold it.
    pub fn sub_duration(&self, duration: Duration) -> (r: Option<Self>)
        ensures
            match r {
                Some(t) => is_i64(self@ - duration@) && t@ == self@ - duration@,
                None => !is_i64(self@ - duration@),
            },
    {
        match self.0.checked_sub(duration.0) {
            Some(v) => Some(UnixNano(v)),
            None => None,
        }
    }

    /// Reports whether the instant `self` is after `other`.
    pub fn after(&self, other: Self) -> (r: bool)
        ensures
            r == (self@ > other@),
    {
        self.0 > other.0
    }

    /// Reports whether the instant `self` is before `other`.
    pub fn before(&self, other: Self) -> (r: bool)
        ensures
            r == (self@ < other@),
    {
        self.0 < other.0
    }

    /// The duration `self - u`, or `None` where an `i64` cannot hold it.
    pub fn sub(&self, u: Self) -> (r: Option<Duration>)
        ensures
            match r {
                Some(d) => is_i64(self@ - u@) && d@ == self@ - u@,
                None => !is_i64(self@ - u@),
            },
    {
        match self.0.checked_sub(u.0) {
            Some(v) => Some(Duration(v)),
            None => None,
        }
    }

    /// The instant on the calendar, which holds every `i64` instant.
    pub fn as_chrono(&self) -> (r: Option<chrono::NaiveDateTime>)
        ensures
            r == calendar_of_nanos(self@),
            r.is_some(),
    {
        calendar_of(self.0)
    }
}

impl From<i64> for UnixNano {
    fn from(v: i64) -> (r: Self) {
        UnixNano(v)
    }
}

impl vstd::std_specs::convert::FromSpecImpl<i64> for UnixNano {
    open spec fn obeys_from_spec() -> bool {
        true
    }

    closed spec fn from_spec(v: i64) -> Self {
        UnixNano(v)
    }
}

impl core::ops::Deref for UnixNano {
    type Target = i64;

    fn deref(&self) -> (r: &i64)
        ensures
            *r == self@,
    {
        &self.0
    }
}

/// A signed span of wall-clock time, in nanoseconds.
#[derive(Clone, Copy, Debug, Default, PartialEq, Eq, Structural)]
pub struct Duration(i64);

impl View for Duration {
    type V = int;

    closed spec fn view(&self) -> int {
        self.0 as int
    }
}

impl Duration {
    pub fn from_nanos(nanos: i64) -> (r: Self)
        ensures
            r@ == nanos,
    {
        Duration(nanos)
    }

    pub fn from_millis(millis: u32) -> (r: Self)
        ensures
            r@ == millis * MILLISECOND,
    {
        Duration((millis as i64) * MILLISECOND)
    }

    pub fn from_secs(secs: u32) -> (r: Self)
        ensures
            r@ == secs * SECOND,
    {
        Duration((secs as i64) * SECOND)
    }

    /// Minutes as nanoseconds; an `i64` holds up to about 292 years.
    pub fn from_minutes(minutes: u32) -> (r: Self)
        requires
            minutes * MINUTE <= i64::MAX,
        ensures
            r@ == minutes * MINUTE,
    {
        Duration((minutes as i64) * MINUTE)
    }

    /// Hours as nanoseconds; an `i64` holds up to about 292 years.
    pub fn from_hours(hours: u32) -> (r: Self)
        requires
            hours * HOUR <= i64::MAX,
        ensures
            r@ == hours * HOUR,
    {
        Duration((hours as i64) * HOUR)
    }

    /// The same span as a `std::time::Duration`, which cannot be negative.
    pub fn as_std(&self) -> (r: Option<core::time::Duration>)
        ensures
            match r {
                Some(d) => self@ >= 0 && d == std_duration_of(self@ as u64),
                None => self@ < 0,
            },
    {
        match u64::try_from(self.0) {
            Ok(n) => Some(std_duration_from_nanos(n)),
            Err(_) => None,
        }
    }

    /// The span in codec clock ticks, rounded toward zero.
    pub fn as_h264(&self) -> (r: DurationH264)
        ensures
            r@ == nanos_to_ticks(self@),
    {
        proof {
            lemma_rescale_fits(self.0, H264_SECOND as int);
        }
        DurationH264::from(nano_to_timescale(self.0, (H264_TIMESCALE as i64)))
    }

    /// The span from the instant `now` until `time`, or `None` where an `i64`
    /// cannot hold it.
    pub fn until(time: UnixNano, now: UnixNano) -> (r: Option<Self>)
        ensures
            match r {
                Some(d) => is_i64(time@ - now@) && d@ == time@ - now@,
                None => !is_i64(time@ - now@),
            },
    {
        time.sub(now)
    }
}

impl From<i64> for Duration {
    fn from(v: i64) -> (r: Self) {
        Duration(v)
    }
}

impl vstd::std_specs::convert::FromSpecImpl<i64> for Duration {
    open spec fn obeys_from_spec() -> bool {
        true
    }

    closed spec fn from_spec(v: i64) -> Self {
        Duration(v)
    }
}

impl core::ops::Deref for Duration {
    type Target = i64;

    fn deref(&self) -> (r: &i64)
        ensures
            *r == self@,
    {
        &self.0
    }
}

/// An instant, as 90 kHz codec clock ticks since the Unix epoch.
#[derive(Clone, Copy, Debug, Default, PartialEq, Eq, Structural)]
pub struct UnixH264(i64);

impl View for UnixH264 {
    type V = int;

    closed spec fn view(&self) -> int {
        self.0 as int
    }
}

impl UnixH264 {
    /// The instant that a clock reading of `nanos` nanoseconds since the
    /// epoch stands for, in codec clock ticks rounded toward zero, if an
    /// `i64` holds the reading.
    pub fn from_epoch_nanos(nanos: u128) -> (r: Option<Self>)
        ensures
            match r {
                Some(t) => nanos <= i64::MAX && t@ == nanos_to_ticks(nanos as int),
                None => nanos > i64::MAX,
            },
    {
        match i64::try_from(nanos) {
            Ok(v) => {
                proof {
                    lemma_rescale_fits(v, H264_SECOND as int);
                }
                Some(UnixH264(nano_to_timescale(v, H264_TIMESCALE as i64)))
            },
            Err(_) => None,
        }
    }

    /// `self + duration`, or `None` where an `i64` cannot hold it.
    pub fn checked_add_duration(&self, duration: DurationH264) -> (r: Option<Self>)
        ensures
            match r {
                Some(t) => is_i64(self@ + duration@) && t@ == self@ + duration@,
                None => !is_i64(self@ + duration@),
            },
    {
        match self.0.checked_add(duration.0) {
            Some(v) => Some(UnixH264(v)),
            None => None,
        }
    }

    /// `self - duration`, or `None` where an `i64` cannot hold it.
    pub fn checked_sub_duration(&self, duration: DurationH264) -> (r: Option<Self>)
        ensures
            match r {
                Some(t) => is_i64(self@ - duration@) && t@ == self@ - duration@,
                None => !is_i64(self@ - duration@),
            },
    {
        match self.0.checked_sub(duration.0) {
            Some(v) => Some(UnixH264(v)),
            None => None,
        }
    }

    /// The tick difference `self - other`, kept in this type, or `None`
    /// where an `i64` cannot hold it.
    pub fn checked_sub(&self, other: Self) -> (r: Option<Self>)
        ensures
            match r {
                Some(t) => is_i64(self@ - other@) && t@ == self@ - other@,
                None => !is_i64(self@ - other@),
            },
    {
        match self.0.checked_sub(other.0) {
            Some(v) => Some(UnixH264(v)),
            None => None,
        }
    }

    /// The instant in nanoseconds since the epoch, rounded toward zero.
    pub fn as_nanos(&self) -> (r: UnixNano)
        requires
            is_i64(ticks_to_nanos(self@)),
        ensures
            r@ == ticks_to_nanos(self@),
    {
        UnixNano(h264_ticks_to_nanos(self.0))
    }

    /// Reports whether the instant `self` is after `other`.
    pub fn after(&self, other: Self) -> (r: bool)
        ensures
            r == (self@ > other@),
    {
        self.0 > other.0
    }

    /// The instant on the calendar, by way of its nanosecond count.
    pub fn as_chrono(&self) -> (r: Option<chrono::NaiveDateTime>)
        requires
            is_i64(ticks_to_nanos(self@)),
        ensures
            r == calendar_of_nanos(ticks_to_nanos(self@)),
            r.is_some(),
    {
        let nanos = *self.as_nanos();
        calendar_of(nanos)
    }
}

impl From<i64> for UnixH264 {
    fn from(v: i64) -> (r: Self) {
        UnixH264(v)
    }
}

impl vstd::std_specs::convert::FromSpecImpl<i64> for UnixH264 {
    open spec fn obeys_from_spec() -> bool {
        true
    }

    closed spec fn from_spec(v: i64) -> Self {
        UnixH264(v)
    }
}

impl core::ops::Deref for UnixH264 {
    type Target = i64;

    fn deref(&self) -> (r: &i64)
        ensures
            *r == self@,
    {
        &self.0
    }
}

/// A signed span of codec clock time, in 90 kHz ticks.
#[derive(Clone, Copy, Debug, Default, Hash, PartialEq, Eq, PartialOrd, Ord, Structural)]
pub struct DurationH264(i64);

impl View for DurationH264 {
    type V = int;

    closed spec fn view(&self) -> int {
        self.0 as int
    }
}

impl DurationH264 {
    pub fn new(v: i64) -> (r: Self)
        ensures
            r@ == v,
    {
        DurationH264(v)
    }

    pub fn is_zero(&self) -> (r: bool)
        ensures
            r == (self@ == 0),
    {
        self.0 == 0
    }

    /// `self + rhs`, or `None` where an `i64` cannot hold it.
    pub fn checked_add(&self, rhs: Self) -> (r: Option<Self>)
        ensures
            match r {
                Some(t) => is_i64(self@ + rhs@) && t@ == self@ + rhs@,
                None => !is_i64(self@ + rhs@),
            },
    {
        match self.0.checked_add(rhs.0) {
            Some(v) => Some(DurationH264(v)),
            None => None,
        }
    }

    /// `self - rhs`, or `None` where an `i64` cannot hold it.
    pub fn checked_sub(&self, rhs: Self) -> (r: Option<Self>)
        ensures
            match r {
                Some(t) => is_i64(self@ - rhs@) && t@ == self@ - rhs@,
                None => !is_i64(self@ - rhs@),
            },
    {
        match self.0.checked_sub(rhs.0) {
            Some(v) => Some(DurationH264(v)),
            None => None,
        }
    }

    /// `self * rhs`, or `None` where an `i64` cannot hold it.
    pub fn checked_mul(&self, rhs: Self) -> (r: Option<Self>)
        ensures
            match r {
                Some(t) => is_i64(self@ * rhs@) && t@ == self@ * rhs@,
                None => !is_i64(self@ * rhs@),
            },
    {
        match self.0.checked_mul(rhs.0) {
            Some(v) => Some(DurationH264(v)),
            None => None,
        }
    }

    /// `self / rhs` rounded toward zero, or `None` where `rhs` is zero or an
    /// `i64` cannot hold the quotient.
    pub fn checked_div(&self, rhs: Self) -> (r: Option<Self>)
        ensures
            match r {
                Some(t) => rhs@ != 0 && !(self@ == i64::MIN && rhs@ == -1) && t@ == div_trunc(
                    self@,
                    rhs@,
                ),
                None => rhs@ == 0 || (self@ == i64::MIN && rhs@ == -1),
            },
    {
        proof {
            if rhs@ != 0 {
                lemma_div_trunc_cases(self@, rhs@);
                if !(self.0 == i64::MIN && rhs.0 == -1) {
                    lemma_div_trunc_fits(self.0, rhs.0);
                }
            }
        }
        match self.0.checked_div(rhs.0) {
            Some(v) => Some(DurationH264(v)),
            None => None,
        }
    }

    /// The remainder of `self / rhs`, with the sign of `self`, or `None`
    /// where `rhs` is zero or the quotient overflows.
    pub fn checked_rem(&self, rhs: Self) -> (r: Option<Self>)
        ensures
            match r {
                Some(t) => rhs@ != 0 && !(self@ == i64::MIN && rhs@ == -1) && t@ == rem_trunc(
                    self@,
                    rhs@,
                ),
                None => rhs@ == 0 || (self@ == i64::MIN && rhs@ == -1),
            },
    {
        proof {
            if rhs@ != 0 {
                lemma_rem_trunc_cases(self@, rhs@);
            }
        }
        match self.0.checked_rem(rhs.0) {
            Some(v) => Some(DurationH264(v)),
            None => None,
        }
    }

    /// The tick count as an `i32`, where it fits.
    pub fn as_i32(&self) -> (r: Result<i32, core::num::TryFromIntError>)
        ensures
            match r {
                Ok(v) => v == self@,
                Err(_) => !(i32::MIN <= self@ <= i32::MAX),
            },
    {
        i32::try_from(self.0)
    }

    /// The tick count as a `u32`, where it fits.
    pub fn as_u32(&self) -> (r: Result<u32, core::num::TryFromIntError>)
        ensures
            match r {
                Ok(v) => v == self@,
                Err(_) => !(0 <= self@ <= u32::MAX),
            },
    {
        u32::try_from(self.0)
    }

    /// The span in whole milliseconds, rounded toward zero.
    pub fn as_millis(&self) -> (r: i64)
        requires
            is_i64(ticks_to_nanos(self@)),
        ensures
            r == div_trunc(ticks_to_nanos(self@), MILLISECOND as int),
    {
        self.as_nanos() / MILLISECOND
    }

    /// The span in nanoseconds, rounded toward zero.
    pub fn as_nanos(&self) -> (r: i64)
        requires
            is_i64(ticks_to_nanos(self@)),
        ensures
            r == ticks_to_nanos(self@),
    {
        h264_ticks_to_nanos(self.0)
    }
}

impl From<i32> for DurationH264 {
    fn from(v: i32) -> (r: Self) {
        DurationH264(v as i64)
    }
}

impl vstd::std_specs::convert::FromSpecImpl<i32> for DurationH264 {
    open spec fn obeys_from_spec() -> bool {
        true
    }

    closed spec fn from_spec(v: i32) -> Self {
        DurationH264(v as i64)
    }
}

impl From<u32> for DurationH264 {
    fn from(v: u32) -> (r: Self) {
        DurationH264(v as i64)
    }
}

impl vstd::std_specs::convert::FromSpecImpl<u32> for DurationH264 {
    open spec fn obeys_from_spec() -> bool {
        true
    }

    closed spec fn from_spec(v: u32) -> Self {
        DurationH264(v as i64)
    }
}

impl From<UnixH264> for DurationH264 {
    fn from(time: UnixH264) -> (r: Self) {
        DurationH264(time.0)
    }
}

impl vstd::std_specs::convert::FromSpecImpl<UnixH264> for DurationH264 {
    open spec fn obeys_from_spec() -> bool {
        true
    }

    closed spec fn from_spec(time: UnixH264) -> Self {
        DurationH264(time.0)
    }
}

impl core::ops::Deref for DurationH264 {
    type Target = i64;

    fn deref(&self) -> (r: &i64)
        ensures
            *r == self@,
    {
        &self.0
    }
}

impl From<i64> for DurationH264 {
    fn from(v: i64) -> (r: Self) {
        DurationH264(v)
    }
}

impl vstd::std_specs::convert::FromSpecImpl<i64> for DurationH264 {
    open spec fn obeys_from_spec() -> bool {
        true
    }

    closed spec fn from_spec(v: i64) -> Self {
        DurationH264(v)
    }
}

/// On wall-clock instants, `after` and `before` are strict orders: neither
/// holds of an instant and itself, each is the other with its operands
/// swapped, both are transitive, and `a` is after `b` exactly when the
/// difference `a - b` is positive.
pub proof fn lemma_order_consistent(a: UnixNano, b: UnixNano, c: UnixNano)
    ensures
        !(a@ > a@) && !(a@ < a@),
        (a@ > b@) == (b@ < a@),
        (a@ > b@) ==> !(b@ > a@),
        (a@ > b@) && (b@ > c@) ==> (a@ > c@),
        (a@ < b@) && (b@ < c@) ==> (a@ < c@),
        (a@ > b@) <==> (a@ - b@ > 0),
        (a@ < b@) <==> (a@ - b@ < 0),
{
}

/// On codec instants, `after` is a strict order, and `a` is after `b`
/// exactly when the difference `a - b` is positive.
pub proof fn lemma_h264_order_consistent(a: UnixH264, b: UnixH264, c: UnixH264)
    ensures
        !(a@ > a@),
        (a@ > b@) ==> !(b@ > a@),
        (a@ > b@) && (b@ > c@) ==> (a@ > c@),
        (a@ > b@) <==> (a@ - b@ > 0),
{
}


/// `UnixNano::from(v)` is the instant `v` nanoseconds after the epoch, and
/// two instants are equal exactly when their nanosecond counts are.
pub proof fn lemma_unix_nano_from(v: i64, a: UnixNano, b: UnixNano)
    ensures
        <UnixNano as FromSpec<i64>>::from_spec(v)@ == v,
        (a@ == b@) == (a == b),
        is_i64(a@),
{
}

/// `Duration::from(v)` is the span of `v` nanoseconds, and two spans are
/// equal exactly when their nanosecond counts are.
pub proof fn lemma_duration_from(v: i64, a: Duration, b: Duration)
    ensures
        <Duration as FromSpec<i64>>::from_spec(v)@ == v,
        (a@ == b@) == (a == b),
        is_i64(a@),
{
}

/// `UnixH264::from(v)` is the instant `v` ticks after the epoch, and two
/// instants are equal exactly when their tick counts are.
pub proof fn lemma_unix_h264_from(v: i64, a: UnixH264, b: UnixH264)
    ensures
        <UnixH264 as FromSpec<i64>>::from_spec(v)@ == v,
        (a@ == b@) == (a == b),
        is_i64(a@),
{
}

/// Each `DurationH264::from` keeps the tick count it is given, so that
/// `DurationH264::from(v)` equals `DurationH264::new(v)`, and two spans are
/// equal exactly when their tick counts are.
pub proof fn lemma_duration_h264_from(v: i64, w: i32, u: u32, time: UnixH264, a: DurationH264, b: DurationH264)
    ensures
        <DurationH264 as FromSpec<i64>>::from_spec(v)@ == v,
        <DurationH264 as FromSpec<i32>>::from_spec(w)@ == w,
        <DurationH264 as FromSpec<u32>>::from_spec(u)@ == u,
        <DurationH264 as FromSpec<UnixH264>>::from_spec(time)@ == time@,
        (a@ == b@) == (a == b),
        is_i64(a@),
{
}

} // verus!
