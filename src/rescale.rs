//! Conversion of a nanosecond count into another fixed-rate clock.
//!
//! A count is split into whole seconds and a sub-second remainder before it
//! is scaled, so that no intermediate product grows past the scaled result.

use vstd::prelude::*;
use vstd::arithmetic::div_mod::{lemma_fundamental_div_mod, lemma_hoist_over_denominator};

use crate::units::{div_trunc, is_i64, magnitude, rem_trunc, H264_SECOND, SECOND};

verus! {

/// `value` nanoseconds expressed in a clock of `timescale` ticks per second,
/// rounded toward zero.
pub open spec fn rescaled(value: int, timescale: int) -> int {
    div_trunc(value * timescale, SECOND as int)
}

/// Whether every product that `nano_to_timescale` forms, and its result, fit
/// in an `i64`.
pub open spec fn rescale_fits(value: int, timescale: int) -> bool {
    &&& is_i64(div_trunc(value, SECOND as int) * timescale)
    &&& is_i64(rem_trunc(value, SECOND as int) * timescale)
    &&& is_i64(rescaled(value, timescale))
}

/// A nanosecond count in codec clock ticks, rounded toward zero.
pub open spec fn nanos_to_ticks(nanos: int) -> int {
    rescaled(nanos, H264_SECOND as int)
}

/// A count of codec clock ticks in nanoseconds, rounded toward zero.
pub open spec fn ticks_to_nanos(ticks: int) -> int {
    div_trunc(ticks * SECOND, H264_SECOND as int)
}

/// Scaling a non-negative count splits over its quotient and remainder.
proof fn lemma_split_scale_nonneg(a: int, n: int, t: int)
    requires
        a >= 0,
        n > 0,
        t > 0,
    ensures
        (a * t) / n == (a / n) * t + ((a % n) * t) / n,
        0 <= (a / n) * t,
        0 <= ((a % n) * t) / n,
        0 <= a % n < n,
{
    lemma_fundamental_div_mod(a, n);
    let q = a / n;
    let r = a % n;
    assert(0 <= q * t) by (nonlinear_arith)
        requires
            q >= 0,
            t > 0,
    ;
    assert(0 <= r * t) by (nonlinear_arith)
        requires
            r >= 0,
            t > 0,
    ;
    assert(a * t == r * t + (q * t) * n) by (nonlinear_arith)
        requires
            a == n * q + r,
    ;
    lemma_hoist_over_denominator(r * t, q * t, n as nat);
}

/// Scaling a signed count splits over its truncated quotient and remainder,
/// and both parts have the sign of the count.
pub proof fn lemma_split_scale(a: int, n: int, t: int)
    requires
        n > 0,
        t > 0,
    ensures
        div_trunc(a * t, n) == div_trunc(a, n) * t + div_trunc(rem_trunc(a, n) * t, n),
        a >= 0 ==> div_trunc(a, n) * t >= 0 && div_trunc(rem_trunc(a, n) * t, n) >= 0,
        a < 0 ==> div_trunc(a, n) * t <= 0 && div_trunc(rem_trunc(a, n) * t, n) <= 0,
        magnitude(rem_trunc(a, n)) < n,
{
    if a >= 0 {
        assert(a * t >= 0) by (nonlinear_arith)
            requires
                a >= 0,
                t > 0,
        ;
        lemma_split_scale_nonneg(a, n, t);
    } else {
        let m = -a;
        lemma_split_scale_nonneg(m, n, t);
        assert(a * t == -(m * t)) by (nonlinear_arith)
            requires
                m == -a,
        ;
        assert(m * t > 0) by (nonlinear_arith)
            requires
                m > 0,
                t > 0,
        ;
        let r = m % n;
        assert(rem_trunc(a, n) * t == -(r * t)) by (nonlinear_arith)
            requires
                rem_trunc(a, n) == -r,
        ;
        assert((m / n) * t == -((-(m / n)) * t)) by (nonlinear_arith);
    }
}

/// Converts `value` nanoseconds into a clock of `timescale` ticks per
/// second, rounding toward zero.
pub fn nano_to_timescale(value: i64, timescale: i64) -> (r: i64)
    requires
        timescale > 0,
        rescale_fits(value as int, timescale as int),
    ensures
        r == rescaled(value as int, timescale as int),
{
    let secs = value / SECOND;
    let dec = value % SECOND;
    proof {
        lemma_split_scale(value as int, SECOND as int, timescale as int);
    }
    (secs * timescale) + (dec * timescale / SECOND)
}

/// Converts a count of codec clock ticks into nanoseconds, rounding toward
/// zero: the whole seconds and the remaining ticks are scaled apart.
pub(crate) fn h264_ticks_to_nanos(ticks: i64) -> (r: i64)
    requires
        is_i64(ticks_to_nanos(ticks as int)),
    ensures
        r == ticks_to_nanos(ticks as int),
{
    let clock_rate = H264_SECOND;
    let secs = ticks / clock_rate;
    let dec = ticks % clock_rate;
    proof {
        lemma_split_scale(ticks as int, H264_SECOND as int, SECOND as int);
        assert(-90000 < dec < 90000);
        assert(-90000 * 1_000_000_000 < dec * SECOND < 90000 * 1_000_000_000) by (nonlinear_arith)
            requires
                -90000 < dec < 90000,
        ;
    }
    (secs * SECOND) + ((dec * SECOND) / clock_rate)
}

/// Any `i64` nanosecond count converts into a clock of at most one tick per
/// nanosecond without overflow.
pub proof fn lemma_rescale_fits(value: i64, timescale: int)
    requires
        0 < timescale <= SECOND,
    ensures
        rescale_fits(value as int, timescale),
{
    let v = value as int;
    let n = SECOND as int;
    let m = magnitude(v);
    lemma_split_scale(v, n, timescale);
    lemma_fundamental_div_mod(m, n);
    let q = m / n;
    let r = m % n;
    assert(0 <= q * timescale <= q * n) by (nonlinear_arith)
        requires
            q >= 0,
            0 < timescale <= n,
    ;
    assert(0 <= r * timescale <= r * n) by (nonlinear_arith)
        requires
            0 <= r,
            0 < timescale <= n,
    ;
    assert(r * n < n * n) by (nonlinear_arith)
        requires
            0 <= r < n,
    ;
    assert((r * timescale) / n <= r) by {
        lemma_fundamental_div_mod(r * timescale, n);
    }
    assert(q * n == n * q) by (nonlinear_arith);
    assert(m == q * n + r);
    if v >= 0 {
        assert(div_trunc(v, n) == q);
        assert(rem_trunc(v, n) == r);
        assert(div_trunc(r * timescale, n) == (r * timescale) / n);
    } else {
        assert(div_trunc(v, n) == -q);
        assert(rem_trunc(v, n) == -r);
        assert((-q) * timescale == -(q * timescale)) by (nonlinear_arith);
        assert((-r) * timescale == -(r * timescale)) by (nonlinear_arith);
        assert(div_trunc(-(r * timescale), n) == -((r * timescale) / n));
    }
}

/// The round trip through codec ticks of a non-negative nanosecond count.
proof fn lemma_round_trip_nonneg(v: int)
    requires
        v >= 0,
    ensures
        0 <= v - ticks_to_nanos(nanos_to_ticks(v)),
        (v - ticks_to_nanos(nanos_to_ticks(v))) * H264_SECOND < SECOND,
        rem_trunc(v * H264_SECOND, SECOND as int) == 0 ==> ticks_to_nanos(nanos_to_ticks(v)) == v,
        nanos_to_ticks(v) >= 0,
{
    let t = nanos_to_ticks(v);
    let back = ticks_to_nanos(t);
    lemma_fundamental_div_mod(v * 90000, 1_000_000_000);
    assert(t == (v * 90000) / 1_000_000_000);
    let r1 = (v * 90000) % 1_000_000_000;
    assert(v * 90000 == 1_000_000_000 * t + r1);
    assert(0 <= r1 < 1_000_000_000);
    assert(t >= 0);
    assert(9 * v - 100000 * t <= 99999);
    lemma_fundamental_div_mod(t * 1_000_000_000, 90000);
    assert(back == (t * 1_000_000_000) / 90000);
    let r2 = (t * 1_000_000_000) % 90000;
    assert(t * 1_000_000_000 == 90000 * back + r2);
    assert(0 <= r2 < 90000);
    assert(0 <= v - back <= 11111);
    if rem_trunc(v * H264_SECOND, SECOND as int) == 0 {
        assert(r1 == 0);
        assert(r2 == 0);
    }
}

/// Converting a nanosecond count to codec ticks and back loses less than one
/// tick period, never grows the count's magnitude, and loses nothing when the
/// count is a whole number of tick periods.
pub proof fn lemma_round_trip(nanos: i64)
    ensures
        magnitude(ticks_to_nanos(nanos_to_ticks(nanos as int)) - nanos) * H264_SECOND < SECOND,
        magnitude(ticks_to_nanos(nanos_to_ticks(nanos as int))) <= magnitude(nanos as int),
        rem_trunc(nanos * H264_SECOND, SECOND as int) == 0 ==> ticks_to_nanos(
            nanos_to_ticks(nanos as int),
        ) == nanos,
{
    let v = nanos as int;
    if v >= 0 {
        lemma_round_trip_nonneg(v);
    } else {
        lemma_round_trip_nonneg(-v);
        let t = nanos_to_ticks(-v);
        assert(nanos_to_ticks(v) == -t);
        assert(ticks_to_nanos(-t) == -ticks_to_nanos(t));
    }
}

} // verus!
