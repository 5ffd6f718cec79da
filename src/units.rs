//! Unit constants and the integer arithmetic that the contracts are stated in.

use vstd::prelude::*;
use vstd::arithmetic::div_mod::lemma_fundamental_div_mod;

verus! {

pub const NANOSECOND: i64 = 1;

pub const MICROSECOND: i64 = NANOSECOND * 1000;

pub const MILLISECOND: i64 = MICROSECOND * 1000;

pub const SECOND: i64 = MILLISECOND * 1000;

pub const MINUTE: i64 = SECOND * 60;

pub const HOUR: i64 = MINUTE * 60;

/// The number of codec clock ticks that pass per second.
pub const H264_TIMESCALE: u32 = 90000;

pub const H264_SECOND: i64 = H264_TIMESCALE as i64;

pub const H264_MILLISECOND: i64 = (H264_TIMESCALE / 1000) as i64;

/// Whether `x` can be held by an `i64`.
pub open spec fn is_i64(x: int) -> bool {
    i64::MIN <= x <= i64::MAX
}

/// The magnitude of `x`.
pub open spec fn magnitude(x: int) -> int {
    if x < 0 {
        -x
    } else {
        x
    }
}

/// `a / b` rounded toward zero, as Rust's integer division rounds.
pub open spec fn div_trunc(a: int, b: int) -> int {
    if (a < 0) == (b < 0) {
        magnitude(a) / magnitude(b)
    } else {
        -(magnitude(a) / magnitude(b))
    }
}

/// The remainder that goes with `div_trunc`: it has the sign of `a`.
pub open spec fn rem_trunc(a: int, b: int) -> int {
    if a < 0 {
        -(magnitude(a) % magnitude(b))
    } else {
        magnitude(a) % magnitude(b)
    }
}

/// `div_trunc` case by case on the signs of its operands.
pub(crate) proof fn lemma_div_trunc_cases(x: int, d: int)
    requires
        d != 0,
    ensures
        div_trunc(x, d) == (if x == 0 {
            0
        } else if x > 0 && d > 0 {
            x / d
        } else if x < 0 && d < 0 {
            ((x * -1) / (d * -1))
        } else if x < 0 {
            ((x * -1) / d) * -1
        } else {
            (x / (d * -1)) * -1
        }),
{
    assert(x * -1 == -x);
    assert(d * -1 == -d);
    if x == 0 {
        assert(0int / magnitude(d) == 0);
    }
}

/// A truncated quotient of two `i64` values fits in an `i64`, but for
/// `i64::MIN / -1`.
pub(crate) proof fn lemma_div_trunc_fits(x: i64, d: i64)
    requires
        d != 0,
        !(x == i64::MIN && d == -1),
    ensures
        is_i64(div_trunc(x as int, d as int)),
{
    let a = magnitude(x as int);
    let b = magnitude(d as int);
    let q = a / b;
    assert(b * q <= a) by {
        lemma_fundamental_div_mod(a, b);
    }
    assert(q <= a) by (nonlinear_arith)
        requires
            b >= 1,
            q >= 0,
            b * q <= a,
    ;
    if b >= 2 {
        assert(2 * q <= a) by (nonlinear_arith)
            requires
                b >= 2,
                q >= 0,
                b * q <= a,
        ;
    }
}

/// `rem_trunc` case by case on the signs of its operands.
pub(crate) proof fn lemma_rem_trunc_cases(x: int, d: int)
    requires
        d != 0,
    ensures
        rem_trunc(x, d) == (if x == 0 {
            0
        } else if x > 0 && d > 0 {
            x % d
        } else if x < 0 && d < 0 {
            ((x * -1) % (d * -1)) * -1
        } else if x < 0 {
            ((x * -1) % d) * -1
        } else {
            x % (d * -1)
        }),
{
    assert(x * -1 == -x);
    assert(d * -1 == -d);
    if x == 0 {
        assert(0int % magnitude(d) == 0);
    }
}

} // verus!
