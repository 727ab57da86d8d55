//! Easing curves: progress as a function of time, both in thousandths.
//! Fractions are dropped towards the lower value.

use vstd::prelude::*;

verus! {

/// The square of `t` thousandths, in thousandths.
pub open spec fn squared(t: int) -> int {
    t * t / 1000
}

/// Progress that starts slowly: `t * t`.
pub open spec fn eased_in(t: int) -> int {
    squared(t)
}

/// Progress that ends slowly: `1 - (1 - t) * (1 - t)`.
pub open spec fn eased_out(t: int) -> int {
    (1_000_000 - (1000 - t) * (1000 - t)) / 1000
}

/// Progress that starts and ends slowly: `2 t * t` up to the middle,
/// `1 - (2 - 2 t) * (2 - 2 t) / 2` from there.
pub open spec fn eased_in_out(t: int) -> int {
    if t < 500 {
        2 * t * t / 1000
    } else {
        (2_000_000 - (2000 - 2 * t) * (2000 - 2 * t)) / 2000
    }
}

/// Progress that bounces: four arcs of `7.5625 t * t`, each starting higher
/// than the one before, at 0, 4, 8 and 10 elevenths of the time.
pub open spec fn bounced(t: int) -> int {
    if 11 * t < 4000 {
        121 * t * t / 16000
    } else if 11 * t < 8000 {
        ((11 * t - 6000) * (11 * t - 6000) + 12_000_000) / 16000
    } else if 11 * t < 10000 {
        ((11 * t - 9000) * (11 * t - 9000) + 15_000_000) / 16000
    } else {
        ((22 * t - 21000) * (22 * t - 21000) + 63_000_000) / 64000
    }
}

/// No easing: progress is time.
pub fn linear(t: u32) -> (progress: u32)
    ensures
        progress == t,
{
    t
}

/// Slow start.
pub fn ease_in(t: u32) -> (progress: u64)
    ensures
        progress == eased_in(t as int),
{
    assert(t * t <= 0xffff_ffff * 0xffff_ffff) by (nonlinear_arith)
        requires
            t <= 0xffff_ffff,
    ;
    (t as u64) * (t as u64) / 1000
}

/// Slow end. Beyond twice the whole time the curve lies below zero.
pub fn ease_out(t: u32) -> (progress: i64)
    ensures
        progress == eased_out(t as int),
{
    let rest: i64 = 1000 - t as i64;
    assert(0 <= rest * rest <= 0x1_0000_0000 * 0x1_0000_0000) by (nonlinear_arith)
        requires
            -0x1_0000_0000 <= rest <= 0x1_0000_0000,
    ;
    let square: i128 = (rest as i128) * (rest as i128);
    floor_thousandths(1_000_000 - square, 1000)
}

/// Slow start and end.
pub fn ease_in_out(t: u32) -> (progress: i64)
    ensures
        progress == eased_in_out(t as int),
{
    if t < 500 {
        assert(2 * t * t <= 2 * 500 * 500) by (nonlinear_arith)
            requires
                t < 500,
        ;
        (2 * (t as i64) * (t as i64)) / 1000
    } else {
        let rest: i64 = 2000 - 2 * (t as i64);
        assert(0 <= rest * rest <= 0x2_0000_0000 * 0x2_0000_0000) by (nonlinear_arith)
            requires
                -0x2_0000_0000 <= rest <= 0x2_0000_0000,
        ;
        let square: i128 = (rest as i128) * (rest as i128);
        floor_thousandths(2_000_000 - square, 2000)
    }
}

/// Bouncing.
pub fn bounce(t: u32) -> (progress: u64)
    ensures
        progress == bounced(t as int),
{
    let t: u128 = t as u128;
    assert(121 * t * t <= 121 * 0xffff_ffff * 0xffff_ffff) by (nonlinear_arith)
        requires
            t <= 0xffff_ffff,
    ;
    if 11 * t < 4000 {
        (121 * t * t / 16000) as u64
    } else if 11 * t < 8000 {
        let d: u128 = if 11 * t >= 6000 {
            11 * t - 6000
        } else {
            6000 - 11 * t
        };
        assert(d * d == (11 * t - 6000) * (11 * t - 6000) && d * d <= 4000 * 4000)
            by (nonlinear_arith)
            requires
                d == 11 * t - 6000 || d == 6000 - 11 * t,
                0 <= d <= 4000,
        ;
        ((d * d + 12_000_000) / 16000) as u64
    } else if 11 * t < 10000 {
        let d: u128 = if 11 * t >= 9000 {
            11 * t - 9000
        } else {
            9000 - 11 * t
        };
        assert(d * d == (11 * t - 9000) * (11 * t - 9000) && d * d <= 4000 * 4000)
            by (nonlinear_arith)
            requires
                d == 11 * t - 9000 || d == 9000 - 11 * t,
                0 <= d <= 4000,
        ;
        ((d * d + 15_000_000) / 16000) as u64
    } else {
        let d: u128 = if 22 * t >= 21000 {
            22 * t - 21000
        } else {
            21000 - 22 * t
        };
        assert(d * d == (22 * t - 21000) * (22 * t - 21000) && d * d <= 0x16_0000_0000
            * 0x16_0000_0000) by (nonlinear_arith)
            requires
                d == 22 * t - 21000 || d == 21000 - 22 * t,
                0 <= d <= 0x16_0000_0000,
        ;
        ((d * d + 63_000_000) / 64000) as u64
    }
}

/// `value / by`, rounded down.
fn floor_thousandths(value: i128, by: u32) -> (quotient: i64)
    requires
        by >= 1000,
        -0x8_0000_0000_0000_0000 <= value <= 0x8_0000_0000_0000_0000,
    ensures
        quotient == (value as int) / (by as int),
{
    if value >= 0 {
        let magnitude: u128 = value as u128;
        let q: u128 = magnitude / (by as u128);
        assert(q * 1000 <= magnitude) by (nonlinear_arith)
            requires
                q == magnitude / (by as u128),
                by >= 1000,
        ;
        q as i64
    } else {
        let magnitude: u128 = (-value) as u128;
        let q: u128 = (magnitude + (by as u128) - 1) / (by as u128);
        assert(q * 1000 <= magnitude + by && -(q as int) == (value as int) / (by as int))
            by (nonlinear_arith)
            requires
                q == (magnitude + by - 1) / (by as int),
                magnitude == -value,
                magnitude > 0,
                by >= 1000,
        ;
        -(q as i64)
    }
}

} // verus!
