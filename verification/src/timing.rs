//! Conversions between frame numbers and timestamps.

use vstd::prelude::*;
use crate::fixed::{clamp_i32, clamp_i64, round_div, saturate_i32, saturate_i64, Fixed};

verus! {

/// A million times a million times a thousand: the product of two counts of
/// millionths, divided by this, is the product of the two numbers divided by a
/// thousand.
pub open spec fn frame_divisor() -> int {
    1_000_000_000_000_000
}

/// The millionths of a millisecond at which `frame` is placed:
/// `frame * fps * 1000`, saturating.
pub open spec fn timestamp_micros_at_frame(frame: int, fps_micros: int) -> int {
    clamp_i64(frame * fps_micros * 1000)
}

/// The frame shown at a timestamp: `timestamp_ms * fps / 1000`, rounded to the
/// nearest whole number (a half going away from zero), saturating.
pub open spec fn frame_index_at_timestamp(timestamp_micros: int, fps_micros: int) -> int {
    clamp_i32(round_div(timestamp_micros * fps_micros, frame_divisor()))
}

/// The timestamp, in milliseconds, of a frame: `frame * fps * 1000`.
pub fn timestamp_at_frame(frame: i32, fps: Fixed) -> (timestamp_ms: Fixed)
    ensures
        timestamp_ms.micros == timestamp_micros_at_frame(frame as int, fps.micros as int),
{
    let f: i128 = frame as i128;
    let m: i128 = fps.micros as i128;
    assert(-0x4000_0000_0000_0000_0000_0000 <= f * m <= 0x4000_0000_0000_0000_0000_0000)
        by (nonlinear_arith)
        requires
            -0x8000_0000 <= f <= 0x8000_0000,
            -0x8000_0000_0000_0000 <= m <= 0x8000_0000_0000_0000,
    ;
    let product: i128 = f * m;
    Fixed { micros: saturate_i64(product * 1000) }
}

/// The frame shown at a timestamp given in milliseconds:
/// `timestamp_ms * fps / 1000`, rounded to the nearest frame.
pub fn frame_at_timestamp(timestamp_ms: Fixed, fps: Fixed) -> (frame: i32)
    ensures
        frame as int == frame_index_at_timestamp(timestamp_ms.micros as int, fps.micros as int),
{
    let t: i128 = timestamp_ms.micros as i128;
    let m: i128 = fps.micros as i128;
    assert(-0x4000_0000_0000_0000_0000_0000_0000_0000 <= t * m
        <= 0x4000_0000_0000_0000_0000_0000_0000_0000) by (nonlinear_arith)
        requires
            -0x8000_0000_0000_0000 <= t <= 0x8000_0000_0000_0000,
            -0x8000_0000_0000_0000 <= m <= 0x8000_0000_0000_0000,
    ;
    let product: i128 = t * m;
    let size: u128 = if product < 0 { (-product) as u128 } else { product as u128 };
    let rounded: u128 = (2 * size + 1_000_000_000_000_000) / 2_000_000_000_000_000;
    if product < 0 {
        saturate_i32(-(rounded as i128))
    } else {
        saturate_i32(rounded as i128)
    }
}

/// The frame that comes back when a frame's timestamp is converted to a frame
/// again at the same rate.
pub open spec fn frame_round_trip(frame: int, fps_micros: int) -> int {
    frame_index_at_timestamp(timestamp_micros_at_frame(frame, fps_micros), fps_micros)
}

/// Whether `frame * fps * fps` lies within one and a half of `frame`, or the
/// frame is one of the last two that an `i32` holds (where saturation brings
/// the result back within reach). These are the inputs on which the two
/// conversions are inverses up to rounding.
pub open spec fn round_trip_is_close(frame: int, fps_micros: int) -> bool {
    &&& (2 * frame - 3) * 1_000_000_000_000 <= 2 * frame * (fps_micros * fps_micros)
    &&& (2 * frame * (fps_micros * fps_micros) < (2 * frame + 3) * 1_000_000_000_000
        || frame >= i32::MAX - 1)
}

/// For a positive divisor, a floored quotient reaches `k` exactly when the
/// dividend reaches `k * d`, and stays at or below `k` exactly when the
/// dividend stays below `(k + 1) * d`.
pub proof fn lemma_floor_div_bounds(a: int, d: int, k: int)
    requires
        d > 0,
    ensures
        (a / d >= k) <==> (a >= k * d),
        (a / d <= k) <==> (a < (k + 1) * d),
{
    vstd::arithmetic::div_mod::lemma_fundamental_div_mod(a, d);
    vstd::arithmetic::div_mod::lemma_mod_bound(a, d);
    let q = a / d;
    let r = a % d;
    assert((q >= k) <==> (a >= k * d)) by (nonlinear_arith)
        requires
            a == d * q + r,
            0 <= r < d,
    ;
    assert((q <= k) <==> (a < (k + 1) * d)) by (nonlinear_arith)
        requires
            a == d * q + r,
            0 <= r < d,
    ;
}

/// Converting a frame to its timestamp and back gives a frame within one of the
/// first exactly on the inputs that `round_trip_is_close` describes.
///
/// A frame's timestamp is `frame * fps * 1000` and a timestamp's frame is
/// `timestamp * fps / 1000`, so the round trip multiplies by the square of the
/// rate: it stays within one frame only while that square keeps the product
/// within one and a half of the frame, as it does at a rate of one.
pub proof fn lemma_frame_round_trip_condition(frame: int, fps_micros: int)
    requires
        0 <= frame <= i32::MAX,
        0 < fps_micros <= i64::MAX,
    ensures
        (frame - 1 <= frame_round_trip(frame, fps_micros) <= frame + 1) <==> round_trip_is_close(
            frame,
            fps_micros,
        ),
{
    let m = fps_micros;
    let d = frame_divisor();
    let whole = frame * m * 1000;
    let t = timestamp_micros_at_frame(frame, m);
    let square = m * m;
    let x = 2 * frame * square;
    assert(whole >= 0) by (nonlinear_arith)
        requires
            whole == frame * m * 1000,
            frame >= 0,
            m > 0,
    ;
    assert(square > 0) by (nonlinear_arith)
        requires
            square == m * m,
            m > 0,
    ;
    let p = t * m;
    assert(p >= 0) by (nonlinear_arith)
        requires
            p == t * m,
            t >= 0,
            m > 0,
    ;
    let r = round_div(p, d);
    assert(r == (2 * p + d) / (2 * d));
    lemma_floor_div_bounds(2 * p + d, 2 * d, frame - 1);
    lemma_floor_div_bounds(2 * p + d, 2 * d, frame + 1);
    lemma_floor_div_bounds(2 * p + d, 2 * d, 0);
    lemma_floor_div_bounds(2 * p + d, 2 * d, i32::MAX as int);
    assert(r >= 0);
    if whole <= i64::MAX {
        assert(t == whole);
        assert(2 * p == 1000 * x) by (nonlinear_arith)
            requires
                p == (frame * m * 1000) * m,
                x == 2 * frame * (m * m),
        ;
        assert((r >= frame - 1) <==> (1000 * x + d >= (frame - 1) * (2 * d)));
        assert((r <= frame + 1) <==> (1000 * x + d < (frame + 2) * (2 * d)));
    } else {
        assert(t == i64::MAX);
        assert(frame >= 1);
        assert(m >= 4_294_968) by (nonlinear_arith)
            requires
                frame * m * 1000 > 0x7fff_ffff_ffff_ffff,
                0 <= frame <= 0x7fff_ffff,
                m > 0,
        ;
        assert(square >= 4_294_968 * 4_294_968) by (nonlinear_arith)
            requires
                square == m * m,
                m >= 4_294_968,
        ;
        assert(x >= (2 * frame + 3) * 1_000_000_000_000) by (nonlinear_arith)
            requires
                x == 2 * frame * square,
                square >= 4_294_968 * 4_294_968,
                frame >= 1,
        ;
        assert(p >= 0x7fff_ffff_ffff_ffff * 4_294_968) by (nonlinear_arith)
            requires
                p == t * m,
                t == 0x7fff_ffff_ffff_ffff,
                m >= 4_294_968,
        ;
        assert(r > i32::MAX);
    }
}

/// On the inputs where the square of the rate keeps `frame * fps * fps` within
/// one and a half of `frame`, a frame's timestamp converts back to a frame
/// within one of it.
pub proof fn lemma_frame_round_trip_within_one(frame: int, fps_micros: int)
    requires
        0 <= frame <= i32::MAX,
        0 < fps_micros <= i64::MAX,
        round_trip_is_close(frame, fps_micros),
    ensures
        frame - 1 <= frame_round_trip(frame, fps_micros) <= frame + 1,
{
    lemma_frame_round_trip_condition(frame, fps_micros);
}

/// At a rate of exactly one frame per unit the round trip gives the frame back.
pub proof fn lemma_frame_round_trip_at_unit_rate(frame: int)
    requires
        0 <= frame <= i32::MAX,
    ensures
        frame_round_trip(frame, 1_000_000) == frame,
{
    let d = frame_divisor();
    let p = frame * 1_000_000 * 1000 * 1_000_000;
    assert(timestamp_micros_at_frame(frame, 1_000_000) == frame * 1_000_000 * 1000);
    assert(2 * p + d == (2 * frame + 1) * d);
    lemma_floor_div_bounds(2 * p + d, 2 * d, frame);
    lemma_floor_div_bounds(2 * p + d, 2 * d, frame + 1);
    assert((2 * p + d) / (2 * d) == frame) by {
        assert((2 * frame + 1) * d >= frame * (2 * d)) by (nonlinear_arith)
            requires
                d > 0,
        ;
        assert((2 * frame + 1) * d < (frame + 1) * (2 * d)) by (nonlinear_arith)
            requires
                d > 0,
        ;
    }
}

} // verus!
