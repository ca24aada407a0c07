//! Integer interpolation and wall-clock seconds.

use std::time::Duration;
use std::time::SystemTime;
use vstd::arithmetic::div_mod::lemma_div_is_ordered;
use vstd::arithmetic::div_mod::lemma_div_multiples_vanish;
use vstd::arithmetic::div_mod::lemma_div_pos_is_pos;
use vstd::arithmetic::mul::lemma_mul_inequality;
use vstd::arithmetic::mul::lemma_mul_nonnegative;
use vstd::prelude::*;

verus! {

/// `x` held between `lo` and `hi`.
pub open spec fn clamp_to(x: int, lo: int, hi: int) -> int {
    if x < lo {
        lo
    } else if x > hi {
        hi
    } else {
        x
    }
}

/// The point of `[out_min, out_max]` that lies as far along it as `x`, held
/// inside `[in_min, in_max]`, lies along that interval; fractions are dropped.
pub open spec fn map_range_value(x: int, in_min: int, in_max: int, out_min: int, out_max: int) -> int {
    out_min + ((clamp_to(x, in_min, in_max) - in_min) * (out_max - out_min)) / (in_max - in_min)
}

/// The interpolated value never leaves the output interval, and the two ends
/// of the input interval map to the two ends of the output interval.
pub proof fn lemma_map_range_bounds(x: int, in_min: int, in_max: int, out_min: int, out_max: int)
    requires
        in_min < in_max,
        out_min <= out_max,
    ensures
        out_min <= map_range_value(x, in_min, in_max, out_min, out_max) <= out_max,
        x <= in_min ==> map_range_value(x, in_min, in_max, out_min, out_max) == out_min,
        x >= in_max ==> map_range_value(x, in_min, in_max, out_min, out_max) == out_max,
{
    let n = clamp_to(x, in_min, in_max) - in_min;
    let d = in_max - in_min;
    let s = out_max - out_min;
    lemma_mul_nonnegative(n, s);
    lemma_div_pos_is_pos(n * s, d);
    lemma_mul_inequality(n, d, s);
    lemma_div_is_ordered(n * s, d * s, d);
    lemma_div_multiples_vanish(s, d);
    assert(d * s == s * d) by (nonlinear_arith);
    if x <= in_min {
        assert(n * s == 0) by (nonlinear_arith)
            requires
                n == 0,
        ;
    }
}

/// Interpolation never decreases as the input grows.
pub proof fn lemma_map_range_monotonic(
    x: int,
    y: int,
    in_min: int,
    in_max: int,
    out_min: int,
    out_max: int,
)
    requires
        in_min < in_max,
        out_min <= out_max,
        x <= y,
    ensures
        map_range_value(x, in_min, in_max, out_min, out_max) <= map_range_value(
            y,
            in_min,
            in_max,
            out_min,
            out_max,
        ),
{
    let nx = clamp_to(x, in_min, in_max) - in_min;
    let ny = clamp_to(y, in_min, in_max) - in_min;
    let s = out_max - out_min;
    lemma_mul_inequality(nx, ny, s);
    lemma_div_is_ordered(nx * s, ny * s, in_max - in_min);
}

/// Clamped linear interpolation of `x` from `[in_min, in_max]` onto
/// `[out_min, out_max]`, truncated to a whole number.
pub fn map_range(x: i32, in_min: i32, in_max: i32, out_min: u8, out_max: u8) -> (mapped: u8)
    requires
        in_min < in_max,
        out_min <= out_max,
    ensures
        mapped == map_range_value(x as int, in_min as int, in_max as int, out_min as int, out_max as int),
        out_min <= mapped <= out_max,
        x <= in_min ==> mapped == out_min,
        x >= in_max ==> mapped == out_max,
{
    let clamped: i32 = if x < in_min {
        in_min
    } else if x > in_max {
        in_max
    } else {
        x
    };
    let offset: i64 = clamped as i64 - in_min as i64;
    let width: i64 = in_max as i64 - in_min as i64;
    let span: i64 = (out_max - out_min) as i64;
    proof {
        lemma_map_range_bounds(x as int, in_min as int, in_max as int, out_min as int, out_max as int);
        assert(0 <= offset * span <= 0x1_0000_0000 * 255) by (nonlinear_arith)
            requires
                0 <= offset <= 0x1_0000_0000,
                0 <= span <= 255,
        ;
    }
    let scaled: i64 = offset * span / width;
    (out_min as i64 + scaled) as u8
}

/// Seconds from `since` to `now`; zero when `now` lies before `since`.
pub open spec fn elapsed_between(since: u32, now: u32) -> int {
    if now >= since {
        now - since
    } else {
        0
    }
}

/// Whole seconds that have passed at `now` since the instant `since`. A clock
/// that stepped backwards reads as no time passed.
pub fn elapsed_seconds(since: u32, now: u32) -> (elapsed: u32)
    ensures
        elapsed == elapsed_between(since, now),
{
    if now >= since {
        now - since
    } else {
        0
    }
}

/// The low 32 bits of a count of seconds.
pub fn truncate_seconds(secs: u64) -> (low: u32)
    ensures
        low == secs % 0x1_0000_0000,
{
    let low: u32 = (secs & 0xffff_ffff) as u32;
    assert(secs & 0xffff_ffff == secs % 0x1_0000_0000) by (bit_vector);
    low
}

#[verifier::external_type_specification]
#[verifier::external_body]
pub struct ExSystemTime(std::time::SystemTime);

/// `std::time::SystemTime::now`: the reading of the system clock. Nothing is
/// claimed of it; two readings may differ in either direction.
#[verifier::external_body]
fn clock_now() -> SystemTime {
    SystemTime::now()
}

/// `std::time::SystemTime::duration_since`, measured from the Unix epoch:
/// how far `reading` lies after the epoch, or nothing when it lies before it.
/// Nothing is claimed of the span itself.
#[verifier::external_body]
fn since_unix_epoch(reading: &SystemTime) -> Option<Duration> {
    reading.duration_since(SystemTime::UNIX_EPOCH).ok()
}

/// `std::time::Duration::as_secs`: the whole seconds held in `span`. The span
/// is opaque here, so nothing is claimed of the count.
#[verifier::external_body]
fn whole_seconds(span: &Duration) -> u64 {
    span.as_secs()
}

/// Seconds since the Unix epoch by the system clock, in 32 bits: what
/// [`seconds_from_reading`] makes of the clock's answer at this moment.
pub fn unix_seconds() -> u32 {
    let reading = clock_now();
    let since_epoch = match since_unix_epoch(&reading) {
        Some(span) => Some(whole_seconds(&span)),
        None => None,
    };
    seconds_from_reading(since_epoch)
}

/// The 32-bit count of seconds for a clock that stands `since_epoch` whole
/// seconds after the Unix epoch, or before it where there is no such count.
pub open spec fn reading_in_seconds(since_epoch: Option<u64>) -> int {
    match since_epoch {
        Some(secs) => (secs % 0x1_0000_0000) as int,
        None => 0,
    }
}

/// What a reading of the clock comes to: the low 32 bits of its seconds
/// since the epoch, and zero for a clock set before the epoch.
pub fn seconds_from_reading(since_epoch: Option<u64>) -> (seconds: u32)
    ensures
        seconds == reading_in_seconds(since_epoch),
{
    match since_epoch {
        Some(secs) => truncate_seconds(secs),
        None => 0,
    }
}

} // verus!
