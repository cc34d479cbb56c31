//! Conversion between fan speed in percent and the device's raw speed unit.
//!
//! The device counts speed in steps of half a percent: full speed is
//! `MAX_FAN_SPEED`, which is not a power of two, so both directions round to
//! the nearest integer.

use vstd::prelude::*;

verus! {

/// Raw value that stands for full speed.
pub const MAX_FAN_SPEED: u8 = 0xc8;

/// The integer nearest to `num / den`, halves rounded away from zero.
pub open spec fn round_div(num: int, den: int) -> int
    recommends
        den > 0,
{
    if num >= 0 {
        (num + den / 2) / den
    } else {
        -((den / 2 - num) / den)
    }
}

/// `v` limited to what one byte holds.
pub open spec fn saturate_to_byte(v: int) -> int {
    if v < 0 {
        0
    } else if v > 255 {
        255
    } else {
        v
    }
}

/// Raw speed for a percentage: `round(percent * MAX_FAN_SPEED / 100)`.
pub open spec fn raw_of_percent(percent: int) -> int {
    round_div(percent * MAX_FAN_SPEED, 100)
}

/// Percentage for a raw speed: `round(raw * 100 / MAX_FAN_SPEED)`, limited
/// to a byte.
pub open spec fn percent_of_raw(raw: int) -> int {
    saturate_to_byte(round_div(raw * 100, MAX_FAN_SPEED as int))
}

/// A percentage sent to the device and read back.
pub open spec fn round_trip(percent: int) -> int {
    percent_of_raw(raw_of_percent(percent))
}

/// Converts a percentage to the raw speed written to the device.
pub fn to_raw(percent: u8) -> (raw: u32)
    ensures
        raw == raw_of_percent(percent as int),
        raw == 2 * percent,
        percent <= 100 ==> raw <= MAX_FAN_SPEED,
{
    let full: u32 = MAX_FAN_SPEED as u32;
    let scaled: u32 = percent as u32 * full;
    assert(scaled == 200 * percent) by (nonlinear_arith)
        requires
            scaled == percent * full,
            full == 200,
    ;
    (scaled + 50) / 100
}

/// Converts a raw speed read from the device to a percentage. Readings below
/// zero give 0, readings too large for a byte give 255.
pub fn to_percent(raw: i32) -> (percent: u8)
    ensures
        percent == percent_of_raw(raw as int),
        0 <= raw <= MAX_FAN_SPEED ==> percent <= 100,
{
    if raw <= 0 {
        0
    } else {
        let scaled: u64 = raw as u64 * 100;
        let rounded: u64 = (scaled + MAX_FAN_SPEED as u64 / 2) / (MAX_FAN_SPEED as u64);
        if rounded > 255 {
            255
        } else {
            rounded as u8
        }
    }
}

/// Every percentage maps to exactly twice its value.
pub proof fn lemma_raw_is_double(percent: int)
    ensures
        raw_of_percent(percent) == 2 * percent,
{
}

/// Zero percent is raw zero and a hundred percent is the raw maximum.
pub proof fn lemma_raw_endpoints()
    ensures
        raw_of_percent(0) == 0,
        raw_of_percent(100) == MAX_FAN_SPEED,
{
    lemma_raw_is_double(0);
    lemma_raw_is_double(100);
}

/// Valid percentages stay inside the raw range, and raw speeds inside that
/// range convert to valid percentages.
pub proof fn lemma_conversions_in_range(percent: int, raw: int)
    ensures
        0 <= percent <= 100 ==> 0 <= raw_of_percent(percent) <= MAX_FAN_SPEED,
        0 <= raw <= MAX_FAN_SPEED ==> 0 <= percent_of_raw(raw) <= 100,
{
    lemma_raw_is_double(percent);
}

/// A larger percentage never gives a smaller raw speed.
pub proof fn lemma_raw_monotonic(a: int, b: int)
    requires
        a <= b,
    ensures
        raw_of_percent(a) <= raw_of_percent(b),
{
    lemma_raw_is_double(a);
    lemma_raw_is_double(b);
}

/// A larger raw speed never gives a smaller percentage.
pub proof fn lemma_percent_monotonic(a: int, b: int)
    requires
        a <= b,
    ensures
        percent_of_raw(a) <= percent_of_raw(b),
{
}

/// Sending a valid percentage to the device and reading it back moves it by
/// at most one percent.
pub proof fn lemma_round_trip_within_one(percent: int)
    requires
        0 <= percent <= 100,
    ensures
        -1 <= round_trip(percent) - percent <= 1,
{
    lemma_round_trip_exact(percent);
}

/// For every percentage a byte can hold the round trip is in fact exact.
pub proof fn lemma_round_trip_exact(percent: int)
    requires
        0 <= percent <= 255,
    ensures
        round_trip(percent) == percent,
{
    lemma_raw_is_double(percent);
}

/// The round trip preserves order.
pub proof fn lemma_round_trip_monotonic(a: int, b: int)
    requires
        a <= b,
    ensures
        round_trip(a) <= round_trip(b),
{
    lemma_raw_monotonic(a, b);
    lemma_percent_monotonic(raw_of_percent(a), raw_of_percent(b));
}

} // verus!
