//! The fixed temperature-to-duty-cycle table.
use vstd::prelude::*;

verus! {

/// Lower bound, in millidegrees Celsius, of the 20% tier.
pub const LOW_THRESHOLD: i64 = 50000;

/// Lower bound, in millidegrees Celsius, of the 50% tier.
pub const MEDIUM_THRESHOLD: i64 = 55000;

/// Lower bound, in millidegrees Celsius, of the 70% tier.
pub const HIGH_THRESHOLD: i64 = 63000;

/// Lower bound, in millidegrees Celsius, of the full-speed tier.
pub const FULL_THRESHOLD: i64 = 70000;

/// The duty cycle, in percent, that the table gives for a temperature of
/// `t` millidegrees Celsius. Each breakpoint belongs to the tier above it.
pub open spec fn duty_percent_of(t: int) -> int {
    if t < 50000 {
        0
    } else if t < 55000 {
        20
    } else if t < 63000 {
        50
    } else if t < 70000 {
        70
    } else {
        100
    }
}

/// The five duty cycles, in percent, that the table can give.
pub open spec fn is_tier(p: int) -> bool {
    p == 0 || p == 20 || p == 50 || p == 70 || p == 100
}

/// Maps a temperature in millidegrees Celsius to the fan's duty cycle in
/// percent.
pub fn temp_to_duty_cycle(millidegrees: i64) -> (r: u8)
    ensures
        r as int == duty_percent_of(millidegrees as int),
        r <= 100,
{
    if millidegrees < LOW_THRESHOLD {
        0
    } else if millidegrees < MEDIUM_THRESHOLD {
        20
    } else if millidegrees < HIGH_THRESHOLD {
        50
    } else if millidegrees < FULL_THRESHOLD {
        70
    } else {
        100
    }
}

/// Below 50 degrees Celsius the fan is off.
pub proof fn lemma_off_below_low(t: int)
    requires
        t < 50000,
    ensures
        duty_percent_of(t) == 0,
{
}

/// The table is a step function over five tiers that never decreases as the
/// temperature rises.
pub proof fn lemma_monotone_steps(a: int, b: int)
    requires
        a <= b,
    ensures
        duty_percent_of(a) <= duty_percent_of(b),
        is_tier(duty_percent_of(a)),
        is_tier(duty_percent_of(b)),
{
}

/// Every temperature, however low or high, gives a duty cycle between 0% and
/// 100%.
pub proof fn lemma_duty_in_range(t: int)
    ensures
        0 <= duty_percent_of(t) <= 100,
{
}

} // verus!
