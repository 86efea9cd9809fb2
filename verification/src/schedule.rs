//! The colour temperature that the time of day calls for.
//!
//! From nightfall until daybreak the screen is at the night temperature. In
//! the transition window that ends at nightfall the temperature runs linearly
//! from the day value to the night value. The rest of the day it is at the day
//! temperature. There is no ramp in the morning: at daybreak the temperature
//! changes at once.
//!
//! The time of day is the wall clock's hour and minute, counted in minutes
//! since midnight. The width of the window is held in milliseconds.

use vstd::prelude::*;
use crate::config::Configuration;
use crate::rounding::{lemma_product_bounds, lemma_round_div_bounds, lemma_round_div_monotone, round_div, rounded_quotient};
use crate::units::ColorTemperature;

verus! {

/// Minute of the day at which full night begins (18:00).
pub const NIGHTFALL: u32 = 1080;

/// Last minute of the day that still belongs to the night (06:00).
pub const DAYBREAK: u32 = 360;

/// Minutes in a day.
pub const MINUTES_PER_DAY: u32 = 1440;

/// Minutes in an hour.
pub const MINUTES_PER_HOUR: u32 = 60;

/// Hours in a day.
pub const HOURS_PER_DAY: u32 = 24;

/// Milliseconds in a minute.
pub const MILLIS_PER_MINUTE: u32 = 60_000;

/// Minutes since midnight of the wall-clock time `hour`:`minute`.
pub open spec fn minute_of_day_spec(hour: int, minute: int) -> int {
    hour * MINUTES_PER_HOUR + minute
}

/// Milliseconds from the beginning of `minute` of the day until nightfall.
pub open spec fn until_nightfall(minute: int) -> int {
    (NIGHTFALL - minute) * MILLIS_PER_MINUTE
}

/// The linear mix of the two temperatures when `remaining` of the
/// `transition` milliseconds are left until nightfall: all day at
/// `remaining == transition`, all night at `remaining == 0`.
pub open spec fn blend(day: int, night: int, remaining: int, transition: int) -> int {
    round_div(day * remaining + night * (transition - remaining), transition)
}

/// The colour temperature, in millikelvin, at `minute` of the local day, for
/// a window of `transition` milliseconds.
pub open spec fn schedule_temp_spec(minute: int, day: int, night: int, transition: int) -> int {
    if minute >= NIGHTFALL || minute <= DAYBREAK {
        night
    } else if until_nightfall(minute) <= transition {
        blend(day, night, until_nightfall(minute), transition)
    } else {
        day
    }
}

/// The smaller of two integers.
pub open spec fn lower(a: int, b: int) -> int {
    if a <= b {
        a
    } else {
        b
    }
}

/// The larger of two integers.
pub open spec fn upper(a: int, b: int) -> int {
    if a <= b {
        b
    } else {
        a
    }
}

/// Every time that a wall clock can show is a minute of the day, and
/// different times are different minutes.
pub proof fn minute_of_day_is_within_day(hour: int, minute: int)
    requires
        0 <= hour < HOURS_PER_DAY,
        0 <= minute < MINUTES_PER_HOUR,
    ensures
        0 <= minute_of_day_spec(hour, minute) < MINUTES_PER_DAY,
        minute_of_day_spec(hour, minute) / (MINUTES_PER_HOUR as int) == hour,
        minute_of_day_spec(hour, minute) % (MINUTES_PER_HOUR as int) == minute,
{
}

/// The numerator of the mix lies between the two temperatures taken
/// `transition` times.
proof fn lemma_mix_between(day: int, night: int, remaining: int, transition: int)
    requires
        0 <= remaining <= transition,
    ensures
        lower(day, night) * transition <= day * remaining + night * (transition - remaining),
        day * remaining + night * (transition - remaining) <= upper(day, night) * transition,
{
    let lo = lower(day, night);
    let hi = upper(day, night);
    let rest = transition - remaining;
    assert(lo * remaining <= day * remaining <= hi * remaining) by (nonlinear_arith)
        requires
            lo <= day <= hi,
            0 <= remaining,
    ;
    assert(lo * rest <= night * rest <= hi * rest) by (nonlinear_arith)
        requires
            lo <= night <= hi,
            0 <= rest,
    ;
    assert(lo * remaining + lo * rest == lo * transition) by (nonlinear_arith)
        requires
            remaining + rest == transition,
    ;
    assert(hi * remaining + hi * rest == hi * transition) by (nonlinear_arith)
        requires
            remaining + rest == transition,
    ;
}

/// The schedule never leaves the interval between the night and the day
/// temperature: the ramp does not overshoot.
pub proof fn schedule_temp_between(minute: int, day: int, night: int, transition: int)
    requires
        0 <= transition,
    ensures
        lower(day, night) <= schedule_temp_spec(minute, day, night, transition) <= upper(
            day,
            night,
        ),
{
    if DAYBREAK < minute < NIGHTFALL && until_nightfall(minute) <= transition {
        let remaining = until_nightfall(minute);
        lemma_mix_between(day, night, remaining, transition);
        lemma_round_div_bounds(
            day * remaining + night * (transition - remaining),
            transition,
            lower(day, night),
            upper(day, night),
        );
    }
}

/// At a minute with which the transition window begins, the temperature is
/// still the day temperature.
pub proof fn schedule_temp_at_window_start(minute: int, day: int, night: int)
    requires
        DAYBREAK < minute < NIGHTFALL,
    ensures
        schedule_temp_spec(minute, day, night, until_nightfall(minute)) == day,
{
    let transition = until_nightfall(minute);
    assert(day * transition + night * (transition - transition) == day * transition)
        by (nonlinear_arith);
    lemma_round_div_bounds(day * transition, transition, day, day);
}

/// Without a transition the schedule is a plain switch: night from nightfall
/// until daybreak, day otherwise. Nothing is divided.
pub proof fn schedule_without_transition(minute: int, day: int, night: int)
    ensures
        schedule_temp_spec(minute, day, night, 0) == if minute >= NIGHTFALL || minute <= DAYBREAK {
            night
        } else {
            day
        },
{
}

/// From daybreak on, the temperature only moves from the day value towards
/// the night value as the day goes by: of two minutes after daybreak, the
/// later one is at least as close to the night temperature.
pub proof fn schedule_temp_monotone(
    earlier: int,
    later: int,
    day: int,
    night: int,
    transition: int,
)
    requires
        0 <= transition,
        DAYBREAK < earlier <= later,
    ensures
        night <= day ==> schedule_temp_spec(earlier, day, night, transition) >= schedule_temp_spec(
            later,
            day,
            night,
            transition,
        ),
        day <= night ==> schedule_temp_spec(earlier, day, night, transition) <= schedule_temp_spec(
            later,
            day,
            night,
            transition,
        ),
{
    schedule_temp_between(earlier, day, night, transition);
    schedule_temp_between(later, day, night, transition);
    if later < NIGHTFALL && until_nightfall(earlier) <= transition {
        let r1 = until_nightfall(earlier);
        let r2 = until_nightfall(later);
        let n1 = day * r1 + night * (transition - r1);
        let n2 = day * r2 + night * (transition - r2);
        assert(n1 - n2 == (day - night) * (r1 - r2)) by (nonlinear_arith)
            requires
                n1 == day * r1 + night * (transition - r1),
                n2 == day * r2 + night * (transition - r2),
        ;
        if night <= day {
            assert((day - night) * (r1 - r2) >= 0) by (nonlinear_arith)
                requires
                    day - night >= 0,
                    r1 - r2 >= 0,
            ;
            lemma_round_div_monotone(n2, n1, transition);
        }
        if day <= night {
            assert((day - night) * (r1 - r2) <= 0) by (nonlinear_arith)
                requires
                    day - night <= 0,
                    r1 - r2 >= 0,
            ;
            lemma_round_div_monotone(n1, n2, transition);
        }
    }
}

/// Two temperatures that both meet the schedule's contract for the same
/// minute and settings are the same temperature.
pub proof fn schedule_temp_is_deterministic(
    first: ColorTemperature,
    second: ColorTemperature,
    minute: int,
    day: int,
    night: int,
    transition: int,
)
    requires
        first@ == schedule_temp_spec(minute, day, night, transition),
        second@ == schedule_temp_spec(minute, day, night, transition),
    ensures
        first == second,
{
}

/// The minutes since midnight of the wall-clock time `hour`:`minute`, if
/// that is a time of day.
pub fn minute_of_day(hour: u32, minute: u32) -> (minutes: Option<u32>)
    ensures
        minutes is Some <==> hour < HOURS_PER_DAY && minute < MINUTES_PER_HOUR,
        minutes matches Some(m) ==> m == minute_of_day_spec(hour as int, minute as int) && m
            < MINUTES_PER_DAY,
{
    if hour < HOURS_PER_DAY && minute < MINUTES_PER_HOUR {
        Some(hour * MINUTES_PER_HOUR + minute)
    } else {
        None
    }
}

/// The colour temperature that the schedule gives for `minute_of_day`, the
/// minutes since local midnight.
pub fn schedule_temp(minute_of_day: u32, cfg: &Configuration) -> (temp: ColorTemperature)
    ensures
        temp@ == schedule_temp_spec(
            minute_of_day as int,
            cfg.day_temp@,
            cfg.night_temp@,
            cfg.transition_millis as int,
        ),
        lower(cfg.day_temp@, cfg.night_temp@) <= temp@ <= upper(cfg.day_temp@, cfg.night_temp@),
{
    let day: u32 = cfg.day_temp.millikelvin;
    let night: u32 = cfg.night_temp.millikelvin;
    let transition: u32 = cfg.transition_millis;
    proof {
        schedule_temp_between(minute_of_day as int, day as int, night as int, transition as int);
    }
    if minute_of_day >= NIGHTFALL || minute_of_day <= DAYBREAK {
        return cfg.night_temp;
    }
    let remaining: u32 = (NIGHTFALL - minute_of_day) * MILLIS_PER_MINUTE;
    if remaining <= transition {
        let rest: u32 = transition - remaining;
        proof {
            lemma_product_bounds(day as int, remaining as int, u32::MAX as int, u32::MAX as int);
            lemma_product_bounds(night as int, rest as int, u32::MAX as int, u32::MAX as int);
        }
        let mix: u128 = day as u128 * remaining as u128 + night as u128 * rest as u128;
        let rounded: u128 = rounded_quotient(mix, transition as u128);
        ColorTemperature::from_millikelvin(rounded as u32)
    } else {
        cfg.day_temp
    }
}

} // verus!
