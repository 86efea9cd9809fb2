//! Ambient brightness from a weather report.
//!
//! Between sunrise and sunset, daylight is modelled as a triangle that is
//! zero at both ends and one at solar noon. Cloud cover scales it down, and
//! the result is the position between the configured floor and one. Outside
//! of the day the result is the floor itself.

use vstd::prelude::*;
use crate::rounding::{lemma_product_bounds, lemma_round_div_bounds, round_div, rounded_quotient};
use crate::units::{Level, UNIT};

verus! {

/// What one weather report says of the day: sunrise and sunset in seconds
/// since the Unix epoch, and the share of the sky that is covered by cloud.
#[derive(Clone, Copy, Debug, PartialEq, Eq)]
pub struct WeatherSnapshot {
    pub sunrise: i64,
    pub sunset: i64,
    pub cloud_cover: Level,
}

/// Twice the distance, in seconds, from `elapsed` to the nearer end of a day
/// of `day_length` seconds. Divided by `day_length` it is the daylight
/// triangle: zero at sunrise and sunset, one at solar noon.
pub open spec fn midday_bump(elapsed: int, day_length: int) -> int {
    if 2 * elapsed <= day_length {
        2 * elapsed
    } else {
        2 * (day_length - elapsed)
    }
}

/// The brightness, in millionths, at the instant `now` of a day that runs
/// from `sunrise` to `sunset` under `cloud` millionths of cloud cover, with
/// the floor `min`. A day without length has no daylight.
pub open spec fn weather_brightness(sunrise: int, sunset: int, cloud: int, now: int, min: int) -> int {
    if now < sunrise || now > sunset || sunrise == sunset {
        min
    } else {
        let day_length = sunset - sunrise;
        min + round_div(
            midday_bump(now - sunrise, day_length) * ((UNIT - cloud) * (UNIT - min)),
            day_length * UNIT,
        )
    }
}

/// Daylight scaled by clear sky and by the room above the floor never exceeds
/// that room.
proof fn lemma_daylight_bounds(bump: int, day_length: int, clear: int, room: int)
    requires
        0 <= bump <= day_length,
        0 <= clear <= UNIT,
        0 <= room <= UNIT,
    ensures
        0 <= bump * (clear * room) <= room * (day_length * UNIT),
{
    lemma_product_bounds(clear, room, UNIT as int, room);
    lemma_product_bounds(bump, clear * room, day_length, UNIT * room);
    assert(day_length * (UNIT * room) == room * (day_length * UNIT)) by (nonlinear_arith);
}

/// The weather never gives less than the floor nor more than one.
pub proof fn weather_brightness_in_range(sunrise: int, sunset: int, cloud: int, now: int, min: int)
    requires
        0 <= cloud <= UNIT,
        0 <= min <= UNIT,
    ensures
        min <= weather_brightness(sunrise, sunset, cloud, now, min) <= UNIT,
{
    if sunrise <= now <= sunset && sunrise != sunset {
        let day_length = sunset - sunrise;
        let bump = midday_bump(now - sunrise, day_length);
        let room = UNIT - min;
        lemma_daylight_bounds(bump, day_length, UNIT - cloud, room);
        lemma_round_div_bounds(bump * ((UNIT - cloud) * room), day_length * UNIT, 0, room);
    }
}

/// Before sunrise and after sunset the result is exactly the floor.
pub proof fn night_is_floor(sunrise: int, sunset: int, cloud: int, now: int, min: int)
    requires
        now < sunrise || now > sunset,
    ensures
        weather_brightness(sunrise, sunset, cloud, now, min) == min,
{
}

/// Under a fully covered sky the result is exactly the floor, at any time.
pub proof fn overcast_is_floor(sunrise: int, sunset: int, now: int, min: int)
    ensures
        weather_brightness(sunrise, sunset, UNIT as int, now, min) == min,
{
    if sunrise <= now <= sunset && sunrise != sunset {
        let day_length = sunset - sunrise;
        let bump = midday_bump(now - sunrise, day_length);
        assert(bump * (0 * (UNIT - min)) == 0) by (nonlinear_arith);
        lemma_round_div_bounds(0, day_length * UNIT, 0, 0);
    }
}

/// At solar noon under a clear sky the result is one, whatever the floor.
pub proof fn clear_noon_is_full(sunrise: int, sunset: int, now: int, min: int)
    requires
        sunrise < sunset,
        2 * (now - sunrise) == sunset - sunrise,
        0 <= min <= UNIT,
    ensures
        weather_brightness(sunrise, sunset, 0, now, min) == UNIT,
{
    let day_length = sunset - sunrise;
    let room = UNIT - min;
    assert(day_length * (UNIT * room) == room * (day_length * UNIT)) by (nonlinear_arith);
    lemma_round_div_bounds(day_length * (UNIT * room), day_length * UNIT, room, room);
}

/// Two estimates that both meet the estimator's contract for the same
/// report, instant and floor are the same level.
pub proof fn estimate_from_weather_is_deterministic(
    first: Level,
    second: Level,
    sunrise: int,
    sunset: int,
    cloud: int,
    now: int,
    min: int,
)
    requires
        first@ == weather_brightness(sunrise, sunset, cloud, now, min),
        second@ == weather_brightness(sunrise, sunset, cloud, now, min),
    ensures
        first == second,
{
    Level::equal_by_view(first, second);
}

/// The brightness that `snapshot` gives at the instant `now`, in seconds
/// since the Unix epoch, with the floor `min`.
pub fn estimate_from_weather(snapshot: &WeatherSnapshot, now: i64, min: Level) -> (brightness:
    Level)
    ensures
        brightness@ == weather_brightness(
            snapshot.sunrise as int,
            snapshot.sunset as int,
            snapshot.cloud_cover@,
            now as int,
            min@,
        ),
        min@ <= brightness@ <= UNIT,
{
    let cloud: u32 = snapshot.cloud_cover.micros();
    let floor: u32 = min.micros();
    proof {
        weather_brightness_in_range(
            snapshot.sunrise as int,
            snapshot.sunset as int,
            cloud as int,
            now as int,
            floor as int,
        );
    }
    if now < snapshot.sunrise || now > snapshot.sunset || snapshot.sunrise == snapshot.sunset {
        return min;
    }
    let day_length: u128 = (snapshot.sunset as i128 - snapshot.sunrise as i128) as u128;
    let elapsed: u128 = (now as i128 - snapshot.sunrise as i128) as u128;
    let bump: u128 = if 2 * elapsed <= day_length {
        2 * elapsed
    } else {
        2 * (day_length - elapsed)
    };
    let clear: u32 = UNIT - cloud;
    let room: u32 = UNIT - floor;
    proof {
        lemma_daylight_bounds(bump as int, day_length as int, clear as int, room as int);
        lemma_product_bounds(clear as int, room as int, UNIT as int, UNIT as int);
        lemma_product_bounds(
            bump as int,
            clear * room,
            day_length as int,
            1_000_000_000_000,
        );
        lemma_round_div_bounds(bump * (clear * room), day_length * UNIT, 0, room as int);
    }
    let scale: u128 = day_length * UNIT as u128;
    let share: u128 = rounded_quotient(bump * (clear as u128 * room as u128), scale);
    Level::new(floor + share as u32)
}

} // verus!
