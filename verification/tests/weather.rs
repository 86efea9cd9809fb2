use adaptive_display::units::Level;
use adaptive_display::weather::{estimate_from_weather, WeatherSnapshot};

fn level_of(micros: u32) -> Level {
    Level::from_micros(micros).unwrap()
}

fn day(sunrise: i64, sunset: i64, cloud_micros: u32) -> WeatherSnapshot {
    WeatherSnapshot { sunrise, sunset, cloud_cover: level_of(cloud_micros) }
}

#[test]
fn clear_midday_is_full_brightness() {
    let snapshot = day(0, 86_400, 0);
    assert_eq!(estimate_from_weather(&snapshot, 43_200, level_of(600_000)).micros(), 1_000_000);
}

#[test]
fn overcast_midday_is_the_floor() {
    let snapshot = day(0, 86_400, 1_000_000);
    assert_eq!(estimate_from_weather(&snapshot, 43_200, level_of(600_000)).micros(), 600_000);
}

#[test]
fn night_is_exactly_the_floor() {
    let snapshot = day(21_600, 64_800, 0);
    let floor = level_of(600_000);
    assert_eq!(estimate_from_weather(&snapshot, 21_599, floor).micros(), 600_000);
    assert_eq!(estimate_from_weather(&snapshot, 64_801, floor).micros(), 600_000);
    assert_eq!(estimate_from_weather(&snapshot, 0, floor).micros(), 600_000);
    assert_eq!(estimate_from_weather(&snapshot, i64::MIN, floor).micros(), 600_000);
    assert_eq!(estimate_from_weather(&snapshot, i64::MAX, floor).micros(), 600_000);
    assert_eq!(estimate_from_weather(&snapshot, 30_000, level_of(123_456)).micros() >= 123_456, true);
    assert_eq!(estimate_from_weather(&snapshot, 10, level_of(123_456)).micros(), 123_456);
}

#[test]
fn sunrise_and_sunset_have_no_daylight_yet() {
    let snapshot = day(21_600, 64_800, 0);
    let floor = level_of(600_000);
    assert_eq!(estimate_from_weather(&snapshot, 21_600, floor).micros(), 600_000);
    assert_eq!(estimate_from_weather(&snapshot, 64_800, floor).micros(), 600_000);
}

#[test]
fn daylight_rises_and_falls_linearly() {
    let snapshot = day(0, 86_400, 0);
    let floor = level_of(600_000);
    assert_eq!(estimate_from_weather(&snapshot, 21_600, floor).micros(), 800_000);
    assert_eq!(estimate_from_weather(&snapshot, 64_800, floor).micros(), 800_000);
    assert_eq!(estimate_from_weather(&snapshot, 10_800, floor).micros(), 700_000);
    assert_eq!(estimate_from_weather(&snapshot, 75_600, floor).micros(), 700_000);
}

#[test]
fn cloud_cover_scales_the_daylight() {
    let floor = level_of(600_000);
    assert_eq!(estimate_from_weather(&day(0, 86_400, 250_000), 21_600, floor).micros(), 750_000);
    assert_eq!(estimate_from_weather(&day(0, 86_400, 500_000), 43_200, floor).micros(), 800_000);
    assert_eq!(estimate_from_weather(&day(0, 86_400, 750_000), 43_200, floor).micros(), 700_000);
}

#[test]
fn result_is_rounded_to_the_nearest_millionth() {
    let snapshot = day(0, 3, 0);
    assert_eq!(estimate_from_weather(&snapshot, 1, level_of(600_000)).micros(), 866_667);
    assert_eq!(estimate_from_weather(&snapshot, 2, level_of(600_000)).micros(), 866_667);
    assert_eq!(estimate_from_weather(&snapshot, 1, level_of(0)).micros(), 666_667);
    assert_eq!(estimate_from_weather(&day(0, 6, 0), 1, level_of(0)).micros(), 333_333);
}

#[test]
fn day_without_length_has_no_daylight() {
    let snapshot = day(500, 500, 0);
    assert_eq!(estimate_from_weather(&snapshot, 500, level_of(600_000)).micros(), 600_000);
}

#[test]
fn sunset_before_sunrise_is_night() {
    let snapshot = day(64_800, 21_600, 0);
    assert_eq!(estimate_from_weather(&snapshot, 43_200, level_of(600_000)).micros(), 600_000);
}

#[test]
fn widest_day_does_not_overflow() {
    let snapshot = day(i64::MIN, i64::MAX, 0);
    assert_eq!(estimate_from_weather(&snapshot, 0, level_of(600_000)).micros(), 1_000_000);
    assert_eq!(estimate_from_weather(&snapshot, -1, level_of(600_000)).micros(), 1_000_000);
    assert_eq!(estimate_from_weather(&snapshot, i64::MIN, level_of(600_000)).micros(), 600_000);
    assert_eq!(estimate_from_weather(&snapshot, i64::MAX, level_of(600_000)).micros(), 600_000);
}

#[test]
fn weather_estimate_stays_between_floor_and_one() {
    for cloud in [0u32, 1, 333_333, 1_000_000] {
        for floor in [0u32, 600_000, 1_000_000] {
            for now in [-5i64, 0, 1, 999, 5000, 9999, 10_000, 10_001] {
                let b = estimate_from_weather(&day(0, 10_000, cloud), now, level_of(floor)).micros();
                assert!(floor <= b && b <= 1_000_000);
            }
        }
    }
}

#[test]
fn weather_estimate_is_repeatable() {
    let snapshot = day(100, 90_000, 420_000);
    let first = estimate_from_weather(&snapshot, 33_333, level_of(600_000));
    let second = estimate_from_weather(&snapshot, 33_333, level_of(600_000));
    assert_eq!(first, second);
}
