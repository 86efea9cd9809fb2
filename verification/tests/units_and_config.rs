use adaptive_display::config::{
    Configuration, DEFAULT_DAY_TEMP, DEFAULT_MIN_BRIGHTNESS, DEFAULT_NIGHT_TEMP,
    DEFAULT_TRANSITION_MILLIS,
};
use adaptive_display::error::ErrorKind;
use adaptive_display::units::{ColorTemperature, Level, UNIT};

#[test]
fn level_accepts_the_unit_interval() {
    assert_eq!(Level::from_micros(0).unwrap().micros(), 0);
    assert_eq!(Level::from_micros(600_000).unwrap().micros(), 600_000);
    assert_eq!(Level::from_micros(UNIT).unwrap().micros(), 1_000_000);
}

#[test]
fn level_rejects_more_than_one() {
    assert!(Level::from_micros(UNIT + 1).is_none());
    assert!(Level::from_micros(u32::MAX).is_none());
}

#[test]
fn level_clamps_to_the_unit_interval() {
    assert_eq!(Level::clamped(-1).micros(), 0);
    assert_eq!(Level::clamped(i64::MIN).micros(), 0);
    assert_eq!(Level::clamped(0).micros(), 0);
    assert_eq!(Level::clamped(755_035).micros(), 755_035);
    assert_eq!(Level::clamped(1_000_000).micros(), 1_000_000);
    assert_eq!(Level::clamped(1_000_001).micros(), 1_000_000);
    assert_eq!(Level::clamped(i64::MAX).micros(), 1_000_000);
}

#[test]
fn level_end_points() {
    assert_eq!(Level::zero().micros(), 0);
    assert_eq!(Level::full().micros(), UNIT);
    assert_eq!(Level::full(), Level::from_micros(1_000_000).unwrap());
}

#[test]
fn temperature_from_kelvin() {
    assert_eq!(ColorTemperature::from_kelvin(6500).unwrap().millikelvin, 6_500_000);
    assert_eq!(ColorTemperature::from_kelvin(0).unwrap().millikelvin, 0);
    assert_eq!(ColorTemperature::from_kelvin(4_294_967).unwrap().millikelvin, 4_294_967_000);
    assert!(ColorTemperature::from_kelvin(4_294_968).is_none());
    assert!(ColorTemperature::from_kelvin(u32::MAX).is_none());
}

#[test]
fn temperature_from_millikelvin() {
    assert_eq!(ColorTemperature::from_millikelvin(3_500_250).millikelvin, 3_500_250);
    assert_eq!(
        ColorTemperature::from_millikelvin(6_500_000),
        ColorTemperature::from_kelvin(6500).unwrap()
    );
}

#[test]
fn default_configuration() {
    let cfg = Configuration::default();
    assert_eq!(cfg.min_brightness.micros(), 600_000);
    assert_eq!(cfg.day_temp.millikelvin, 6_500_000);
    assert_eq!(cfg.night_temp.millikelvin, 3_500_000);
    assert_eq!(cfg.transition_millis, 7_200_000);
    assert!(cfg.monitor_names.is_none());
    assert!(cfg.api_key.is_none());
    assert_eq!(DEFAULT_MIN_BRIGHTNESS, 600_000);
    assert_eq!(DEFAULT_DAY_TEMP, 6_500_000);
    assert_eq!(DEFAULT_NIGHT_TEMP, 3_500_000);
    assert_eq!(DEFAULT_TRANSITION_MILLIS, 2 * 60 * 60 * 1000);
}

#[test]
fn only_some_failures_end_the_run() {
    assert!(!ErrorKind::EstimatorUnavailable.is_fatal());
    assert!(ErrorKind::MissingCredential.is_fatal());
    assert!(ErrorKind::NetworkFailure.is_fatal());
    assert!(ErrorKind::ParseFailure.is_fatal());
    assert!(ErrorKind::NoMonitorsFound.is_fatal());
    assert!(!ErrorKind::ApplyFailure.is_fatal());
}
