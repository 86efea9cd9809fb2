//! The settings that one run of the controller works under.

use vstd::prelude::*;
use crate::units::{ColorTemperature, Level};

verus! {

/// Default floor of every brightness, in millionths.
pub const DEFAULT_MIN_BRIGHTNESS: u32 = 600_000;

/// Default colour temperature at full day, in millikelvin.
pub const DEFAULT_DAY_TEMP: u32 = 6_500_000;

/// Default colour temperature at full night, in millikelvin.
pub const DEFAULT_NIGHT_TEMP: u32 = 3_500_000;

/// Default width of the evening ramp, in milliseconds (two hours).
pub const DEFAULT_TRANSITION_MILLIS: u32 = 7_200_000;

/// What the user configured. The core only reads it.
pub struct Configuration {
    /// Floor of every brightness the controller chooses.
    pub min_brightness: Level,
    /// Colour temperature at full day.
    pub day_temp: ColorTemperature,
    /// Colour temperature at full night.
    pub night_temp: ColorTemperature,
    /// Width of the evening ramp from day to night, in milliseconds.
    pub transition_millis: u32,
    /// Monitors named by the user; when present, no enumeration takes place.
    pub monitor_names: Option<Vec<String>>,
    /// Credential of the weather service, needed only when the camera fails.
    pub api_key: Option<String>,
}

impl Default for Configuration {
    fn default() -> (cfg: Configuration)
        ensures
            cfg.min_brightness@ == DEFAULT_MIN_BRIGHTNESS,
            cfg.day_temp@ == DEFAULT_DAY_TEMP,
            cfg.night_temp@ == DEFAULT_NIGHT_TEMP,
            cfg.transition_millis == DEFAULT_TRANSITION_MILLIS,
            cfg.monitor_names is None,
            cfg.api_key is None,
    {
        Configuration {
            min_brightness: Level::new(DEFAULT_MIN_BRIGHTNESS),
            day_temp: ColorTemperature::from_millikelvin(DEFAULT_DAY_TEMP),
            night_temp: ColorTemperature::from_millikelvin(DEFAULT_NIGHT_TEMP),
            transition_millis: DEFAULT_TRANSITION_MILLIS,
            monitor_names: None,
            api_key: None,
        }
    }
}

} // verus!
