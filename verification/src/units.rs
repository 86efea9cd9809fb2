//! The scalar quantities of the pipeline and their fixed-point units.

use vstd::prelude::*;

verus! {

/// Number of fixed-point steps in the unit interval: a level is counted in
/// millionths.
pub const UNIT: u32 = 1_000_000;

/// Millikelvin in one kelvin.
pub const MILLIKELVIN_PER_KELVIN: u32 = 1_000;

/// The value of the unit interval nearest to `raw` millionths.
pub open spec fn clamp_unit(raw: int) -> int {
    if raw < 0 {
        0
    } else if raw > UNIT as int {
        UNIT as int
    } else {
        raw
    }
}

/// A value of the closed unit interval, in millionths: a brightness, a gamma
/// multiplier, a fraction of the sky covered by cloud.
#[derive(Clone, Copy, Debug, PartialEq, Eq)]
pub struct Level {
    micros: u32,
}

impl Level {
    #[verifier::type_invariant]
    spec fn within_unit_interval(self) -> bool {
        self.micros <= UNIT
    }

    /// The level in millionths.
    pub closed spec fn view(self) -> int {
        self.micros as int
    }

    /// The level of `micros` millionths, if that is at most one.
    pub fn from_micros(micros: u32) -> (level: Option<Level>)
        ensures
            level is Some <==> micros <= UNIT,
            level matches Some(l) ==> l@ == micros,
    {
        if micros <= UNIT {
            Some(Level { micros })
        } else {
            None
        }
    }

    /// The level nearest to `raw` millionths: negative values become zero,
    /// values above one become one.
    pub fn clamped(raw: i64) -> (level: Level)
        ensures
            level@ == clamp_unit(raw as int),
    {
        if raw < 0 {
            Level { micros: 0 }
        } else if raw > UNIT as i64 {
            Level { micros: UNIT }
        } else {
            Level { micros: raw as u32 }
        }
    }

    /// The lowest level.
    pub fn zero() -> (level: Level)
        ensures
            level@ == 0,
    {
        Level { micros: 0 }
    }

    /// The highest level.
    pub fn full() -> (level: Level)
        ensures
            level@ == UNIT,
    {
        Level { micros: UNIT }
    }

    /// The level in millionths, which never exceeds [`UNIT`].
    pub fn micros(&self) -> (micros: u32)
        ensures
            micros == self@,
            micros <= UNIT,
    {
        proof {
            use_type_invariant(self);
        }
        self.micros
    }

    /// A level is nothing but its number of millionths: two levels of the
    /// same value are the same level.
    pub proof fn equal_by_view(first: Level, second: Level)
        requires
            first@ == second@,
        ensures
            first == second,
    {
    }

    /// Builds a level from a value already known to be in range.
    pub(crate) fn new(micros: u32) -> (level: Level)
        requires
            micros <= UNIT,
        ensures
            level@ == micros,
    {
        Level { micros }
    }
}

/// A colour temperature.
#[derive(Clone, Copy, Debug, PartialEq, Eq)]
pub struct ColorTemperature {
    /// The temperature in thousandths of a kelvin.
    pub millikelvin: u32,
}

impl ColorTemperature {
    /// The temperature in millikelvin.
    pub open spec fn view(self) -> int {
        self.millikelvin as int
    }

    /// The temperature of `kelvin` whole kelvin, if it can be represented.
    pub fn from_kelvin(kelvin: u32) -> (temp: Option<ColorTemperature>)
        ensures
            temp is Some <==> kelvin * MILLIKELVIN_PER_KELVIN <= u32::MAX,
            temp matches Some(t) ==> t@ == kelvin * MILLIKELVIN_PER_KELVIN,
    {
        if kelvin <= u32::MAX / MILLIKELVIN_PER_KELVIN {
            Some(ColorTemperature { millikelvin: kelvin * MILLIKELVIN_PER_KELVIN })
        } else {
            None
        }
    }

    /// The temperature of `millikelvin` thousandths of a kelvin.
    pub fn from_millikelvin(millikelvin: u32) -> (temp: ColorTemperature)
        ensures
            temp@ == millikelvin,
    {
        ColorTemperature { millikelvin }
    }
}

} // verus!
