//! From a colour temperature to the gamma multiplier of each channel.
//!
//! The black-body approximation is piecewise. Below the seam red is
//! saturated and green follows a logarithmic curve; above it both follow
//! power curves. Blue is saturated from the seam on, dark at and below the
//! cutoff, and logarithmic in between. This module decides which piece
//! applies to each channel and at which argument the curve is to be
//! evaluated, and it confines what the evaluation returns to the unit
//! interval. The evaluation itself needs real logarithms and powers and is
//! left to the caller.

use vstd::prelude::*;
use crate::units::{clamp_unit, ColorTemperature, Level, UNIT};

verus! {

/// The temperature, in millikelvin, at which the pieces of the red, green and
/// blue curves meet (6600 K).
pub const SEAM: u32 = 6_600_000;

/// The temperature, in millikelvin, at and below which blue is dark (1900 K).
pub const BLUE_CUTOFF: u32 = 1_900_000;

/// What the two power curves subtract from the temperature before they are
/// evaluated (6000 K).
pub const POWER_ORIGIN: u32 = 6_000_000;

/// What the blue logarithmic curve subtracts from the temperature before it
/// is evaluated (1000 K).
pub const BLUE_ORIGIN: u32 = 1_000_000;

/// The four curves of the approximation.
#[derive(Clone, Copy, Debug, PartialEq, Eq)]
pub enum Curve {
    /// Red above the seam: a power of the argument.
    RedPower,
    /// Green up to the seam: a logarithm of the argument.
    GreenLog,
    /// Green above the seam: a power of the argument.
    GreenPower,
    /// Blue between cutoff and seam: a logarithm of the argument.
    BlueLog,
}

/// How one channel is obtained at a given temperature.
#[derive(Clone, Copy, Debug, PartialEq, Eq)]
pub enum ChannelRule {
    /// The channel is zero.
    Dark,
    /// The channel is one.
    Saturated,
    /// The channel is the value of `curve` at `argument` millikelvin, confined
    /// to the unit interval.
    Follow { curve: Curve, argument: u32 },
}

/// The rule for red at `temp` millikelvin.
pub open spec fn red_rule(temp: int) -> ChannelRule {
    if temp <= SEAM {
        ChannelRule::Saturated
    } else {
        ChannelRule::Follow { curve: Curve::RedPower, argument: (temp - POWER_ORIGIN) as u32 }
    }
}

/// The rule for green at `temp` millikelvin.
pub open spec fn green_rule(temp: int) -> ChannelRule {
    if temp <= SEAM {
        ChannelRule::Follow { curve: Curve::GreenLog, argument: temp as u32 }
    } else {
        ChannelRule::Follow { curve: Curve::GreenPower, argument: (temp - POWER_ORIGIN) as u32 }
    }
}

/// The rule for blue at `temp` millikelvin.
pub open spec fn blue_rule(temp: int) -> ChannelRule {
    if temp >= SEAM {
        ChannelRule::Saturated
    } else if temp <= BLUE_CUTOFF {
        ChannelRule::Dark
    } else {
        ChannelRule::Follow { curve: Curve::BlueLog, argument: (temp - BLUE_ORIGIN) as u32 }
    }
}

/// The level of a channel under `rule` when the curve, where one is followed,
/// was evaluated to `sample` millionths.
pub open spec fn settle(rule: ChannelRule, sample: int) -> int {
    match rule {
        ChannelRule::Dark => 0,
        ChannelRule::Saturated => UNIT as int,
        ChannelRule::Follow { .. } => clamp_unit(sample),
    }
}

/// The rules of the three channels at one temperature.
#[derive(Clone, Copy, Debug, PartialEq, Eq)]
pub struct ChannelRules {
    pub red: ChannelRule,
    pub green: ChannelRule,
    pub blue: ChannelRule,
}

/// What the evaluation of the curves returned, in millionths and before any
/// clamping. The entry of a channel that follows no curve is not read.
#[derive(Clone, Copy, Debug, PartialEq, Eq)]
pub struct CurveSamples {
    pub red: i64,
    pub green: i64,
    pub blue: i64,
}

/// The gamma multipliers of the three channels.
#[derive(Clone, Copy, Debug, PartialEq, Eq)]
pub struct GammaTriple {
    pub red: Level,
    pub green: Level,
    pub blue: Level,
}

impl GammaTriple {
    /// Red, green and blue in millionths.
    pub open spec fn view(self) -> (int, int, int) {
        (self.red@, self.green@, self.blue@)
    }
}

/// The gamma triple, in millionths, at `temp` millikelvin for the given
/// curve values.
pub open spec fn gamma_spec(temp: int, samples: CurveSamples) -> (int, int, int) {
    (
        settle(red_rule(temp), samples.red as int),
        settle(green_rule(temp), samples.green as int),
        settle(blue_rule(temp), samples.blue as int),
    )
}

/// Whatever the temperature and whatever the curves evaluate to, every
/// channel lies in the unit interval.
pub proof fn gamma_within_unit_interval(temp: int, samples: CurveSamples)
    ensures
        0 <= gamma_spec(temp, samples).0 <= UNIT,
        0 <= gamma_spec(temp, samples).1 <= UNIT,
        0 <= gamma_spec(temp, samples).2 <= UNIT,
{
}

/// At the seam, red and blue are both saturated: red by the lower piece, blue
/// by the upper one, so neither depends on a curve there.
pub proof fn gamma_at_seam(samples: CurveSamples)
    ensures
        gamma_spec(SEAM as int, samples).0 == UNIT,
        gamma_spec(SEAM as int, samples).2 == UNIT,
{
}

/// From the seam upwards blue stays saturated, and red stays saturated for
/// as long as its curve evaluates to one or more: there is no jump across
/// the seam from the upper piece while the red curve has not come below one.
pub proof fn gamma_saturated_above_seam(temp: int, samples: CurveSamples)
    requires
        temp >= SEAM,
        samples.red >= UNIT,
    ensures
        gamma_spec(temp, samples).0 == gamma_spec(SEAM as int, samples).0,
        gamma_spec(temp, samples).2 == gamma_spec(SEAM as int, samples).2,
        gamma_spec(temp, samples).0 == UNIT,
        gamma_spec(temp, samples).2 == UNIT,
{
}

/// Two triples that both meet the contract of the conversion for the same
/// temperature and curve values are the same triple.
pub proof fn kelvin_to_gamma_is_deterministic(
    first: GammaTriple,
    second: GammaTriple,
    temp: int,
    samples: CurveSamples,
)
    requires
        first@ == gamma_spec(temp, samples),
        second@ == gamma_spec(temp, samples),
    ensures
        first == second,
{
    Level::equal_by_view(first.red, second.red);
    Level::equal_by_view(first.green, second.green);
    Level::equal_by_view(first.blue, second.blue);
}

impl ChannelRule {
    /// The level of the channel once its curve has been evaluated to `sample`
    /// millionths.
    pub fn settle(&self, sample: i64) -> (level: Level)
        ensures
            level@ == settle(*self, sample as int),
    {
        match self {
            ChannelRule::Dark => Level::zero(),
            ChannelRule::Saturated => Level::full(),
            ChannelRule::Follow { .. } => Level::clamped(sample),
        }
    }
}

/// The rules by which the three channels are obtained at `temp`.
pub fn channel_rules(temp: ColorTemperature) -> (rules: ChannelRules)
    ensures
        rules.red == red_rule(temp@),
        rules.green == green_rule(temp@),
        rules.blue == blue_rule(temp@),
{
    let t: u32 = temp.millikelvin;
    let red = if t <= SEAM {
        ChannelRule::Saturated
    } else {
        ChannelRule::Follow { curve: Curve::RedPower, argument: t - POWER_ORIGIN }
    };
    let green = if t <= SEAM {
        ChannelRule::Follow { curve: Curve::GreenLog, argument: t }
    } else {
        ChannelRule::Follow { curve: Curve::GreenPower, argument: t - POWER_ORIGIN }
    };
    let blue = if t >= SEAM {
        ChannelRule::Saturated
    } else if t <= BLUE_CUTOFF {
        ChannelRule::Dark
    } else {
        ChannelRule::Follow { curve: Curve::BlueLog, argument: t - BLUE_ORIGIN }
    };
    ChannelRules { red, green, blue }
}

/// The gamma triple at `temp`, given what the curves evaluate to there.
pub fn kelvin_to_gamma(temp: ColorTemperature, samples: CurveSamples) -> (gamma: GammaTriple)
    ensures
        gamma@ == gamma_spec(temp@, samples),
        temp@ == SEAM ==> gamma.red@ == UNIT && gamma.blue@ == UNIT,
{
    let rules = channel_rules(temp);
    GammaTriple {
        red: rules.red.settle(samples.red),
        green: rules.green.settle(samples.green),
        blue: rules.blue.settle(samples.blue),
    }
}

} // verus!
