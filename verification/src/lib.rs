//! Ambient-light-adaptive display control.
//!
//! The crate turns an estimate of the surrounding light (from a camera frame
//! or from a weather report) and the local time of day into one brightness
//! and one gamma triple per monitor. Every quantity is a fixed-point integer:
//! levels of the unit interval are counted in millionths, colour temperatures
//! in millikelvin, the time of day in minutes, the width of the evening ramp
//! in milliseconds. Results that the real-valued formulas leave between two
//! steps are rounded to the nearest one, halves upward.
//!
//! The crate reads no clock, no device and no network: the instant, the
//! wall-clock time, the frame and the weather report are handed to it.

pub mod config;
pub mod error;
pub mod frame;
pub mod gamma;
pub mod monitors;
pub mod planner;
pub mod policy;
pub mod rounding;
pub mod schedule;
pub mod units;
pub mod weather;
