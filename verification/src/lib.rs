//! Control logic of a small programming fixture: what the LED strip shows on
//! each tick, how the procedural colour modes evolve, and how a button press is
//! classified by the time it was held.
//!
//! Every function here works on plain values. The firmware around it reads the
//! clock, the button and the command channel, and carries the results to the
//! hardware.

use crate::colour::Rgb;
use vstd::prelude::*;

pub mod animations;
mod clock;
pub mod colour;
pub mod drivers;
pub mod maths;
pub mod tasks;

verus! {

/// The display animation update interval in milliseconds.
pub const ANIMATION_UPDATE: u64 = 250;

/// The default colour for the LED strip (green).
pub const DEFAULT_COLOUR: [u8; 3] = [0, 255, 0];

/// The number of LEDs in the string being driven.
pub const LED_STRING_SIZE: usize = 1;

/// The maximum number of pending animations in the animation queue.
pub const MAX_PENDING_ANIMATIONS: usize = 20;

/// Clock ticks in one second. All times in this crate are counted in ticks.
pub const TICKS_PER_SECOND: u64 = 1_000_000;

/// How bright the procedural modes show their colour.
#[derive(Debug, Clone, Copy, PartialEq, Eq, Structural)]
pub enum RgbBrightness {
    Low,
    Medium,
    High,
    Max,
}

impl RgbBrightness {
    /// The brightness as a level from 0 to 255.
    pub open spec fn level_of(self) -> u8 {
        match self {
            RgbBrightness::Low => 10,
            RgbBrightness::Medium => 100,
            RgbBrightness::High => 200,
            RgbBrightness::Max => 255,
        }
    }

    /// The brightness as a level from 0 to 255.
    #[verifier::when_used_as_spec(level_of)]
    pub fn level(self) -> (out: u8)
        ensures
            out == self.level_of(),
    {
        match self {
            RgbBrightness::Low => 10,
            RgbBrightness::Medium => 100,
            RgbBrightness::High => 200,
            RgbBrightness::Max => 255,
        }
    }
}

/// How fast the procedural modes move. Values roughly model an exponential
/// curve (rounded to the nearest integer).
#[derive(Debug, Clone, Copy, PartialEq, Eq, Structural)]
pub enum RgbRate {
    VerySlow,
    Slow,
    Moderate,
    Fast,
    VeryFast,
}

impl RgbRate {
    /// The number that a mode's rate is multiplied by.
    pub open spec fn multiplier_of(self) -> u8 {
        match self {
            RgbRate::VerySlow => 1,
            RgbRate::Slow => 3,
            RgbRate::Moderate => 7,
            RgbRate::Fast => 20,
            RgbRate::VeryFast => 55,
        }
    }

    /// The number that a mode's rate is multiplied by.
    #[verifier::when_used_as_spec(multiplier_of)]
    pub fn multiplier(self) -> (out: u8)
        ensures
            out == self.multiplier_of(),
    {
        match self {
            RgbRate::VerySlow => 1,
            RgbRate::Slow => 3,
            RgbRate::Moderate => 7,
            RgbRate::Fast => 20,
            RgbRate::VeryFast => 55,
        }
    }
}

/// The ways in which the procedural generator picks a colour.
#[derive(Debug, Clone, Copy, PartialEq, Eq, Structural)]
pub enum RgbMode {
    /// The hue swings with the sine of the time, at the given rate.
    SineCycle(u32),
    /// The hue climbs with the time, at the given rate, and starts over.
    Continuous(u32),
    /// A random hue, drawn anew at the given rate.
    Random(u32),
    /// The next term of the wrapped Fibonacci sequence as the hue, at the
    /// given rate.
    Fibonacci(u32),
    /// The colour as it is.
    Static(Rgb),
}

/// The configuration that the procedural generator reads before each step and
/// that the button and the command path write.
#[derive(Debug, Clone, Copy, PartialEq, Eq, Structural)]
pub struct RgbConfig {
    pub rgb_mode: RgbMode,
    pub rgb_brightness: RgbBrightness,
    pub rgb_rate_modifier: RgbRate,
}

impl RgbConfig {
    /// The configuration that the firmware starts with.
    pub open spec fn initial() -> RgbConfig {
        RgbConfig {
            rgb_mode: RgbMode::SineCycle(1),
            rgb_brightness: RgbBrightness::Low,
            rgb_rate_modifier: RgbRate::Moderate,
        }
    }

    /// Replaces the mode and leaves the rest as it is.
    pub fn set_mode(&mut self, mode: RgbMode)
        ensures
            *final(self) == (RgbConfig { rgb_mode: mode, ..*old(self) }),
    {
        self.rgb_mode = mode;
    }
}

impl Default for RgbConfig {
    fn default() -> (out: RgbConfig)
        ensures
            out == RgbConfig::initial(),
    {
        RgbConfig {
            rgb_mode: RgbMode::SineCycle(1),
            rgb_brightness: RgbBrightness::Low,
            rgb_rate_modifier: RgbRate::Moderate,
        }
    }
}

} // verus!
