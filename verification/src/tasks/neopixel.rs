//! The procedural colour generator: which colour the strip gets next in each
//! mode, and whether it has to be written at all.
//!
//! The task around it reads the shared configuration, the clock, the random
//! number source and the sine of the elapsed time, hands them to `step`, and
//! writes the colour or yields, as the answer says.

use crate::colour::{hsv_colour, hue_colour, Rgb};
use crate::maths::{fib_advanced, fib_after, wrapped_sum, FibonacciWrapped};
use crate::{RgbConfig, RgbMode, TICKS_PER_SECOND};
use vstd::prelude::*;

verus! {

/// The window, in milliseconds, that the paced modes divide into periods.
pub const RATE_WINDOW: u64 = 5000;

/// Clock ticks in one millisecond.
pub const TICKS_PER_MILLI: u64 = 1000;

/// The number of hues that the continuous mode runs through.
pub const RAMP_HUES: u64 = 255;

/// What a random reading is divided by to give a hue.
pub const RANDOM_DIVISOR: u32 = 257;

/// What the task samples before each step.
#[derive(Clone, Copy, Debug, PartialEq, Eq)]
pub struct Readings {
    /// The clock, in ticks.
    pub now: u64,
    /// A number from the random number source.
    pub random: u32,
    /// The hue of the sine mode at this time.
    pub sine_hue: u8,
}

/// What the task does after a step.
#[derive(Clone, Copy, Debug, PartialEq, Eq, Structural)]
pub enum Emission {
    /// Yield to the other tasks and write nothing.
    Hold,
    /// Write this colour at this brightness.
    Write { colour: Rgb, level: u8 },
}

/// Why a step was turned down.
#[derive(Clone, Copy, Debug, PartialEq, Eq, Structural)]
pub enum ModeError {
    /// The mode's rate times the rate multiplier is 0 or more than the window.
    RateOutOfRange,
}

/// The speed of a mode: its rate times the configured multiplier.
pub open spec fn pace(rate: u32, config: RgbConfig) -> int {
    rate * config.rgb_rate_modifier.multiplier_of()
}

/// Whether a configuration cannot be served: a paced mode whose period would
/// be no whole millisecond.
pub open spec fn rejects(config: RgbConfig) -> bool {
    match config.rgb_mode {
        RgbMode::Random(rate) => !(1 <= pace(rate, config) <= RATE_WINDOW),
        RgbMode::Fibonacci(rate) => !(1 <= pace(rate, config) <= RATE_WINDOW),
        _ => false,
    }
}

/// The clock in milliseconds, kept to 32 bits.
pub open spec fn millis_of(now: u64) -> int {
    (now as int / TICKS_PER_MILLI as int) % 0x1_0000_0000
}

/// Whether a paced mode takes a new value at this time: the millisecond count
/// is a multiple of the mode's period.
pub open spec fn due(now: u64, pace: int) -> bool {
    millis_of(now) % (RATE_WINDOW as int / pace) == 0
}

/// The hue of the continuous mode: whole seconds elapsed times the pace,
/// starting over after the last hue.
pub open spec fn ramp_hue(now: u64, pace: int) -> u8 {
    ((now * pace / (TICKS_PER_SECOND as int)) % (RAMP_HUES as int)) as u8
}

/// The hue that a random reading gives.
pub open spec fn random_hue(random: u32) -> u8 {
    ((random as int / RANDOM_DIVISOR as int) % 256) as u8
}

/// What the generator holds, as plain values.
pub struct GeneratorState {
    /// The two terms that the Fibonacci sequence holds.
    pub terms: (u8, u8),
    /// The colour computed last.
    pub previous: Rgb,
}

impl GeneratorState {
    /// The state that a new generator starts in.
    pub open spec fn initial() -> GeneratorState {
        GeneratorState { terms: fib_after(0), previous: Rgb::black() }
    }

    /// Whether this step takes a term from the Fibonacci sequence.
    pub open spec fn takes_term(self, config: RgbConfig, readings: Readings) -> bool {
        config.rgb_mode matches RgbMode::Fibonacci(rate) && due(readings.now, pace(rate, config))
    }

    /// The colour that this step computes, or `None` where a paced mode skips
    /// the step.
    pub open spec fn target(self, config: RgbConfig, readings: Readings) -> Option<Rgb> {
        match config.rgb_mode {
            RgbMode::SineCycle(_) => Some(hsv_colour(readings.sine_hue, 255, 255)),
            RgbMode::Continuous(rate) => Some(
                hsv_colour(ramp_hue(readings.now, pace(rate, config)), 255, 255),
            ),
            RgbMode::Random(rate) => if due(readings.now, pace(rate, config)) {
                Some(hsv_colour(random_hue(readings.random), 255, 255))
            } else {
                None
            },
            RgbMode::Fibonacci(rate) => if due(readings.now, pace(rate, config)) {
                Some(hsv_colour(wrapped_sum(self.terms.0, self.terms.1), 255, 255))
            } else {
                None
            },
            RgbMode::Static(colour) => Some(colour),
        }
    }

    /// The state after a step that is served.
    pub open spec fn stepped(self, config: RgbConfig, readings: Readings) -> GeneratorState {
        GeneratorState {
            terms: if self.takes_term(config, readings) {
                fib_advanced(self.terms)
            } else {
                self.terms
            },
            previous: match self.target(config, readings) {
                Some(colour) => colour,
                None => self.previous,
            },
        }
    }

    /// What a step that is served asks for: a write where a colour is
    /// computed that differs from the one computed last, and nothing else.
    pub open spec fn emission(self, config: RgbConfig, readings: Readings) -> Emission {
        match self.target(config, readings) {
            Some(colour) => if colour == self.previous {
                Emission::Hold
            } else {
                Emission::Write { colour, level: config.rgb_brightness.level_of() }
            },
            None => Emission::Hold,
        }
    }
}

/// Two steps in a row that compute the same colour write it at most once: the
/// second step asks for nothing.
pub proof fn lemma_repeat_is_held(
    g: GeneratorState,
    first: RgbConfig,
    first_readings: Readings,
    second: RgbConfig,
    second_readings: Readings,
)
    requires
        g.target(first, first_readings) is Some,
        g.stepped(first, first_readings).target(second, second_readings) == g.target(
            first,
            first_readings,
        ),
    ensures
        g.stepped(first, first_readings).emission(second, second_readings) == Emission::Hold,
{
}

/// A step writes exactly when it computes a colour other than the one
/// computed last, and what it writes is that colour.
pub proof fn lemma_write_is_a_change(g: GeneratorState, config: RgbConfig, readings: Readings)
    ensures
        g.emission(config, readings) is Write <==> (g.target(config, readings) is Some && g.target(
            config,
            readings,
        ) != Some(g.previous)),
        g.emission(config, readings) matches Emission::Write { colour, level } ==> Some(colour)
            == g.target(config, readings) && g.stepped(config, readings).previous == colour,
{
}

/// Computes the colours of the procedural modes and remembers the last one.
pub struct ModeGenerator {
    fib: FibonacciWrapped,
    prev_colour: Rgb,
}

impl View for ModeGenerator {
    type V = GeneratorState;

    closed spec fn view(&self) -> GeneratorState {
        GeneratorState { terms: self.fib@, previous: self.prev_colour }
    }
}

/// The product of a mode's rate and the rate multiplier.
fn pace_of(rate: u32, config: &RgbConfig) -> (out: u64)
    ensures
        out == pace(rate, *config),
{
    let multiplier = config.rgb_rate_modifier.multiplier();
    assert(0 <= rate * multiplier <= 0xffff_ffff * 255) by (nonlinear_arith)
        requires
            0 <= rate <= 0xffff_ffff,
            0 <= multiplier <= 255,
    ;
    (rate as u64) * (multiplier as u64)
}

/// Whether a paced mode takes a new value at this time.
fn is_due(now: u64, pace: u64) -> (out: bool)
    requires
        1 <= pace <= RATE_WINDOW,
    ensures
        out == due(now, pace as int),
{
    let millis = (now / TICKS_PER_MILLI) % 0x1_0000_0000;
    let period = RATE_WINDOW / pace;
    assert(period >= 1) by (nonlinear_arith)
        requires
            period == RATE_WINDOW / pace,
            1 <= pace <= RATE_WINDOW,
    ;
    millis % period == 0
}

/// The hue of the continuous mode at this time.
fn ramp_hue_of(now: u64, pace: u64) -> (out: u8)
    requires
        pace <= 0xffff_ffff * 255,
    ensures
        out == ramp_hue(now, pace as int),
{
    assert(0 <= now * pace <= 0xffff_ffff_ffff_ffff * (0xffff_ffff * 255)) by (nonlinear_arith)
        requires
            0 <= now <= 0xffff_ffff_ffff_ffff,
            0 <= pace <= 0xffff_ffff * 255,
    ;
    let product: u128 = (now as u128) * (pace as u128);
    let hue: u128 = (product / (TICKS_PER_SECOND as u128)) % (RAMP_HUES as u128);
    hue as u8
}

impl ModeGenerator {
    /// A generator that has written nothing yet: its last colour is black and
    /// its Fibonacci sequence is new.
    pub fn new() -> (out: ModeGenerator)
        ensures
            out@ == GeneratorState::initial(),
    {
        ModeGenerator { fib: FibonacciWrapped::new(), prev_colour: Rgb::default() }
    }

    /// The colour computed last.
    pub fn previous(&self) -> (out: Rgb)
        ensures
            out == self@.previous,
    {
        self.prev_colour
    }

    /// One step of the generator: computes the colour of the configured mode
    /// and asks for a write if it differs from the colour computed last. A
    /// paced mode with a rate out of range is turned down and changes nothing.
    pub fn step(&mut self, config: &RgbConfig, readings: &Readings) -> (r: Result<
        Emission,
        ModeError,
    >)
        ensures
            match r {
                Ok(emission) => !rejects(*config) && emission == old(self)@.emission(
                    *config,
                    *readings,
                ) && final(self)@ == old(self)@.stepped(*config, *readings),
                Err(e) => rejects(*config) && e == ModeError::RateOutOfRange && final(self)@ == old(
                    self,
                )@,
            },
    {
        let colour = match config.rgb_mode {
            RgbMode::SineCycle(_) => hue_colour(readings.sine_hue),
            RgbMode::Continuous(rate) => {
                let pace = pace_of(rate, config);
                hue_colour(ramp_hue_of(readings.now, pace))
            },
            RgbMode::Random(rate) => {
                let pace = pace_of(rate, config);
                if pace < 1 || pace > RATE_WINDOW {
                    return Err(ModeError::RateOutOfRange);
                }
                if !is_due(readings.now, pace) {
                    return Ok(Emission::Hold);
                }
                hue_colour(((readings.random / RANDOM_DIVISOR) % 256) as u8)
            },
            RgbMode::Fibonacci(rate) => {
                let pace = pace_of(rate, config);
                if pace < 1 || pace > RATE_WINDOW {
                    return Err(ModeError::RateOutOfRange);
                }
                if !is_due(readings.now, pace) {
                    return Ok(Emission::Hold);
                }
                hue_colour(self.fib.next())
            },
            RgbMode::Static(colour) => colour,
        };
        // The colour is only written where it differs from the last one.
        if self.prev_colour == colour {
            return Ok(Emission::Hold);
        }
        self.prev_colour = colour;
        Ok(Emission::Write { colour, level: config.rgb_brightness.level() })
    }
}

} // verus!
