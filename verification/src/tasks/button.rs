//! The button hold classifier: tells a tap from a hold of half a second and
//! from a hold of a full second, and shows the hold on the strip while it
//! lasts.
//!
//! The task around it waits for the button's edges and for the hold timer,
//! hands each to `handle`, and does what the reaction says.

use crate::colour::Rgb;
use crate::{RgbConfig, RgbMode};
use vstd::prelude::*;

verus! {

/// How a press ended.
#[derive(Debug, Clone, Copy, PartialEq, Eq, Structural)]
pub enum ButtonEvent {
    Press,
    HoldHalfSecond,
    HoldFullSecond,
}

/// A press has to last longer than this many ticks to count at all.
pub const DEBOUNCE_TICKS: u64 = 25_000;

/// A press that lasts longer than this many ticks is a hold of half a second.
pub const HALF_HOLD_TICKS: u64 = 500_000;

/// A press that lasts longer than this many ticks is a hold of a full second.
pub const FULL_HOLD_TICKS: u64 = 1_000_000;

/// The colour that the strip shows once the button is held for half a second.
pub const HALF_HOLD_COLOUR: [u8; 3] = [190, 240, 255];

/// The colour that the strip shows once the button is held for a full second.
pub const FULL_HOLD_COLOUR: [u8; 3] = [0, 0, 255];

/// The event that a press of the given length publishes, if any.
pub open spec fn classified(held: u64) -> Option<ButtonEvent> {
    if held <= DEBOUNCE_TICKS {
        None
    } else if held > FULL_HOLD_TICKS {
        Some(ButtonEvent::HoldFullSecond)
    } else if held > HALF_HOLD_TICKS {
        Some(ButtonEvent::HoldHalfSecond)
    } else {
        Some(ButtonEvent::Press)
    }
}

/// Classifies a press by the number of ticks it lasted. A press no longer than
/// the debounce threshold is noise and publishes nothing.
pub fn classify(held: u64) -> (event: Option<ButtonEvent>)
    ensures
        event == classified(held),
        event is None <==> held <= DEBOUNCE_TICKS,
        event == Some(ButtonEvent::Press) <==> DEBOUNCE_TICKS < held <= HALF_HOLD_TICKS,
        event == Some(ButtonEvent::HoldHalfSecond) <==> HALF_HOLD_TICKS < held <= FULL_HOLD_TICKS,
        event == Some(ButtonEvent::HoldFullSecond) <==> FULL_HOLD_TICKS < held,
{
    if held > DEBOUNCE_TICKS {
        if held > FULL_HOLD_TICKS {
            Some(ButtonEvent::HoldFullSecond)
        } else if held > HALF_HOLD_TICKS {
            Some(ButtonEvent::HoldHalfSecond)
        } else {
            Some(ButtonEvent::Press)
        }
    } else {
        None
    }
}

/// The ticks from `since` to `now`, or 0 if the clock shows less than it did.
pub open spec fn held_for(since: u64, now: u64) -> u64 {
    if now >= since {
        (now - since) as u64
    } else {
        0
    }
}

/// Where a press stands.
#[derive(Debug, Clone, Copy, PartialEq, Eq, Structural)]
pub enum HoldPhase {
    /// The button is up.
    Idle,
    /// The button went down at `since` and no hold timer has run out.
    Timing { since: u64 },
    /// The button has been down for half a second. `previous` is the mode
    /// that the strip was in.
    HeldHalf { since: u64, previous: RgbMode },
    /// The button has been down for a full second.
    HeldFull { since: u64, previous: RgbMode },
}

/// What the task saw.
#[derive(Debug, Clone, Copy, PartialEq, Eq, Structural)]
pub enum ButtonInput {
    /// The button went down at this tick.
    Down(u64),
    /// The button came up at this tick.
    Up(u64),
    /// The hold timer of half a second ran out.
    Timeout,
}

/// What the task waits for next.
#[derive(Debug, Clone, Copy, PartialEq, Eq, Structural)]
pub enum Wait {
    /// The button to go down.
    Press,
    /// The button to come up, or the hold timer to run out.
    ReleaseOrTimeout,
    /// The button to come up.
    Release,
}

/// What the task does after an input.
#[derive(Debug, Clone, Copy, PartialEq, Eq, Structural)]
pub struct Reaction {
    /// The event to publish, if any.
    pub event: Option<ButtonEvent>,
    /// Whether the indicator LED is lit.
    pub indicator: bool,
    /// What to wait for next.
    pub wait: Wait,
}

/// The mode that shows a hold of half a second.
pub open spec fn half_hold_mode() -> RgbMode {
    RgbMode::Static(Rgb::of_channels(HALF_HOLD_COLOUR@))
}

/// The mode that shows a hold of a full second.
pub open spec fn full_hold_mode() -> RgbMode {
    RgbMode::Static(Rgb::of_channels(FULL_HOLD_COLOUR@))
}

impl HoldPhase {
    /// The phase after an input, where `mode` is the configured mode at the
    /// time. An input that the phase does not expect changes nothing.
    pub open spec fn after(self, input: ButtonInput, mode: RgbMode) -> HoldPhase {
        match (self, input) {
            (HoldPhase::Idle, ButtonInput::Down(at)) => HoldPhase::Timing { since: at },
            (HoldPhase::Timing { since }, ButtonInput::Timeout) => HoldPhase::HeldHalf {
                since,
                previous: mode,
            },
            (HoldPhase::HeldHalf { since, previous }, ButtonInput::Timeout) => HoldPhase::HeldFull {
                since,
                previous,
            },
            (HoldPhase::Timing { .. }, ButtonInput::Up(_)) => HoldPhase::Idle,
            (HoldPhase::HeldHalf { .. }, ButtonInput::Up(_)) => HoldPhase::Idle,
            (HoldPhase::HeldFull { .. }, ButtonInput::Up(_)) => HoldPhase::Idle,
            _ => self,
        }
    }

    /// The configured mode after an input: the hold colours while the button
    /// is held, and the mode from before the hold once it comes up.
    pub open spec fn mode_after(self, input: ButtonInput, mode: RgbMode) -> RgbMode {
        match (self, input) {
            (HoldPhase::Timing { .. }, ButtonInput::Timeout) => half_hold_mode(),
            (HoldPhase::HeldHalf { .. }, ButtonInput::Timeout) => full_hold_mode(),
            (HoldPhase::HeldHalf { previous, .. }, ButtonInput::Up(_)) => previous,
            (HoldPhase::HeldFull { previous, .. }, ButtonInput::Up(_)) => previous,
            _ => mode,
        }
    }

    /// The tick at which the press began, if the button is down.
    pub open spec fn since(self) -> Option<u64> {
        match self {
            HoldPhase::Idle => None,
            HoldPhase::Timing { since } => Some(since),
            HoldPhase::HeldHalf { since, .. } => Some(since),
            HoldPhase::HeldFull { since, .. } => Some(since),
        }
    }

    /// The event that an input publishes: when the button comes up, the class
    /// of the time it was down.
    pub open spec fn published(self, input: ButtonInput) -> Option<ButtonEvent> {
        match (self.since(), input) {
            (Some(since), ButtonInput::Up(at)) => classified(held_for(since, at)),
            _ => None,
        }
    }

    /// What the task waits for in this phase.
    pub open spec fn awaits(self) -> Wait {
        match self {
            HoldPhase::Idle => Wait::Press,
            HoldPhase::Timing { .. } => Wait::ReleaseOrTimeout,
            HoldPhase::HeldHalf { .. } => Wait::ReleaseOrTimeout,
            HoldPhase::HeldFull { .. } => Wait::Release,
        }
    }

    /// What the task does after an input.
    pub open spec fn reaction(self, input: ButtonInput, mode: RgbMode) -> Reaction {
        Reaction {
            event: self.published(input),
            indicator: self.after(input, mode) != HoldPhase::Idle,
            wait: self.after(input, mode).awaits(),
        }
    }
}

/// A classifier together with the configured mode that it overrides.
pub struct HoldState {
    pub phase: HoldPhase,
    pub mode: RgbMode,
}

impl HoldState {
    /// The state after an input.
    pub open spec fn fed(self, input: ButtonInput) -> HoldState {
        HoldState {
            phase: self.phase.after(input, self.mode),
            mode: self.phase.mode_after(input, self.mode),
        }
    }

    /// The state after the hold timer has run out `n` times.
    pub open spec fn timed_out(self, n: nat) -> HoldState
        decreases n,
    {
        if n == 0 {
            self
        } else {
            self.timed_out((n - 1) as nat).fed(ButtonInput::Timeout)
        }
    }

    /// Whether this state belongs to a press that began at `since` while the
    /// mode was `mode`: the button is down since then, and the mode is either
    /// still in place or kept for the release.
    pub open spec fn holds(self, since: u64, mode: RgbMode) -> bool {
        match self.phase {
            HoldPhase::Idle => false,
            HoldPhase::Timing { since: s } => s == since && self.mode == mode,
            HoldPhase::HeldHalf { since: s, previous } => s == since && previous == mode,
            HoldPhase::HeldFull { since: s, previous } => s == since && previous == mode,
        }
    }
}

/// However often the hold timer runs out after the button went down, the
/// press keeps its start and the mode from before it.
pub proof fn lemma_hold_is_kept(mode: RgbMode, down: u64, timeouts: nat)
    ensures
        (HoldState { phase: HoldPhase::Idle, mode }).fed(ButtonInput::Down(down)).timed_out(
            timeouts,
        ).holds(down, mode),
    decreases timeouts,
{
    if timeouts > 0 {
        lemma_hold_is_kept(mode, down, (timeouts - 1) as nat);
    }
}

/// A press and its release, with the hold timer running out any number of
/// times in between, publish the class of the time from down to up and leave
/// the classifier idle and the configured mode as it was before the press.
pub proof fn lemma_press_cycle(mode: RgbMode, down: u64, up: u64, timeouts: nat)
    ensures
        ({
            let start = HoldState { phase: HoldPhase::Idle, mode };
            let held = start.fed(ButtonInput::Down(down)).timed_out(timeouts);
            &&& held.phase.published(ButtonInput::Up(up)) == classified(held_for(down, up))
            &&& held.fed(ButtonInput::Up(up)) == start
        }),
{
    lemma_hold_is_kept(mode, down, timeouts);
}

/// What a press publishes by the time it lasted: nothing up to the debounce
/// threshold, a press up to half a second, a hold of half a second up to a
/// full second, and a hold of a full second beyond.
pub proof fn lemma_classes(held: u64)
    ensures
        held <= DEBOUNCE_TICKS ==> classified(held) is None,
        DEBOUNCE_TICKS < held <= HALF_HOLD_TICKS ==> classified(held) == Some(ButtonEvent::Press),
        HALF_HOLD_TICKS < held <= FULL_HOLD_TICKS ==> classified(held) == Some(
            ButtonEvent::HoldHalfSecond,
        ),
        FULL_HOLD_TICKS < held ==> classified(held) == Some(ButtonEvent::HoldFullSecond),
{
}

/// Tells taps from holds.
#[derive(Debug, Clone, Copy)]
pub struct HoldClassifier {
    phase: HoldPhase,
}

impl View for HoldClassifier {
    type V = HoldPhase;

    closed spec fn view(&self) -> HoldPhase {
        self.phase
    }
}

impl HoldClassifier {
    /// A classifier for a button that is up.
    pub fn new() -> (out: HoldClassifier)
        ensures
            out@ == HoldPhase::Idle,
    {
        HoldClassifier { phase: HoldPhase::Idle }
    }

    /// Where the press stands.
    pub fn phase(&self) -> (out: HoldPhase)
        ensures
            out == self@,
    {
        self.phase
    }

    /// Takes one input. While the button is held past half a second and past
    /// a full second the configured mode is replaced by a hold colour; when
    /// the button comes up the mode from before the hold is put back and the
    /// press is classified by the time it lasted.
    pub fn handle(&mut self, input: ButtonInput, config: &mut RgbConfig) -> (reaction: Reaction)
        ensures
            final(self)@ == old(self)@.after(input, old(config).rgb_mode),
            *final(config) == (RgbConfig {
                rgb_mode: old(self)@.mode_after(input, old(config).rgb_mode),
                ..*old(config)
            }),
            reaction == old(self)@.reaction(input, old(config).rgb_mode),
    {
        let mut event: Option<ButtonEvent> = None;
        match (self.phase, input) {
            (HoldPhase::Idle, ButtonInput::Down(at)) => {
                self.phase = HoldPhase::Timing { since: at };
            },
            (HoldPhase::Timing { since }, ButtonInput::Timeout) => {
                self.phase = HoldPhase::HeldHalf { since, previous: config.rgb_mode };
                config.set_mode(RgbMode::Static(Rgb::from_channels(HALF_HOLD_COLOUR)));
            },
            (HoldPhase::HeldHalf { since, previous }, ButtonInput::Timeout) => {
                self.phase = HoldPhase::HeldFull { since, previous };
                config.set_mode(RgbMode::Static(Rgb::from_channels(FULL_HOLD_COLOUR)));
            },
            (HoldPhase::Timing { since }, ButtonInput::Up(at)) => {
                self.phase = HoldPhase::Idle;
                event = classify(at.saturating_sub(since));
            },
            (HoldPhase::HeldHalf { since, previous }, ButtonInput::Up(at)) => {
                self.phase = HoldPhase::Idle;
                config.set_mode(previous);
                event = classify(at.saturating_sub(since));
            },
            (HoldPhase::HeldFull { since, previous }, ButtonInput::Up(at)) => {
                self.phase = HoldPhase::Idle;
                config.set_mode(previous);
                event = classify(at.saturating_sub(since));
            },
            _ => {},
        }
        let (indicator, wait) = match self.phase {
            HoldPhase::Idle => (false, Wait::Press),
            HoldPhase::Timing { .. } => (true, Wait::ReleaseOrTimeout),
            HoldPhase::HeldHalf { .. } => (true, Wait::ReleaseOrTimeout),
            HoldPhase::HeldFull { .. } => (true, Wait::Release),
        };
        Reaction { event, indicator, wait }
    }
}

} // verus!
