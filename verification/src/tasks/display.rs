//! The display coordinator: which frame the LED strip shows on each tick, and
//! what a control message does.
//!
//! The coordinator owns the running animation, a bounded queue of animations
//! that wait their turn, and the running, torch and brightness settings. It
//! never touches the hardware. Each call answers with the one action that the
//! task around it has to carry out.

use crate::animations::{
    expiry, is_interruptable, next_buffer_at, Animation, AnimationState, SparkleAnimation,
    SparkleState,
};
use crate::clock::now_ticks;
use crate::colour::Rgb;
use crate::drivers::neopixel::LedBuffer;
use crate::{DEFAULT_COLOUR, MAX_PENDING_ANIMATIONS, TICKS_PER_SECOND};
use heapless::spsc::Queue;
use vstd::prelude::*;

verus! {

/// Manage the display state by sending it messages of this type.
#[derive(Clone, Copy, Debug, PartialEq, Eq)]
pub enum DisplayState {
    /// Suspends animation update.
    Stop,
    /// Restart animation update.
    Start,
    /// Switch off all the LEDs, stopping animation.
    Off,
    /// Start the animation again.
    On,
    /// Show initial message and wait for button press.
    Init,
    /// Enable/disable torch function.
    Torch(bool),
    /// Set the display brightness.
    Brightness(u8),
    /// Set the address of the sensor at the given position.
    SetAddress(u8),
}

/// Why the coordinator turned a request down.
#[derive(Clone, Copy, Debug, PartialEq, Eq, Structural)]
pub enum CoordinatorError {
    /// The queue of pending animations holds all it can.
    QueueFull,
    /// The position of a `SetAddress` has no bus address.
    AddressOutOfRange,
    /// The LED hardware has failed: nothing is served any more.
    Faulted,
}

/// What the task has to do after a call.
#[derive(Clone, Copy, Debug, PartialEq, Eq)]
pub enum Action {
    /// Nothing.
    Idle,
    /// Switch every LED off.
    ClearStrip,
    /// Show white on every LED at this brightness.
    WhiteStrip(u8),
    /// Show this frame at this brightness.
    ShowFrame(LedBuffer, u8),
    /// Show the initial message on the display.
    ShowGreeting,
    /// Show a sensor position and its bus address on the display.
    ShowAddress { position: u8, address: u8 },
}

/// An action, with its frame as a sequence of pixels.
pub enum ActionView {
    Idle,
    ClearStrip,
    WhiteStrip(u8),
    ShowFrame(Seq<Rgb>, u8),
    ShowGreeting,
    ShowAddress { position: u8, address: u8 },
}

impl View for Action {
    type V = ActionView;

    open spec fn view(&self) -> ActionView {
        match self {
            Action::Idle => ActionView::Idle,
            Action::ClearStrip => ActionView::ClearStrip,
            Action::WhiteStrip(level) => ActionView::WhiteStrip(*level),
            Action::ShowFrame(frame, level) => ActionView::ShowFrame(frame@, *level),
            Action::ShowGreeting => ActionView::ShowGreeting,
            Action::ShowAddress { position, address } => ActionView::ShowAddress {
                position: *position,
                address: *address,
            },
        }
    }
}

/// The bus address of the sensor at position 0.
pub const ADDRESS_BASE: u8 = 0x08;

/// The last position that has a bus address.
pub const LAST_POSITION: u8 = 247;

/// The brightness that the coordinator starts with.
pub const INITIAL_BRIGHTNESS: u8 = 10;

/// How long the animation that the coordinator starts with lasts, in ticks.
pub const DEFAULT_ANIMATION_TICKS: u64 = 2 * TICKS_PER_SECOND;

/// Slots of the pending queue. The queue keeps one of them free.
pub const PENDING_SLOTS: usize = MAX_PENDING_ANIMATIONS + 1;

#[verifier::external_type_specification]
#[verifier::external_body]
#[verifier::reject_recursive_types(T)]
pub struct ExQueue<T, const N: usize>(heapless::spsc::Queue<T, N>);

/// The animations that a queue holds, the one to leave next first.
pub uninterp spec fn queued(q: Queue<Animation, PENDING_SLOTS>) -> Seq<Animation>;

/// `heapless::spsc::Queue::new`: the new queue holds nothing.
#[verifier::external_body]
fn queue_new() -> (q: Queue<Animation, PENDING_SLOTS>)
    ensures
        queued(q) == Seq::<Animation>::empty(),
{
    heapless::spsc::Queue::new()
}

/// `heapless::spsc::Queue::len`: the number of items held, which is never more
/// than the slots less one.
#[verifier::external_body]
fn queue_len(q: &Queue<Animation, PENDING_SLOTS>) -> (n: usize)
    ensures
        n == queued(*q).len(),
        n <= MAX_PENDING_ANIMATIONS,
{
    q.len()
}

/// `heapless::spsc::Queue::peek`: a copy of the item at the front, which stays
/// in the queue, or `None` if the queue is empty.
#[verifier::external_body]
fn queue_peek(q: &Queue<Animation, PENDING_SLOTS>) -> (head: Option<Animation>)
    ensures
        queued(*q).len() == 0 ==> head is None,
        queued(*q).len() > 0 ==> head == Some(queued(*q)[0]),
{
    q.peek().copied()
}

/// `heapless::spsc::Queue::dequeue`: takes the item at the front out of the
/// queue and returns it, or returns `None` and leaves the queue alone if it is
/// empty.
#[verifier::external_body]
fn queue_dequeue(q: &mut Queue<Animation, PENDING_SLOTS>) -> (head: Option<Animation>)
    ensures
        queued(*old(q)).len() == 0 ==> head is None && queued(*final(q)) == queued(*old(q)),
        queued(*old(q)).len() > 0 ==> head == Some(queued(*old(q))[0]) && queued(*final(q))
            == queued(*old(q)).drop_first(),
{
    q.dequeue()
}

/// `heapless::spsc::Queue::enqueue`: puts the item at the back, or hands it
/// back and leaves the queue alone if every usable slot is taken.
#[verifier::external_body]
fn queue_enqueue(q: &mut Queue<Animation, PENDING_SLOTS>, item: Animation) -> (r: Result<(), Animation>)
    ensures
        queued(*old(q)).len() < MAX_PENDING_ANIMATIONS ==> r is Ok && queued(*final(q)) == queued(
            *old(q),
        ).push(item),
        queued(*old(q)).len() >= MAX_PENDING_ANIMATIONS ==> r is Err && r->Err_0 == item
            && queued(*final(q)) == queued(*old(q)),
{
    q.enqueue(item)
}

/// What the coordinator holds, as plain values.
pub struct CoordinatorState {
    /// The animation that is running.
    pub current: AnimationState,
    /// Whether ticks advance the animation.
    pub running: bool,
    /// Whether the strip serves as a torch.
    pub torch: bool,
    /// The brightness at which frames are shown.
    pub brightness: u8,
    /// The animations that wait, the next one first.
    pub pending: Seq<AnimationState>,
    /// Whether the LED hardware has failed.
    pub faulted: bool,
}

/// The action that shows a frame, if there is one, and the given action if
/// there is none.
pub open spec fn show_or(frame: Option<Seq<Rgb>>, level: u8, otherwise: ActionView) -> ActionView {
    match frame {
        Some(f) => ActionView::ShowFrame(f, level),
        None => otherwise,
    }
}

impl CoordinatorState {
    /// The state that a coordinator starts in when it is given its first
    /// animation: running, torch off, nothing queued.
    pub open spec fn starting(current: AnimationState) -> CoordinatorState {
        CoordinatorState {
            current,
            running: true,
            torch: false,
            brightness: INITIAL_BRIGHTNESS,
            pending: Seq::empty(),
            faulted: false,
        }
    }

    /// The state that a coordinator made at tick `now` starts in: it shows a
    /// sparkle of the default colour for two seconds.
    pub open spec fn initial(now: u64) -> CoordinatorState {
        CoordinatorState::starting(
            AnimationState::Sparkle(
                SparkleState {
                    colour: Rgb::of_channels(DEFAULT_COLOUR@),
                    expires: expiry(now, Some(DEFAULT_ANIMATION_TICKS)),
                    rng: now,
                    finished: false,
                },
            ),
        )
    }

    /// Whether a tick does anything at all.
    pub open spec fn ticking(self) -> bool {
        self.running && !self.faulted
    }

    /// Whether a tick at `now` hands the strip to the animation at the head of
    /// the queue: one is waiting, and the running one may be interrupted or
    /// has ended.
    pub open spec fn swaps_at(self, now: u64) -> bool {
        self.pending.len() > 0 && (self.current.interruptable() || self.current.frame_at(now)
            is None)
    }

    /// The state after a tick at `now`.
    pub open spec fn ticked(self, now: u64) -> CoordinatorState {
        if !self.ticking() {
            self
        } else if self.swaps_at(now) {
            CoordinatorState {
                current: self.pending[0].advanced(now),
                pending: self.pending.drop_first(),
                ..self
            }
        } else {
            CoordinatorState { current: self.current.advanced(now), ..self }
        }
    }

    /// What a tick at `now` asks for.
    pub open spec fn tick_action(self, now: u64) -> ActionView {
        if !self.ticking() {
            ActionView::Idle
        } else if self.swaps_at(now) {
            show_or(self.pending[0].frame_at(now), self.brightness, ActionView::Idle)
        } else {
            show_or(self.current.frame_at(now), self.brightness, ActionView::ClearStrip)
        }
    }

    /// Why a control message is turned down, if it is.
    pub open spec fn command_error(self, message: DisplayState) -> Option<CoordinatorError> {
        if self.faulted {
            Some(CoordinatorError::Faulted)
        } else if message matches DisplayState::SetAddress(position) && position > LAST_POSITION {
            Some(CoordinatorError::AddressOutOfRange)
        } else {
            None
        }
    }

    /// The state after a control message that is served.
    pub open spec fn commanded(self, message: DisplayState) -> CoordinatorState {
        match message {
            DisplayState::Stop => CoordinatorState { running: false, ..self },
            DisplayState::Start => CoordinatorState { running: true, ..self },
            DisplayState::Off => CoordinatorState { running: false, ..self },
            DisplayState::On => CoordinatorState { running: true, ..self },
            DisplayState::Init => self,
            DisplayState::Torch(on) => CoordinatorState { running: !on, torch: on, ..self },
            DisplayState::Brightness(level) => CoordinatorState { brightness: level, ..self },
            DisplayState::SetAddress(_) => self,
        }
    }

    /// What a control message that is served asks for.
    pub open spec fn command_action(self, message: DisplayState) -> ActionView {
        match message {
            DisplayState::Stop => ActionView::Idle,
            DisplayState::Start => ActionView::Idle,
            DisplayState::Off => ActionView::ClearStrip,
            DisplayState::On => ActionView::Idle,
            DisplayState::Init => ActionView::ShowGreeting,
            DisplayState::Torch(on) => if on {
                ActionView::WhiteStrip(self.brightness)
            } else {
                ActionView::ClearStrip
            },
            DisplayState::Brightness(level) => if self.torch {
                ActionView::WhiteStrip(level)
            } else {
                ActionView::Idle
            },
            DisplayState::SetAddress(position) => ActionView::ShowAddress {
                position,
                address: (position + ADDRESS_BASE) as u8,
            },
        }
    }

    /// Why an animation is not taken into the queue, if it is not.
    pub open spec fn enqueue_error(self) -> Option<CoordinatorError> {
        if self.faulted {
            Some(CoordinatorError::Faulted)
        } else if self.pending.len() >= MAX_PENDING_ANIMATIONS {
            Some(CoordinatorError::QueueFull)
        } else {
            None
        }
    }

    /// The state with one more animation at the back of the queue.
    pub open spec fn enqueued(self, animation: AnimationState) -> CoordinatorState {
        CoordinatorState { pending: self.pending.push(animation), ..self }
    }
}

/// A running coordinator whose animation may be interrupted hands the strip
/// over on the tick after an animation is queued: the frame shown comes from
/// the queued animation, which becomes the current one, and the queue is empty
/// again.
pub proof fn lemma_interruptable_gives_way(s: CoordinatorState, queued: AnimationState, now: u64)
    requires
        s.ticking(),
        s.current.interruptable(),
        s.pending.len() == 0,
    ensures
        s.enqueue_error() is None,
        s.enqueued(queued).tick_action(now) == show_or(
            queued.frame_at(now),
            s.brightness,
            ActionView::Idle,
        ),
        s.enqueued(queued).ticked(now).current == queued.advanced(now),
        s.enqueued(queued).ticked(now).pending.len() == 0,
{
    assert(s.enqueued(queued).pending[0] == queued);
}

/// A running coordinator whose animation may not be interrupted keeps showing
/// that animation's frames for as long as it gives them: whatever waits in the
/// queue stays there, in its order.
pub proof fn lemma_uninterruptable_holds_on(s: CoordinatorState, now: u64)
    requires
        s.ticking(),
        !s.current.interruptable(),
        s.current.frame_at(now) is Some,
    ensures
        s.tick_action(now) == ActionView::ShowFrame(s.current.frame_at(now)->0, s.brightness),
        s.ticked(now).current == s.current.advanced(now),
        s.ticked(now).pending == s.pending,
        !s.ticked(now).current.interruptable(),
{
}

/// When the running animation has ended and another one waits, the tick
/// takes the head of the queue as the current animation and shows its first
/// frame. The rest of the queue keeps its order.
pub proof fn lemma_ended_gives_way(s: CoordinatorState, now: u64)
    requires
        s.ticking(),
        s.current.frame_at(now) is None,
        s.pending.len() > 0,
    ensures
        s.tick_action(now) == show_or(s.pending[0].frame_at(now), s.brightness, ActionView::Idle),
        s.ticked(now).current == s.pending[0].advanced(now),
        s.ticked(now).pending == s.pending.drop_first(),
{
}

/// A coordinator that is stopped, or whose hardware has failed, lets ticks
/// pass: they ask for nothing and change nothing.
pub proof fn lemma_idle_when_not_ticking(s: CoordinatorState, now: u64)
    requires
        !s.ticking(),
    ensures
        s.tick_action(now) == ActionView::Idle,
        s.ticked(now) == s,
{
}

/// No request takes the queue past its capacity: an animation is only taken
/// in while there is room, a tick only ever takes one out, and a control
/// message leaves the queue alone.
pub proof fn lemma_queue_stays_bounded(
    s: CoordinatorState,
    animation: AnimationState,
    message: DisplayState,
    now: u64,
)
    requires
        s.pending.len() <= MAX_PENDING_ANIMATIONS,
    ensures
        s.enqueue_error() is None ==> s.enqueued(animation).pending.len()
            <= MAX_PENDING_ANIMATIONS,
        s.ticked(now).pending.len() <= s.pending.len(),
        s.commanded(message).pending == s.pending,
{
}

/// The views of the animations in a sequence.
pub open spec fn views(items: Seq<Animation>) -> Seq<AnimationState> {
    items.map_values(|a: Animation| a@)
}

/// Owns what the strip shows: the running animation, the animations that
/// wait, and the settings that control messages change.
pub struct Coordinator {
    current: Animation,
    running: bool,
    torch: bool,
    brightness: u8,
    pending: Queue<Animation, PENDING_SLOTS>,
    faulted: bool,
}

impl View for Coordinator {
    type V = CoordinatorState;

    closed spec fn view(&self) -> CoordinatorState {
        CoordinatorState {
            current: self.current@,
            running: self.running,
            torch: self.torch,
            brightness: self.brightness,
            pending: views(queued(self.pending)),
            faulted: self.faulted,
        }
    }
}

impl Coordinator {
    /// A coordinator that starts with the given animation: running, torch
    /// off, with nothing queued.
    pub fn with_animation(current: Animation) -> (out: Coordinator)
        ensures
            out@ == CoordinatorState::starting(current@),
    {
        let out = Coordinator {
            current,
            running: true,
            torch: false,
            brightness: INITIAL_BRIGHTNESS,
            pending: queue_new(),
            faulted: false,
        };
        assert(out@.pending =~= Seq::<AnimationState>::empty());
        out
    }

    /// A coordinator made at tick `now`: running, torch off, with a green
    /// sparkle of two seconds and nothing queued.
    pub fn new_at(now: u64) -> (out: Coordinator)
        ensures
            out@ == CoordinatorState::initial(now),
    {
        let colour = Rgb::from_channels(DEFAULT_COLOUR);
        Coordinator::with_animation(
            Animation::Sparkle(SparkleAnimation::new_at(colour, Some(DEFAULT_ANIMATION_TICKS), now)),
        )
    }

    /// A coordinator made now.
    pub fn new() -> (out: Coordinator)
        ensures
            exists|now: u64| out@ == CoordinatorState::initial(now),
    {
        let now = now_ticks();
        Coordinator::new_at(now)
    }

    /// Whether ticks advance the animation.
    pub fn is_running(&self) -> (out: bool)
        ensures
            out == self@.running,
    {
        self.running
    }

    /// Whether the strip serves as a torch.
    pub fn is_torch(&self) -> (out: bool)
        ensures
            out == self@.torch,
    {
        self.torch
    }

    /// Whether the LED hardware has failed.
    pub fn is_faulted(&self) -> (out: bool)
        ensures
            out == self@.faulted,
    {
        self.faulted
    }

    /// The brightness at which frames are shown.
    pub fn brightness(&self) -> (out: u8)
        ensures
            out == self@.brightness,
    {
        self.brightness
    }

    /// The number of animations that wait, which never passes the capacity
    /// of the queue.
    pub fn pending_len(&self) -> (n: usize)
        ensures
            n == self@.pending.len(),
            n <= MAX_PENDING_ANIMATIONS,
    {
        queue_len(&self.pending)
    }

    /// Puts an animation at the back of the queue. A full queue turns it down
    /// and stays as it is, and so does a coordinator whose hardware has failed.
    pub fn enqueue(&mut self, animation: Animation) -> (r: Result<(), CoordinatorError>)
        ensures
            match r {
                Ok(()) => old(self)@.enqueue_error() is None && final(self)@ == old(self)@.enqueued(
                    animation@,
                ),
                Err(e) => old(self)@.enqueue_error() == Some(e) && final(self)@ == old(self)@,
            },
    {
        if self.faulted {
            return Err(CoordinatorError::Faulted);
        }
        let ghost before = queued(self.pending);
        match queue_enqueue(&mut self.pending, animation) {
            Ok(()) => {
                assert(views(before.push(animation)) =~= views(before).push(animation@));
                Ok(())
            },
            Err(_) => Err(CoordinatorError::QueueFull),
        }
    }

    /// Records that the LED hardware has failed. From then on ticks ask for
    /// nothing and every request is turned down.
    pub fn sink_failed(&mut self)
        ensures
            final(self)@ == (CoordinatorState { faulted: true, ..old(self)@ }),
    {
        self.faulted = true;
    }

    /// Serves a control message, or turns it down and changes nothing.
    pub fn apply(&mut self, message: DisplayState) -> (r: Result<Action, CoordinatorError>)
        ensures
            match r {
                Ok(action) => old(self)@.command_error(message) is None && action@ == old(
                    self,
                )@.command_action(message) && final(self)@ == old(self)@.commanded(message),
                Err(e) => old(self)@.command_error(message) == Some(e) && final(self)@ == old(
                    self,
                )@,
            },
    {
        if self.faulted {
            return Err(CoordinatorError::Faulted);
        }
        match message {
            DisplayState::Stop => {
                self.running = false;
                Ok(Action::Idle)
            },
            DisplayState::Start => {
                self.running = true;
                Ok(Action::Idle)
            },
            DisplayState::Off => {
                self.running = false;
                Ok(Action::ClearStrip)
            },
            DisplayState::On => {
                self.running = true;
                Ok(Action::Idle)
            },
            DisplayState::Init => Ok(Action::ShowGreeting),
            DisplayState::Brightness(level) => {
                self.brightness = level;
                if self.torch {
                    Ok(Action::WhiteStrip(level))
                } else {
                    Ok(Action::Idle)
                }
            },
            DisplayState::Torch(on) => {
                self.torch = on;
                self.running = !on;
                if on {
                    Ok(Action::WhiteStrip(self.brightness))
                } else {
                    Ok(Action::ClearStrip)
                }
            },
            DisplayState::SetAddress(position) => {
                if position > LAST_POSITION {
                    Err(CoordinatorError::AddressOutOfRange)
                } else {
                    Ok(Action::ShowAddress { position, address: position + ADDRESS_BASE })
                }
            },
        }
    }

    /// One tick of the animation timer, at tick `now` of the clock.
    ///
    /// While running, the coordinator asks the current animation for a frame.
    /// If an animation waits in the queue and the current one may be
    /// interrupted or has ended, the head of the queue takes its place and
    /// gives the frame instead. With nothing waiting, an animation that has
    /// ended leaves the strip dark.
    pub fn on_tick_at(&mut self, now: u64) -> (action: Action)
        ensures
            action@ == old(self)@.tick_action(now),
            final(self)@ == old(self)@.ticked(now),
    {
        if self.faulted || !self.running {
            return Action::Idle;
        }
        let ghost before = queued(self.pending);
        let level = self.brightness;
        let mut current = self.current;
        let frame = next_buffer_at(&mut current, now);
        // The queue is only looked at here: the head leaves it once the swap
        // is decided.
        let head = queue_peek(&self.pending);
        let yields = is_interruptable(&current) || frame.is_none();
        match head {
            Some(next) => {
                if yields {
                    let mut next = next;
                    queue_dequeue(&mut self.pending);
                    let first = next_buffer_at(&mut next, now);
                    self.current = next;
                    assert(views(before.drop_first()) =~= views(before).drop_first());
                    return match first {
                        Some(buffer) => Action::ShowFrame(buffer, level),
                        None => Action::Idle,
                    };
                }
            },
            None => {},
        }
        self.current = current;
        match frame {
            Some(buffer) => Action::ShowFrame(buffer, level),
            None => Action::ClearStrip,
        }
    }

    /// One tick of the animation timer, now.
    pub fn on_tick(&mut self) -> (action: Action)
        ensures
            exists|now: u64|
                action@ == old(self)@.tick_action(now) && final(self)@ == old(self)@.ticked(now),
    {
        let now = now_ticks();
        self.on_tick_at(now)
    }
}

} // verus!
