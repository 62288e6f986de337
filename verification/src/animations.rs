//! Animations module provides different LED animation patterns.
//!
//! An animation is a resumable source of frames. Each call asks it for the
//! next frame; once it has none it has ended, and it never gives one again.
//! The only pattern so far is the sparkle: random brightness variations of a
//! single colour.

use crate::clock::now_ticks;
use crate::colour::Rgb;
use crate::drivers::neopixel::LedBuffer;
use crate::LED_STRING_SIZE;
use vstd::prelude::*;

verus! {

/// The lowest brightness a sparkle draws.
pub const SPARKLE_LOW: u8 = 0;

/// The bound below which a sparkle draws its brightness.
pub const SPARKLE_HIGH: u8 = 255;

/// One channel at the given brightness, where 255 leaves it as it is.
pub open spec fn scale_channel(channel: u8, brightness: u8) -> u8 {
    (channel * brightness / 255) as u8
}

/// A pixel with each channel at the given brightness.
pub open spec fn scaled(pixel: Rgb, brightness: u8) -> Rgb {
    Rgb {
        r: scale_channel(pixel.r, brightness),
        g: scale_channel(pixel.g, brightness),
        b: scale_channel(pixel.b, brightness),
    }
}

/// A scaled channel is the product over 255, rounded down. It never exceeds
/// the channel, brightness 0 gives 0 and brightness 255 gives the channel
/// itself.
pub proof fn lemma_scale_channel(channel: u8, brightness: u8)
    ensures
        scale_channel(channel, brightness) == channel * brightness / 255,
        scale_channel(channel, brightness) <= channel,
        scale_channel(channel, 0) == 0,
        scale_channel(channel, 255) == channel,
{
    assert(0 <= channel * brightness <= channel * 255) by (nonlinear_arith)
        requires
            0 <= channel,
            0 <= brightness <= 255,
    ;
}

/// Brightness 0 gives black, brightness 255 the pixel itself, and every other
/// brightness the channels times the brightness over 255, rounded down.
pub proof fn lemma_scaled_ends(pixel: Rgb, brightness: u8)
    ensures
        scaled(pixel, 0) == Rgb::black(),
        scaled(pixel, 255) == pixel,
        scaled(pixel, brightness).r == pixel.r * brightness / 255,
        scaled(pixel, brightness).g == pixel.g * brightness / 255,
        scaled(pixel, brightness).b == pixel.b * brightness / 255,
{
    lemma_scale_channel(pixel.r, brightness);
    lemma_scale_channel(pixel.g, brightness);
    lemma_scale_channel(pixel.b, brightness);
}

fn scale(channel: u8, brightness: u8) -> (out: u8)
    ensures
        out == scale_channel(channel, brightness),
{
    proof {
        lemma_scale_channel(channel, brightness);
    }
    // The product is taken in sixteen bits, where it cannot overflow.
    let wide: u16 = (channel as u16) * (brightness as u16) / 255;
    wide as u8
}

/// Scales a pixel to the given brightness.
pub fn set_brightness(brightness: u8, pixel: Rgb) -> (out: Rgb)
    ensures
        out == scaled(pixel, brightness),
{
    proof {
        lemma_scaled_ends(pixel, brightness);
    }
    if brightness == 0 {
        return Rgb::default();
    }
    if brightness == 255 {
        return pixel;
    }
    Rgb::new(scale(pixel.r, brightness), scale(pixel.g, brightness), scale(pixel.b, brightness))
}

/// Limits a value to the range of a channel.
pub fn clip(v: i16) -> (out: u8)
    ensures
        v < 0 ==> out == 0,
        v > 255 ==> out == 255,
        0 <= v <= 255 ==> out == v,
{
    if v < 0 {
        0
    } else if v > 255 {
        255
    } else {
        v as u8
    }
}

/// Clip to a minimum value. A value at or above the minimum keeps its low
/// eight bits.
pub fn clip_min(v: i16, min: u8) -> (out: u8)
    ensures
        v < min ==> out == min,
        v >= min ==> out == v % 256,
{
    if v < min as i16 {
        min
    } else {
        (v % 256) as u8
    }
}

/// What `fastrand::Rng::u8` gives for a generator in the given state and the
/// range from `low` up to but not including `high`: the number drawn, and the
/// state the generator is left in.
pub uninterp spec fn rng_u8(state: u64, low: u8, high: u8) -> (u8, u64);

/// Draws one number with `fastrand::Rng::u8` from a generator in the given
/// state. `with_seed` and `get_seed` carry the state in and out unchanged, so
/// the draw is a function of the state and the range: the contract gives it
/// the name `rng_u8` and adds that the number lies in the range, as the
/// generator's documentation says. An empty range, on which it panics, is
/// left out.
#[verifier::external_body]
fn draw_u8(state: u64, low: u8, high: u8) -> (out: (u8, u64))
    requires
        low < high,
    ensures
        out == rng_u8(state, low, high),
        low <= out.0 < high,
{
    let mut rng = fastrand::Rng::with_seed(state);
    let value = rng.u8(low..high);
    (value, rng.get_seed())
}

/// The state of a sparkle's generator after `n` pixels have been drawn.
pub open spec fn rng_after(state: u64, n: nat) -> u64
    decreases n,
{
    if n == 0 {
        state
    } else {
        rng_u8(rng_after(state, (n - 1) as nat), SPARKLE_LOW, SPARKLE_HIGH).1
    }
}

/// The brightness drawn for pixel `i` of a frame.
pub open spec fn brightness_at(state: u64, i: nat) -> u8 {
    rng_u8(rng_after(state, i), SPARKLE_LOW, SPARKLE_HIGH).0
}

/// The frame a sparkle of the given colour draws from a generator in the
/// given state: pixel by pixel, the colour at the brightness drawn for it.
pub open spec fn sparkle_frame(colour: Rgb, state: u64) -> Seq<Rgb> {
    Seq::new(LED_STRING_SIZE as nat, |i: int| scaled(colour, brightness_at(state, i as nat)))
}

/// The frame of an optional buffer.
pub open spec fn frame_of(buffer: Option<LedBuffer>) -> Option<Seq<Rgb>> {
    match buffer {
        Some(b) => Some(b@),
        None => None,
    }
}

/// The tick at which an animation made at `now` with the given time to live
/// expires. A time that would pass the clock's last tick expires at that tick.
pub open spec fn expiry(now: u64, ttl: Option<u64>) -> Option<u64> {
    match ttl {
        Some(t) => Some(
            if now + t > u64::MAX {
                u64::MAX
            } else {
                (now + t) as u64
            },
        ),
        None => None,
    }
}

/// What a sparkle is, as plain values.
pub struct SparkleState {
    /// The colour to sparkle.
    pub colour: Rgb,
    /// The tick at which it ends, if it ends.
    pub expires: Option<u64>,
    /// The state of its random number generator.
    pub rng: u64,
    /// Whether it has ended.
    pub finished: bool,
}

impl SparkleState {
    /// Whether a call at `now` finds the sparkle ended.
    pub open spec fn done_at(self, now: u64) -> bool {
        self.finished || (self.expires matches Some(e) && now >= e)
    }

    /// The frame that a call at `now` gives.
    pub open spec fn frame_at(self, now: u64) -> Option<Seq<Rgb>> {
        if self.done_at(now) {
            None
        } else {
            Some(sparkle_frame(self.colour, self.rng))
        }
    }

    /// The sparkle after a call at `now`.
    pub open spec fn advanced(self, now: u64) -> SparkleState {
        if self.done_at(now) {
            SparkleState { finished: true, ..self }
        } else {
            SparkleState { rng: rng_after(self.rng, LED_STRING_SIZE as nat), ..self }
        }
    }

    /// Whether a queued animation may take this one's place before it ends.
    pub open spec fn interruptable(self) -> bool {
        self.expires is None
    }
}

/// Once a sparkle has given no frame it gives none again, whatever the clock
/// shows at the later call, and the later call changes nothing.
pub proof fn lemma_sparkle_end_is_sticky(s: SparkleState, now: u64, later: u64)
    requires
        s.frame_at(now) is None,
    ensures
        s.advanced(now).frame_at(later) is None,
        s.advanced(now).advanced(later) == s.advanced(now),
{
}

/// A sparkle made with an expiry is never interruptable and one made without
/// always is: no call changes it.
pub proof fn lemma_sparkle_interruptable_is_fixed(s: SparkleState, now: u64)
    ensures
        s.advanced(now).interruptable() == s.interruptable(),
        s.interruptable() <==> s.expires is None,
{
}

/// Animations that say whether they give way to the next one in the queue.
pub trait Interruptable {
    /// Whether a queued animation may take this one's place before it ends.
    spec fn can_interrupt(&self) -> bool;

    /// If this is true then the animation is interruptable before it has
    /// ended. An animation that reacts to an arrival should sparkle for a few
    /// seconds and not be cut short by the next arrival, which can sit in the
    /// queue until this one is done. Be careful here, as this can block all
    /// animations that wait in the queue.
    fn is_interruptable(&self) -> (b: bool)
        ensures
            b == self.can_interrupt(),
    ;
}

/// Takes one colour and draws a random brightness for each pixel. It gives a
/// frame on every call until the expiry time is reached, if one was set.
#[derive(Clone, Copy, Debug, PartialEq, Eq)]
pub struct SparkleAnimation {
    /// The colour to sparkle.
    colour: Rgb,
    /// The tick at which the animation expires. If it is `None`, the animation
    /// runs on but marks itself as interruptable.
    expires: Option<u64>,
    /// State of the random number generator for the sparkle effect.
    rng: u64,
    /// Set by the first call that finds the animation expired.
    finished: bool,
}

impl View for SparkleAnimation {
    type V = SparkleState;

    closed spec fn view(&self) -> SparkleState {
        SparkleState {
            colour: self.colour,
            expires: self.expires,
            rng: self.rng,
            finished: self.finished,
        }
    }
}

impl Interruptable for SparkleAnimation {
    open spec fn can_interrupt(&self) -> bool {
        self@.interruptable()
    }

    fn is_interruptable(&self) -> (b: bool) {
        self.expires.is_none()
    }
}

impl SparkleAnimation {
    /// A sparkle of `colour` made at tick `now`. It lasts `ttl` ticks, or runs
    /// on and is interruptable if `ttl` is `None`. The tick count seeds its
    /// random number generator.
    pub fn new_at(colour: Rgb, ttl: Option<u64>, now: u64) -> (out: SparkleAnimation)
        ensures
            out@ == (SparkleState { colour, expires: expiry(now, ttl), rng: now, finished: false }),
            out.can_interrupt() <==> ttl is None,
    {
        let expires = match ttl {
            Some(t) => Some(now.saturating_add(t)),
            None => None,
        };
        SparkleAnimation { colour, expires, rng: now, finished: false }
    }

    /// A sparkle of `colour` made now. It lasts `ttl` ticks, or runs on and is
    /// interruptable if `ttl` is `None`.
    pub fn new(colour: Rgb, ttl: Option<u64>) -> (out: SparkleAnimation)
        ensures
            out@.colour == colour,
            !out@.finished,
            out@.expires == expiry(out@.rng, ttl),
            out.can_interrupt() <==> ttl is None,
    {
        let now = now_ticks();
        SparkleAnimation::new_at(colour, ttl, now)
    }

    /// The colour that this animation sparkles.
    pub fn colour(&self) -> (out: Rgb)
        ensures
            out == self@.colour,
    {
        self.colour
    }

    /// The tick at which this animation expires, if it does.
    pub fn expires(&self) -> (out: Option<u64>)
        ensures
            out == self@.expires,
    {
        self.expires
    }

    /// The next frame, for a call made at tick `now`: `None` once the expiry
    /// is reached, and from then on.
    pub fn next_at(&mut self, now: u64) -> (buffer: Option<LedBuffer>)
        ensures
            frame_of(buffer) == old(self)@.frame_at(now),
            final(self)@ == old(self)@.advanced(now),
            buffer is Some ==> forall|i: int|
                0 <= i < LED_STRING_SIZE ==> SPARKLE_LOW <= #[trigger] brightness_at(
                    old(self)@.rng,
                    i as nat,
                ) < SPARKLE_HIGH,
    {
        let done = self.finished || match self.expires {
            Some(exp) => now >= exp,
            None => false,
        };
        if done {
            self.finished = true;
            return None;
        }
        let colour = self.colour;
        let ghost start = self.rng;
        let mut rng = self.rng;
        let mut buffer: LedBuffer = [colour;LED_STRING_SIZE];
        let mut i: usize = 0;
        while i < LED_STRING_SIZE
            invariant
                i <= LED_STRING_SIZE,
                rng == rng_after(start, i as nat),
                forall|j: int|
                    0 <= j < i ==> buffer@[j] == scaled(colour, brightness_at(start, j as nat)),
                forall|j: int|
                    0 <= j < i ==> SPARKLE_LOW <= #[trigger] brightness_at(start, j as nat)
                        < SPARKLE_HIGH,
            decreases LED_STRING_SIZE - i,
        {
            let (b, next) = draw_u8(rng, SPARKLE_LOW, SPARKLE_HIGH);
            buffer[i] = set_brightness(b, colour);
            rng = next;
            i += 1;
        }
        self.rng = rng;
        assert(buffer@ =~= sparkle_frame(colour, start));
        Some(buffer)
    }

    /// The next frame, for a call made now.
    pub fn next(&mut self) -> (buffer: Option<LedBuffer>)
        ensures
            exists|now: u64|
                frame_of(buffer) == old(self)@.frame_at(now) && final(self)@ == old(self)@.advanced(
                    now,
                ),
            old(self)@.finished ==> buffer is None,
            buffer is None ==> final(self)@.finished,
            final(self).can_interrupt() == old(self).can_interrupt(),
    {
        let now = now_ticks();
        self.next_at(now)
    }
}

/// What an animation is, as plain values.
pub enum AnimationState {
    /// A sparkle, with what it holds.
    Sparkle(SparkleState),
}

impl AnimationState {
    /// The frame that a call at `now` gives.
    pub open spec fn frame_at(self, now: u64) -> Option<Seq<Rgb>> {
        match self {
            AnimationState::Sparkle(s) => s.frame_at(now),
        }
    }

    /// The animation after a call at `now`.
    pub open spec fn advanced(self, now: u64) -> AnimationState {
        match self {
            AnimationState::Sparkle(s) => AnimationState::Sparkle(s.advanced(now)),
        }
    }

    /// Whether a queued animation may take this one's place before it ends.
    pub open spec fn interruptable(self) -> bool {
        match self {
            AnimationState::Sparkle(s) => s.interruptable(),
        }
    }
}

/// Once an animation has given no frame it gives none again, whatever the
/// clock shows at the later call, and the later call changes nothing.
pub proof fn lemma_end_is_sticky(a: AnimationState, now: u64, later: u64)
    requires
        a.frame_at(now) is None,
    ensures
        a.advanced(now).frame_at(later) is None,
        a.advanced(now).advanced(later) == a.advanced(now),
{
    match a {
        AnimationState::Sparkle(s) => lemma_sparkle_end_is_sticky(s, now, later),
    }
}

/// Whether an animation is interruptable is settled when it is made: no call
/// for a frame changes it.
pub proof fn lemma_interruptable_is_fixed(a: AnimationState, now: u64)
    ensures
        a.advanced(now).interruptable() == a.interruptable(),
{
}

/// Represents different types of animations that can be displayed on the LED strip.
#[derive(Clone, Copy, Debug, PartialEq, Eq)]
pub enum Animation {
    /// Animation that creates a sparkling effect with random brightness variations.
    Sparkle(SparkleAnimation),
}

impl View for Animation {
    type V = AnimationState;

    open spec fn view(&self) -> AnimationState {
        match self {
            Animation::Sparkle(s) => AnimationState::Sparkle(s@),
        }
    }
}

impl Animation {
    /// The name of the animation's kind, for messages.
    pub fn name(&self) -> (out: &'static str)
        ensures
            out@ == (match self {
                Animation::Sparkle(_) => "Sparkle"@,
            }),
    {
        match self {
            Animation::Sparkle(_) => "Sparkle",
        }
    }
}

/// Checks if the given animation can be interrupted.
pub fn is_interruptable(anim: &Animation) -> (b: bool)
    ensures
        b == anim@.interruptable(),
{
    match anim {
        Animation::Sparkle(s) => s.is_interruptable(),
    }
}

/// The next frame of an animation, whatever its kind, for a call made at tick
/// `now`.
pub fn next_buffer_at(anim: &mut Animation, now: u64) -> (buffer: Option<LedBuffer>)
    ensures
        frame_of(buffer) == old(anim)@.frame_at(now),
        final(anim)@ == old(anim)@.advanced(now),
{
    match anim {
        Animation::Sparkle(s) => s.next_at(now),
    }
}

/// The next frame of an animation, whatever its kind, for a call made now.
pub fn next_buffer(anim: &mut Animation) -> (buffer: Option<LedBuffer>)
    ensures
        exists|now: u64|
            frame_of(buffer) == old(anim)@.frame_at(now) && final(anim)@ == old(anim)@.advanced(
                now,
            ),
{
    let now = now_ticks();
    next_buffer_at(anim, now)
}

} // verus!
