//! Frames for the LED strip, and the correction applied to a frame before it
//! is sent.

use crate::colour::Rgb;
use crate::LED_STRING_SIZE;
use vstd::prelude::*;

verus! {

/// One full set of per-pixel colours for the strip.
pub type LedBuffer = [Rgb; LED_STRING_SIZE];

/// The frame whose pixels all show `colour`.
pub open spec fn uniform_frame(colour: Rgb) -> Seq<Rgb> {
    Seq::new(LED_STRING_SIZE as nat, |i: int| colour)
}

/// A frame with every pixel set to `colour`.
pub fn filled(colour: Rgb) -> (frame: LedBuffer)
    ensures
        frame@ == uniform_frame(colour),
{
    let frame: LedBuffer = [colour;LED_STRING_SIZE];
    assert(frame@ =~= uniform_frame(colour));
    frame
}

/// The frame that switches every LED off.
pub fn dark_frame() -> (frame: LedBuffer)
    ensures
        frame@ == uniform_frame(Rgb::black()),
{
    filled(Rgb::new(0, 0, 0))
}

/// The frame that shows white on every LED.
pub fn white_frame() -> (frame: LedBuffer)
    ensures
        frame@ == uniform_frame(Rgb::white()),
{
    filled(Rgb::new(255, 255, 255))
}

/// What `smart_leds::gamma` makes of one channel: the entry of its table of
/// 256 corrected values.
pub uninterp spec fn gamma8(channel: u8) -> u8;

/// A pixel with each channel gamma-corrected.
pub open spec fn gamma_corrected(pixel: Rgb) -> Rgb {
    Rgb { r: gamma8(pixel.r), g: gamma8(pixel.g), b: gamma8(pixel.b) }
}

/// One channel reduced to a brightness level, where 255 leaves it as it is.
pub open spec fn dimmed_channel(channel: u8, level: u8) -> u8 {
    (channel * (level + 1) / 256) as u8
}

/// A pixel with each channel reduced to a brightness level.
pub open spec fn dimmed(pixel: Rgb, level: u8) -> Rgb {
    Rgb {
        r: dimmed_channel(pixel.r, level),
        g: dimmed_channel(pixel.g, level),
        b: dimmed_channel(pixel.b, level),
    }
}

/// A pixel as it is sent: gamma-corrected first, then reduced in brightness.
pub open spec fn corrected_pixel(pixel: Rgb, level: u8) -> Rgb {
    dimmed(gamma_corrected(pixel), level)
}

/// Level 0 makes every pixel black and level 255 leaves every pixel as it is.
pub proof fn lemma_dimmed_ends(pixel: Rgb)
    ensures
        dimmed(pixel, 0) == Rgb::black(),
        dimmed(pixel, 255) == pixel,
{
}

/// Runs one pixel through `smart_leds::gamma`, which looks each channel up in
/// its correction table. The table itself is not stated here: the contract
/// names its entries `gamma8`.
#[verifier::external_body]
fn gamma_pixel(pixel: Rgb) -> (out: Rgb)
    ensures
        out == (Rgb { r: gamma8(pixel.r), g: gamma8(pixel.g), b: gamma8(pixel.b) }),
{
    let source = core::iter::once(smart_leds::RGB8 { r: pixel.r, g: pixel.g, b: pixel.b });
    let c = smart_leds::gamma(source).next().unwrap_or_default();
    Rgb { r: c.r, g: c.g, b: c.b }
}

/// Runs one pixel through `smart_leds::brightness`, which multiplies each
/// channel by the level plus one and divides by 256.
#[verifier::external_body]
fn dim_pixel(pixel: Rgb, level: u8) -> (out: Rgb)
    ensures
        out == (Rgb {
            r: (pixel.r * (level + 1) / 256) as u8,
            g: (pixel.g * (level + 1) / 256) as u8,
            b: (pixel.b * (level + 1) / 256) as u8,
        }),
{
    let source = core::iter::once(smart_leds::RGB8 { r: pixel.r, g: pixel.g, b: pixel.b });
    let c = smart_leds::brightness(source, level).next().unwrap_or_default();
    Rgb { r: c.r, g: c.g, b: c.b }
}

/// The frame as it is sent to the strip at the given brightness: each pixel
/// gamma-corrected, then reduced in brightness.
pub fn corrected(frame: &LedBuffer, level: u8) -> (out: LedBuffer)
    ensures
        out@ == frame@.map_values(|p: Rgb| corrected_pixel(p, level)),
{
    let mut out: LedBuffer = *frame;
    let mut i: usize = 0;
    while i < LED_STRING_SIZE
        invariant
            i <= LED_STRING_SIZE,
            forall|j: int| 0 <= j < i ==> out@[j] == corrected_pixel(frame@[j], level),
        decreases LED_STRING_SIZE - i,
    {
        out[i] = dim_pixel(gamma_pixel(frame[i]), level);
        i += 1;
    }
    assert(out@ =~= frame@.map_values(|p: Rgb| corrected_pixel(p, level)));
    out
}

} // verus!
