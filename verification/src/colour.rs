//! Colours as three 8-bit channels, and the hue wheel that the procedural
//! modes pick them from.

use vstd::prelude::*;

verus! {

/// One pixel of the strip.
#[derive(Clone, Copy, Debug, PartialEq, Eq, Structural)]
pub struct Rgb {
    pub r: u8,
    pub g: u8,
    pub b: u8,
}

impl Rgb {
    /// The colour with the given channels.
    pub fn new(r: u8, g: u8, b: u8) -> (out: Rgb)
        ensures
            out == (Rgb { r, g, b }),
    {
        Rgb { r, g, b }
    }

    /// All channels off.
    pub open spec fn black() -> Rgb {
        Rgb { r: 0, g: 0, b: 0 }
    }

    /// All channels fully on.
    pub open spec fn white() -> Rgb {
        Rgb { r: 255, g: 255, b: 255 }
    }

    /// The colour whose channels are the three numbers of `channels`, in the
    /// order red, green, blue.
    pub open spec fn of_channels(channels: Seq<u8>) -> Rgb
        recommends
            channels.len() == 3,
    {
        Rgb { r: channels[0], g: channels[1], b: channels[2] }
    }

    /// Reads a colour from an array of red, green and blue.
    pub fn from_channels(channels: [u8; 3]) -> (out: Rgb)
        ensures
            out == Rgb::of_channels(channels@),
    {
        Rgb { r: channels[0], g: channels[1], b: channels[2] }
    }
}

impl Default for Rgb {
    fn default() -> (out: Rgb)
        ensures
            out == Rgb::black(),
    {
        Rgb { r: 0, g: 0, b: 0 }
    }
}

/// The channels (red, green, blue) that `smart_leds::hsv::hsv2rgb` gives for a
/// hue, a saturation and a value.
pub uninterp spec fn hsv_channels(hue: u8, sat: u8, val: u8) -> (u8, u8, u8);

/// The colour at `hue` on the wheel, at the given saturation and value.
pub open spec fn hsv_colour(hue: u8, sat: u8, val: u8) -> Rgb {
    let c = hsv_channels(hue, sat, val);
    Rgb { r: c.0, g: c.1, b: c.2 }
}

/// Calls `smart_leds::hsv::hsv2rgb`. Nothing is proved of the conversion
/// itself: the contract only gives its result the name `hsv_channels`, which
/// is sound because the conversion is integer arithmetic on its three inputs.
#[verifier::external_body]
pub(crate) fn hsv_to_rgb(hue: u8, sat: u8, val: u8) -> (out: Rgb)
    ensures
        (out.r, out.g, out.b) == hsv_channels(hue, sat, val),
{
    let c = smart_leds::hsv::hsv2rgb(smart_leds::hsv::Hsv { hue, sat, val });
    Rgb { r: c.r, g: c.g, b: c.b }
}

/// The fully saturated, fully bright colour at `hue`.
pub fn hue_colour(hue: u8) -> (out: Rgb)
    ensures
        out == hsv_colour(hue, 255, 255),
{
    hsv_to_rgb(hue, 255, 255)
}

} // verus!
