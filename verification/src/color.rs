//! Colour arithmetic that the `smart-leds` crate performs for the library.

use vstd::prelude::*;
use crate::pixel::{Pixel, NUM_PIXELS};

verus! {

/// What `smart_leds::hsv::hsv2rgb` returns for a hue, a saturation and a
/// value: the red, green and blue channels, in that order.
pub uninterp spec fn hsv_color(hue: u8, sat: u8, val: u8) -> (u8, u8, u8);

/// The pixel that shows `hsv_color(hue, sat, val)`.
pub open spec fn hsv_pixel(hue: u8, sat: u8, val: u8) -> Pixel {
    let c = hsv_color(hue, sat, val);
    Pixel { r: c.0, g: c.1, b: c.2 }
}

/// One channel after `smart_leds::brightness` at `level`: the channel times
/// `level + 1`, divided by 256 and rounded down.
pub open spec fn dimmed_channel(c: u8, level: u8) -> u8 {
    (c * (level + 1) / 256) as u8
}

/// A pixel with each channel dimmed to `level`.
pub open spec fn dimmed_pixel(p: Pixel, level: u8) -> Pixel {
    Pixel {
        r: dimmed_channel(p.r, level),
        g: dimmed_channel(p.g, level),
        b: dimmed_channel(p.b, level),
    }
}

/// A frame with each pixel dimmed to `level`.
pub open spec fn dimmed(frame: Seq<Pixel>, level: u8) -> Seq<Pixel> {
    Seq::new(frame.len(), |i: int| dimmed_pixel(frame[i], level))
}

/// Trusted: calls `smart_leds::hsv::hsv2rgb` on the three components. The
/// contract only gives the result its name; the conversion itself is the
/// crate's and is not proved here. It is integer arithmetic on the three
/// bytes and returns for every input.
#[verifier::external_body]
pub(crate) fn hsv_to_pixel(hue: u8, sat: u8, val: u8) -> (p: Pixel)
    ensures
        (p.r, p.g, p.b) == hsv_color(hue, sat, val),
{
    let c = smart_leds::hsv::hsv2rgb(smart_leds::hsv::Hsv { hue, sat, val });
    Pixel { r: c.r, g: c.g, b: c.b }
}

/// Trusted: runs the frame through the iterator of `smart_leds::brightness`.
/// That iterator yields one pixel for each pixel it is given, and computes
/// each channel as the channel times `level + 1`, divided by 256, in 16-bit
/// arithmetic that cannot overflow.
#[verifier::external_body]
pub(crate) fn dim_frame(frame: &[Pixel; NUM_PIXELS], level: u8) -> (out: [Pixel; NUM_PIXELS])
    ensures
        out@ == dimmed(frame@, level),
{
    let mut out = *frame;
    let source = frame.iter().map(|p| smart_leds::RGB8 { r: p.r, g: p.g, b: p.b });
    for (slot, c) in out.iter_mut().zip(smart_leds::brightness(source, level)) {
        *slot = Pixel { r: c.r, g: c.g, b: c.b };
    }
    out
}

/// Full brightness leaves every pixel as it is.
pub proof fn lemma_full_brightness_keeps_frame(frame: Seq<Pixel>)
    ensures
        dimmed(frame, 255) == frame,
{
    assert forall|i: int| 0 <= i < frame.len() implies dimmed(frame, 255)[i] == frame[i] by {
        let p = frame[i];
        assert(dimmed_channel(p.r, 255) == p.r);
        assert(dimmed_channel(p.g, 255) == p.g);
        assert(dimmed_channel(p.b, 255) == p.b);
    }
    assert(dimmed(frame, 255) =~= frame);
}

} // verus!
