//! Adapts a frame to what an LED driver takes: one brightness-scaled,
//! gamma-corrected color.
use vstd::prelude::*;
use smart_leds::RGB8;
use crate::color::{Frame, Rgb};

verus! {

/// One channel scaled by a brightness level: `x * (level + 1) / 256`.
pub open spec fn scaled(x: u8, level: u8) -> u8 {
    (x * (level + 1) / 256) as u8
}

/// The gamma-corrected value of one channel.
pub uninterp spec fn gamma_of(x: u8) -> u8;

/// Relies on `smart_leds::brightness`, which maps each channel `x` to
/// `x * (level + 1) / 256`, computed in `u16`.
#[verifier::external_body]
fn dim(c: Rgb, level: u8) -> (r: Rgb)
    ensures
        r.r == scaled(c.r, level),
        r.g == scaled(c.g, level),
        r.b == scaled(c.b, level),
{
    let x = smart_leds::brightness(core::iter::once(RGB8 { r: c.r, g: c.g, b: c.b }), level)
        .next()
        .unwrap();
    Rgb { r: x.r, g: x.g, b: x.b }
}

/// Relies on `smart_leds::gamma`, which maps each channel through a fixed
/// 256-entry table, each channel on its own.
#[verifier::external_body]
fn gamma_correct(c: Rgb) -> (r: Rgb)
    ensures
        r.r == gamma_of(c.r),
        r.g == gamma_of(c.g),
        r.b == gamma_of(c.b),
{
    let x = smart_leds::gamma(core::iter::once(RGB8 { r: c.r, g: c.g, b: c.b })).next().unwrap();
    Rgb { r: x.r, g: x.g, b: x.b }
}

/// The color to hand to the LED driver for `f`: each channel scaled by the
/// frame's brightness, then gamma-corrected.
pub fn sink_color(f: &Frame) -> (r: Rgb)
    ensures
        r.r == gamma_of(scaled(f.color.r, f.brightness)),
        r.g == gamma_of(scaled(f.color.g, f.brightness)),
        r.b == gamma_of(scaled(f.color.b, f.brightness)),
{
    gamma_correct(dim(f.color, f.brightness))
}

} // verus!
