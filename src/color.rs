use vstd::prelude::*;

verus! {

/// A color with an extra channel `a`, used as brightness (not transparency).
#[derive(Clone, Copy, Debug, PartialEq, Eq, Structural)]
pub struct Rgba {
    pub r: u8,
    pub g: u8,
    pub b: u8,
    pub a: u8,
}

/// A plain color, three 8-bit channels.
#[derive(Clone, Copy, Debug, PartialEq, Eq, Structural)]
pub struct Rgb {
    pub r: u8,
    pub g: u8,
    pub b: u8,
}

/// One rendered frame: a color and the brightness it is shown at.
#[derive(Clone, Copy, Debug, PartialEq, Eq, Structural)]
pub struct Frame {
    pub color: Rgb,
    pub brightness: u8,
}

impl View for Frame {
    /// The frame as (red, green, blue, brightness).
    type V = (int, int, int, int);

    open spec fn view(&self) -> (int, int, int, int) {
        (self.color.r as int, self.color.g as int, self.color.b as int, self.brightness as int)
    }
}

impl Rgba {
    pub fn new(r: u8, g: u8, b: u8, a: u8) -> (c: Rgba)
        ensures
            c == (Rgba { r, g, b, a }),
    {
        Rgba { r, g, b, a }
    }

    /// The color channels without the brightness.
    pub fn rgb(&self) -> (c: Rgb)
        ensures
            c == (Rgb { r: self.r, g: self.g, b: self.b }),
    {
        Rgb { r: self.r, g: self.g, b: self.b }
    }
}

impl Frame {
    /// The dark frame: black at zero brightness.
    pub fn dark() -> (f: Frame)
        ensures
            f@ == (0int, 0int, 0int, 0int),
    {
        Frame { color: Rgb { r: 0, g: 0, b: 0 }, brightness: 0 }
    }
}

} // verus!
