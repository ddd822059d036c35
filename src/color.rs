//! The color of one pixel.
use vstd::prelude::*;

verus! {

/// Red, green and blue channels of one pixel.
#[derive(Clone, Copy, Debug, PartialEq, Eq, Structural)]
pub struct Color(pub u8, pub u8, pub u8);

impl Color {
    pub fn black() -> (c: Color)
        ensures
            c == Color(0, 0, 0),
    {
        Color(0, 0, 0)
    }

    pub fn white() -> (c: Color)
        ensures
            c == Color(255, 255, 255),
    {
        Color(255, 255, 255)
    }

    pub fn red() -> (c: Color)
        ensures
            c == Color(255, 0, 0),
    {
        Color(255, 0, 0)
    }

    pub fn green() -> (c: Color)
        ensures
            c == Color(0, 255, 0),
    {
        Color(0, 255, 0)
    }

    pub fn blue() -> (c: Color)
        ensures
            c == Color(0, 0, 255),
    {
        Color(0, 0, 255)
    }

    pub fn purple() -> (c: Color)
        ensures
            c == Color(160, 32, 240),
    {
        Color(160, 32, 240)
    }

    pub fn orange() -> (c: Color)
        ensures
            c == Color(255, 127, 0),
    {
        Color(255, 127, 0)
    }

    pub fn new(r: u8, g: u8, b: u8) -> (c: Color)
        ensures
            c == Color(r, g, b),
    {
        Color(r, g, b)
    }

    /// The sum of the three channels.
    pub open spec fn channel_sum(self) -> int {
        self.0 as int + self.1 as int + self.2 as int
    }
}

} // verus!
