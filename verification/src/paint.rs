//! Vehicle colours.

use vstd::prelude::*;
use crate::chance::draw_between;

verus! {

/// Lowest intensity of a colour channel of a vehicle.
pub const DIMMEST: u8 = 50;

/// Bound below which every colour channel of a vehicle stays.
pub const BRIGHTEST: u8 = 255;

/// An opaque colour, one byte per channel.
#[derive(Clone, Copy, Debug, PartialEq, Eq, Structural)]
pub struct Color {
    pub r: u8,
    pub g: u8,
    pub b: u8,
    pub a: u8,
}

impl Color {
    /// A vehicle colour is opaque and has no channel dimmer than `DIMMEST`
    /// or as bright as `BRIGHTEST`.
    pub open spec fn is_vivid(&self) -> bool {
        &&& DIMMEST <= self.r < BRIGHTEST
        &&& DIMMEST <= self.g < BRIGHTEST
        &&& DIMMEST <= self.b < BRIGHTEST
        &&& self.a == 255
    }

    /// The opaque colour with the given channels.
    pub fn opaque(r: u8, g: u8, b: u8) -> (c: Color)
        ensures
            c == (Color { r, g, b, a: 255 }),
    {
        Color { r, g, b, a: 255 }
    }

    /// A random vehicle colour. Which one is not determined; it is vivid
    /// whatever the generator returns.
    pub fn random() -> (c: Color)
        ensures
            c.is_vivid(),
    {
        let r: u8 = draw_between(DIMMEST, BRIGHTEST);
        let g: u8 = draw_between(DIMMEST, BRIGHTEST);
        let b: u8 = draw_between(DIMMEST, BRIGHTEST);
        Color::opaque(r, g, b)
    }
}

} // verus!
