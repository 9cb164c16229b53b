pub mod fixed;
pub mod trig;
pub mod canvas;
pub mod primitives;
pub mod anim;
pub mod rng;
pub mod config;
pub mod instrument;
pub mod geometry;
pub mod text;
pub mod scene;
pub mod state;
pub mod layout;

use vstd::prelude::*;

verus! {

/// An RGB color composited onto the canvas at full destination opacity.
#[derive(Debug, Clone, Copy, PartialEq, Eq, Structural)]
pub struct Color {
    pub r: u8,
    pub g: u8,
    pub b: u8,
}

impl Color {
    pub fn new(r: u8, g: u8, b: u8) -> (c: Self)
        ensures
            c.r == r && c.g == g && c.b == b,
    {
        Self { r, g, b }
    }

    pub fn as_tuple(self) -> (t: (u8, u8, u8))
        ensures
            t.0 == self.r && t.1 == self.g && t.2 == self.b,
    {
        (self.r, self.g, self.b)
    }
}

} // verus!
