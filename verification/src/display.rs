//! The monochrome framebuffer.

use vstd::prelude::*;

use crate::util::zero_bytes;

verus! {

/// Framebuffer width in pixels.
pub const WIDTH: u8 = 64;

/// Framebuffer height in pixels.
pub const HEIGHT: u8 = 32;

/// A 64 by 32 one-bit-per-pixel bitmap, stored one byte per pixel in
/// row-major order. Pixel `(x, y)` lives at index `y * 64 + x`.
pub struct Display {
    pub memory: Vec<u8>,
}

impl Display {
    /// Every pixel exists and holds a single bit.
    pub open spec fn wf(self) -> bool {
        &&& self.memory@.len() == 2048
        &&& forall|p: int| 0 <= p < 2048 ==> self.memory@[p] <= 1
    }

    /// Every pixel is off.
    pub open spec fn is_blank(self) -> bool {
        &&& self.memory@.len() == 2048
        &&& forall|p: int| 0 <= p < 2048 ==> self.memory@[p] == 0
    }

    pub fn new() -> (d: Display)
        ensures
            d.wf(),
            d.is_blank(),
    {
        Display { memory: zero_bytes(2048) }
    }

    pub fn reset(&mut self)
        ensures
            final(self).wf(),
            final(self).is_blank(),
    {
        self.memory = zero_bytes(2048);
    }
}

} // verus!
