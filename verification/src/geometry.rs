//! Sizes and positions, as plain integers.

use vstd::prelude::*;

verus! {

/// The visible region that animation content is mapped onto, in pixels.
#[derive(Clone, Copy, Debug, PartialEq, Eq, Structural)]
pub struct Viewport {
    pub width: u32,
    pub height: u32,
}

impl Viewport {
    /// The viewport of a program that has not been resized yet: empty.
    pub open spec fn initial() -> Viewport {
        Viewport { width: 0, height: 0 }
    }

    pub fn new(width: u32, height: u32) -> (viewport: Viewport)
        ensures
            viewport == (Viewport { width, height }),
    {
        Viewport { width, height }
    }

    /// Replaces the stored dimensions.
    pub fn resize(&mut self, width: u32, height: u32)
        ensures
            *final(self) == (Viewport { width, height }),
    {
        self.width = width;
        self.height = height;
    }
}

impl Default for Viewport {
    fn default() -> (viewport: Viewport)
        ensures
            viewport == Viewport::initial(),
    {
        Viewport { width: 0, height: 0 }
    }
}

/// The pixel dimensions the presentable surface is configured with.
#[derive(Clone, Copy, Debug, PartialEq, Eq, Structural)]
pub struct SurfaceSize {
    pub width: u32,
    pub height: u32,
}

impl SurfaceSize {
    pub fn new(width: u32, height: u32) -> (size: SurfaceSize)
        ensures
            size == (SurfaceSize { width, height }),
    {
        SurfaceSize { width, height }
    }
}

/// One coordinate of the pointer, exactly as the window system reported it.
///
/// The window system reports coordinates as double-precision numbers. No
/// arithmetic is ever done on them here, so a coordinate is kept as the 64
/// bits of that number and handed on untouched.
#[derive(Clone, Copy, Debug, PartialEq, Eq, Structural)]
pub struct Coordinate {
    pub bits: u64,
}

impl Coordinate {
    pub fn from_bits(bits: u64) -> (coordinate: Coordinate)
        ensures
            coordinate.bits == bits,
    {
        Coordinate { bits }
    }
}

} // verus!
