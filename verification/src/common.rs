//! Common geometry value objects shared by images and render targets.

use vstd::prelude::*;

verus! {

/// An axis-aligned rectangle given by two corner points, in pixels.
#[derive(Clone, Copy, Debug, PartialEq, Eq, Structural)]
pub struct Rect2D {
    pub x0: usize,
    pub y0: usize,
    pub x1: usize,
    pub y1: usize,
}

impl Rect2D {
    pub fn new(x0: usize, y0: usize, x1: usize, y1: usize) -> (r: Rect2D)
        ensures
            r == (Rect2D { x0, y0, x1, y1 }),
    {
        Rect2D { x0, y0, x1, y1 }
    }
}

impl Default for Rect2D {
    /// The empty rectangle at the origin.
    fn default() -> (r: Rect2D)
        ensures
            r == (Rect2D { x0: 0, y0: 0, x1: 0, y1: 0 }),
    {
        Rect2D { x0: 0, y0: 0, x1: 0, y1: 0 }
    }
}

} // verus!
