//! Pointer position on the page.

use vstd::prelude::*;

verus! {

/// A point on the page, in client coordinates.
#[derive(Debug, Clone, Copy)]
pub struct PagePosition {
    pub x: i32,
    pub y: i32,
}

impl PagePosition {
    /// The top-left corner, where the pointer is taken to be before any event arrived.
    pub fn origin() -> (p: PagePosition)
        ensures
            p.x == 0,
            p.y == 0,
    {
        PagePosition { x: 0, y: 0 }
    }
}

} // verus!
