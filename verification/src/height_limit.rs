//! Read-only height bounds of a dimension at runtime, possibly narrower than
//! the settings-declared shape.

use vstd::prelude::*;

verus! {

/// Bottom and top height bound a dimension enforces at runtime.
#[derive(Clone, Copy, PartialEq, Eq, Structural, Debug)]
pub struct HeightLimitView {
    pub bottom: i8,
    pub top: u16,
}

impl HeightLimitView {
    /// A view over the given bounds.
    pub fn new(bottom: i8, top: u16) -> (r: HeightLimitView)
        ensures
            r.bottom == bottom,
            r.top == top,
    {
        HeightLimitView { bottom, top }
    }

    /// Lowest height the dimension admits.
    pub fn bottom_y(&self) -> (r: i8)
        ensures
            r == self.bottom,
    {
        self.bottom
    }

    /// Height just above the highest the dimension admits.
    pub fn top_y(&self) -> (r: u16)
        ensures
            r == self.top,
    {
        self.top
    }
}

} // verus!
