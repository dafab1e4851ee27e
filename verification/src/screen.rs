//! A screen of drawable components: anything that knows how to draw itself
//! can be put on one.

use vstd::prelude::*;

verus! {

/// Something that can draw itself.
pub trait Draw {
    /// Draws the component.
    fn draw(&self);
}

/// A screen holding components of one drawable kind.
pub struct Screen<T: Draw> {
    /// The components, drawn in this order.
    pub components: Vec<T>,
}

impl<T: Draw> Screen<T> {
    /// Draws every component, first to last.
    pub fn run(&self) {
        let mut i: usize = 0;
        while i < self.components.len()
            invariant
                i <= self.components@.len(),
            decreases self.components@.len() - i,
        {
            self.components[i].draw();
            i += 1;
        }
    }
}

/// A plain button.
pub struct Button {
    /// Horizontal extent.
    pub width: usize,
    /// Vertical extent.
    pub height: usize,
    /// The caption shown on the button.
    pub label: String,
}

impl Draw for Button {
    fn draw(&self) {
    }
}

} // verus!
