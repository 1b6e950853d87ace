//! A screen that draws each of its components in turn.
use vstd::prelude::*;

verus! {

/// Something that can draw itself.
pub trait Draw {
    fn draw(&self);
}

/// A screen made of components of any kind that can draw itself.
pub struct Screen {
    pub components: Vec<Box<dyn Draw>>,
}

impl Screen {
    /// Draws every component, in order.
    pub fn run(&self) {
        for k in 0..self.components.len() {
            self.components[k].draw();
        }
    }
}

} // verus!
