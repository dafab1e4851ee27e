//! A one-element box: the smallest container there is.

use vstd::prelude::*;

verus! {

/// A value in a box of its own.
pub struct MyBox<T>(pub T);

impl<T> MyBox<T> {
    /// Boxes the value.
    pub fn new(x: T) -> (b: MyBox<T>)
        ensures
            b.0 == x,
    {
        MyBox(x)
    }

    /// A reference to the boxed value, as dereferencing the box yields it.
    pub fn inner(&self) -> (r: &T)
        ensures
            r == self.0,
    {
        &self.0
    }
}

} // verus!
