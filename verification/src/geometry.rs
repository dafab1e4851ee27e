//! Areas of rectangles, given either as a bare pair of dimensions or as a
//! struct.

use vstd::prelude::*;

verus! {

/// A rectangle, by its side lengths.
#[derive(Debug)]
pub struct Rectangle {
    /// Horizontal side.
    pub width: u32,
    /// Vertical side.
    pub height: u32,
}

/// The area of a rectangle given as a `(width, height)` pair.
pub fn area_dimensions(dimensions: (u32, u32)) -> (area: u32)
    requires
        dimensions.0 * dimensions.1 <= u32::MAX,
    ensures
        area == dimensions.0 * dimensions.1,
{
    dimensions.0 * dimensions.1
}

/// The area of a rectangle.
pub fn area_struct(rec: &Rectangle) -> (area: u32)
    requires
        rec.width * rec.height <= u32::MAX,
    ensures
        area == rec.width * rec.height,
{
    rec.width * rec.height
}

} // verus!
