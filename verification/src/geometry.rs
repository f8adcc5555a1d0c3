//! Rectangles on the desktop: window extents and monitor extents.

use vstd::prelude::*;

verus! {

/// A rectangle on the desktop: origin and size, as the graphics server and
/// the window manager report them.  Equality is structural; two extents are
/// the same monitor region exactly when all four components agree.
#[derive(Clone, Copy, Debug, PartialEq, Eq, Structural)]
pub struct Geometry {
    pub x: i32,
    pub y: i32,
    pub width: i32,
    pub height: i32,
}

impl Geometry {
    pub fn new(x: i32, y: i32, width: i32, height: i32) -> (r: Geometry)
        ensures
            r == (Geometry { x, y, width, height }),
    {
        Geometry { x, y, width, height }
    }

    /// Window geometry arrives with unsigned sizes; the desktop model is
    /// signed throughout.
    pub fn from_window(x: i32, y: i32, width: u32, height: u32) -> (r: Geometry)
        requires
            width <= i32::MAX as u32,
            height <= i32::MAX as u32,
        ensures
            r == (Geometry { x, y, width: width as i32, height: height as i32 }),
    {
        Geometry { x, y, width: width as i32, height: height as i32 }
    }
}

/// Structural equality on optional extents: absent equals absent.
pub fn opt_geometry_eq(a: &Option<Geometry>, b: &Option<Geometry>) -> (r: bool)
    ensures
        r == (*a == *b),
{
    match (a, b) {
        (Some(ga), Some(gb)) => *ga == *gb,
        (None, None) => true,
        _ => false,
    }
}

} // verus!
