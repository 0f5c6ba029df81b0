use vstd::prelude::*;

verus! {

/// A screen-space rectangle: position of the top-left corner plus extent.
///
/// Positions are signed, as the display protocol allows windows to sit
/// partially off-screen; extents are unsigned.
#[derive(Clone, Copy, Debug, PartialEq, Eq, Structural)]
pub struct Rect {
    pub x: i32,
    pub y: i32,
    pub width: u32,
    pub height: u32,
}

/// Holds when `r` has exactly the components `(x, y, width, height)` of `t`.
pub open spec fn rect_is(r: Rect, t: (int, int, int, int)) -> bool {
    &&& r.x == t.0
    &&& r.y == t.1
    &&& r.width == t.2
    &&& r.height == t.3
}

} // verus!
