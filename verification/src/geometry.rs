use vstd::prelude::*;

verus! {

/// An axis-aligned rectangle in window pixels, edges included.
#[derive(Debug, Clone, Copy, PartialEq, Eq, Structural)]
pub struct Rect {
    pub left: i32,
    pub top: i32,
    pub right: i32,
    pub bottom: i32,
}

/// A point in window pixels.
#[derive(Debug, Clone, Copy, PartialEq, Eq, Structural)]
pub struct Point {
    pub x: i32,
    pub y: i32,
}

/// A point hits a rectangle when it lies between its edges, both edges included.
pub open spec fn point_in_rect(rect: Rect, pt: Point) -> bool {
    rect.left <= pt.x <= rect.right && rect.top <= pt.y <= rect.bottom
}

/// Whether `x` can be held by an `i32`.
pub open spec fn fits_i32(x: int) -> bool {
    i32::MIN <= x <= i32::MAX
}

/// Integer division by two that rounds toward zero, as `i32` division does.
pub open spec fn half_toward_zero(x: int) -> int {
    if x >= 0 {
        x / 2
    } else {
        -((-x) / 2)
    }
}

/// The larger of two integers.
pub open spec fn max_int(a: int, b: int) -> int {
    if a >= b {
        a
    } else {
        b
    }
}

/// Hit test used for every clickable region of the windows.
pub fn rect_contains(rect: &Rect, pt: Point) -> (res: bool)
    ensures
        res == point_in_rect(*rect, pt),
{
    pt.x >= rect.left && pt.x <= rect.right && pt.y >= rect.top && pt.y <= rect.bottom
}

/// Top-left corner that centres a window of `width` by `height` on a screen of
/// `screen_width` by `screen_height`.
pub fn centered_origin(screen_width: i32, screen_height: i32, width: i32, height: i32) -> (res:
    Point)
    requires
        fits_i32(screen_width - width),
        fits_i32(screen_height - height),
    ensures
        res.x == half_toward_zero(screen_width - width),
        res.y == half_toward_zero(screen_height - height),
{
    Point { x: (screen_width - width) / 2, y: (screen_height - height) / 2 }
}

} // verus!
