//! Window rectangles and the edges a user can drag while resizing.

use vstd::prelude::*;

verus! {

/// `WMSZ_LEFT`: the left edge is being dragged.
pub const WMSZ_LEFT: u32 = 1;
/// `WMSZ_RIGHT`: the right edge is being dragged.
pub const WMSZ_RIGHT: u32 = 2;
/// `WMSZ_TOP`: the top edge is being dragged.
pub const WMSZ_TOP: u32 = 3;
/// `WMSZ_TOPLEFT`: the top-left corner is being dragged.
pub const WMSZ_TOPLEFT: u32 = 4;
/// `WMSZ_TOPRIGHT`: the top-right corner is being dragged.
pub const WMSZ_TOPRIGHT: u32 = 5;
/// `WMSZ_BOTTOM`: the bottom edge is being dragged.
pub const WMSZ_BOTTOM: u32 = 6;
/// `WMSZ_BOTTOMLEFT`: the bottom-left corner is being dragged.
pub const WMSZ_BOTTOMLEFT: u32 = 7;
/// `WMSZ_BOTTOMRIGHT`: the bottom-right corner is being dragged.
pub const WMSZ_BOTTOMRIGHT: u32 = 8;

/// A screen rectangle in pixels, laid out like the Win32 `RECT`.
#[derive(Clone, Copy, Debug, PartialEq, Eq, Structural)]
pub struct Rect {
    pub left: i32,
    pub top: i32,
    pub right: i32,
    pub bottom: i32,
}

/// The width of a rectangle, as an unbounded integer.
pub open spec fn spec_width(r: Rect) -> int {
    r.right - r.left
}

/// The height of a rectangle, as an unbounded integer.
pub open spec fn spec_height(r: Rect) -> int {
    r.bottom - r.top
}

/// Whether a value fits in an `i32`.
pub open spec fn fits_i32(v: int) -> bool {
    i32::MIN <= v <= i32::MAX
}

/// Dragging this edge code moves the top side of the window.
pub open spec fn spec_moves_top(edge: u32) -> bool {
    edge == WMSZ_TOP || edge == WMSZ_TOPLEFT || edge == WMSZ_TOPRIGHT
}

/// Dragging this edge code moves the left side of the window.
pub open spec fn spec_moves_left(edge: u32) -> bool {
    edge == WMSZ_LEFT || edge == WMSZ_TOPLEFT || edge == WMSZ_BOTTOMLEFT
}

impl Rect {
    /// `right - left`; the subtraction must not overflow.
    pub fn width(&self) -> (w: i32)
        requires
            fits_i32(spec_width(*self)),
        ensures
            w == spec_width(*self),
    {
        self.right - self.left
    }

    /// `bottom - top`; the subtraction must not overflow.
    pub fn height(&self) -> (h: i32)
        requires
            fits_i32(spec_height(*self)),
        ensures
            h == spec_height(*self),
    {
        self.bottom - self.top
    }
}

/// Whether dragging `edge` moves the top side (top, top-left, top-right).
pub fn moves_top_edge(edge: u32) -> (b: bool)
    ensures
        b == spec_moves_top(edge),
{
    edge == WMSZ_TOP || edge == WMSZ_TOPLEFT || edge == WMSZ_TOPRIGHT
}

/// Whether dragging `edge` moves the left side (left, top-left, bottom-left).
pub fn moves_left_edge(edge: u32) -> (b: bool)
    ensures
        b == spec_moves_left(edge),
{
    edge == WMSZ_LEFT || edge == WMSZ_TOPLEFT || edge == WMSZ_BOTTOMLEFT
}

/// The rectangle `r` resized to `width` by `height` while the user drags `edge`.
pub open spec fn spec_anchor(r: Rect, edge: u32, width: int, height: int) -> Rect {
    Rect {
        left: if spec_moves_left(edge) { (r.right - width) as i32 } else { r.left },
        top: if spec_moves_top(edge) { (r.bottom - height) as i32 } else { r.top },
        right: if spec_moves_left(edge) { r.right } else { (r.left + width) as i32 },
        bottom: if spec_moves_top(edge) { r.bottom } else { (r.top + height) as i32 },
    }
}

/// The new corners fit in `i32` when `r` is resized to `width` by `height` along `edge`.
pub open spec fn anchor_fits(r: Rect, edge: u32, width: int, height: int) -> bool {
    &&& (spec_moves_left(edge) ==> fits_i32(r.right - width))
    &&& (!spec_moves_left(edge) ==> fits_i32(r.left + width))
    &&& (spec_moves_top(edge) ==> fits_i32(r.bottom - height))
    &&& (!spec_moves_top(edge) ==> fits_i32(r.top + height))
}

/// Resizes `r` to `width` by `height` for a drag of `edge`: the sides that are
/// not being dragged stay where they are and the dragged sides move.  When a
/// top edge is dragged the bottom stays put, otherwise the top does; when a
/// left edge is dragged the right side stays put, otherwise the left does.
pub fn anchor_rect(r: Rect, edge: u32, width: i32, height: i32) -> (out: Rect)
    requires
        anchor_fits(r, edge, width as int, height as int),
    ensures
        out == spec_anchor(r, edge, width as int, height as int),
        spec_width(out) == width,
        spec_height(out) == height,
        spec_moves_top(edge) ==> out.bottom == r.bottom,
        !spec_moves_top(edge) ==> out.top == r.top,
        spec_moves_left(edge) ==> out.right == r.right,
        !spec_moves_left(edge) ==> out.left == r.left,
{
    let mut out = r;
    if moves_top_edge(edge) {
        out.top = r.bottom - height;
    } else {
        out.bottom = r.top + height;
    }
    if moves_left_edge(edge) {
        out.left = r.right - width;
    } else {
        out.right = r.left + width;
    }
    out
}

} // verus!
