//! Decisions taken while the user drags an edge of the game window.

use vstd::prelude::*;
use crate::geometry::{Rect, WMSZ_LEFT, WMSZ_RIGHT, spec_width, spec_height, fits_i32, spec_moves_top, spec_moves_left, moves_top_edge, moves_left_edge, spec_anchor, anchor_fits};

verus! {

/// What the sizing handler answers: 1 when it was given a rectangle to work
/// on, 0 when the message carried none.
pub fn sizing_answer(has_rect: bool) -> (answer: isize)
    ensures
        answer == (if has_rect { 1isize } else { 0isize }),
{
    if has_rect { 1 } else { 0 }
}

/// Whether a drag is handled by recomputing the whole window from its aspect
/// ratio: always in landscape, and for the left or right edge in portrait.
/// Other drags in portrait resize freely against the remembered size.
pub fn sizing_keeps_window_ratio(is_vertical: bool, edge: u32) -> (b: bool)
    ensures
        b == (!is_vertical || edge == WMSZ_LEFT || edge == WMSZ_RIGHT),
{
    !is_vertical || edge == WMSZ_LEFT || edge == WMSZ_RIGHT
}

/// Which side of a freely resized window is derived from the other.
#[derive(Clone, Copy, Debug, PartialEq, Eq, Structural)]
pub enum FitAxis {
    /// The height is recomputed from the width.
    HeightFromWidth,
    /// The width is recomputed from the height.
    WidthFromHeight,
    /// Both sides stay as proposed.
    Neither,
}

/// Chooses the side to recompute in a free resize.  `wider` and `narrower` say
/// whether the proposed width-to-height ratio is above or below the target
/// ratio; `height_shrunk` and `width_shrunk` whether the proposed sides are
/// below the remembered ones.  The height follows the width when the proposal
/// is too wide without losing height, or when it lost width; otherwise the
/// width follows the height when the proposal is too narrow without losing
/// width, or when it lost height.
pub fn choose_fit_axis(wider: bool, narrower: bool, height_shrunk: bool, width_shrunk: bool) -> (axis: FitAxis)
    ensures
        axis == (if (wider && !height_shrunk) || width_shrunk {
            FitAxis::HeightFromWidth
        } else if (narrower && !width_shrunk) || height_shrunk {
            FitAxis::WidthFromHeight
        } else {
            FitAxis::Neither
        }),
{
    if (wider && !height_shrunk) || width_shrunk {
        FitAxis::HeightFromWidth
    } else if (narrower && !width_shrunk) || height_shrunk {
        FitAxis::WidthFromHeight
    } else {
        FitAxis::Neither
    }
}

/// The size of the window frame: how much wider and taller the window is than
/// its client area (whose rectangle starts at 0, 0).
pub fn frame_size(window: Rect, client: Rect) -> (size: (i32, i32))
    requires
        fits_i32(spec_width(window)),
        fits_i32(spec_height(window)),
        fits_i32(spec_width(window) - client.right),
        fits_i32(spec_height(window) - client.bottom),
    ensures
        size.0 == spec_width(window) - client.right,
        size.1 == spec_height(window) - client.bottom,
{
    (window.width() - client.right, window.height() - client.bottom)
}

/// The window recomputed from its aspect ratio, before any dragged side moves:
/// it keeps its top-left corner and takes the new outer size.
pub fn place_window(window: Rect, width: i32, height: i32) -> (out: Rect)
    requires
        fits_i32(window.left + width),
        fits_i32(window.top + height),
    ensures
        out == (Rect { left: window.left, top: window.top, right: (window.left + width) as i32, bottom: (window.top + height) as i32 }),
{
    Rect { left: window.left, top: window.top, right: window.left + width, bottom: window.top + height }
}

/// Moves the dragged sides of a recomputed window: a drag involving the top
/// edge puts the top at `shifted_top`, one involving the left edge puts the
/// left side at `shifted_left`; all other sides stay.
pub fn shift_dragged_sides(r: Rect, edge: u32, shifted_top: i32, shifted_left: i32) -> (out: Rect)
    ensures
        out.top == (if spec_moves_top(edge) { shifted_top } else { r.top }),
        out.left == (if spec_moves_left(edge) { shifted_left } else { r.left }),
        out.right == r.right,
        out.bottom == r.bottom,
{
    let mut out = r;
    if moves_top_edge(edge) {
        out.top = shifted_top;
    }
    if moves_left_edge(edge) {
        out.left = shifted_left;
    }
    out
}

/// Resizing along the same edge to the same size a second time changes nothing.
pub proof fn lemma_anchor_idempotent(r: Rect, edge: u32, width: int, height: int)
    requires
        anchor_fits(r, edge, width, height),
    ensures
        anchor_fits(spec_anchor(r, edge, width, height), edge, width, height),
        spec_anchor(spec_anchor(r, edge, width, height), edge, width, height) == spec_anchor(r, edge, width, height),
{
}

/// A free resize never moves a side that is not being dragged: for any edge,
/// the bottom or the top stays, and the right or the left side stays.
pub proof fn lemma_anchor_keeps_opposite_sides(r: Rect, edge: u32, width: int, height: int)
    requires
        anchor_fits(r, edge, width, height),
    ensures
        spec_anchor(r, edge, width, height).bottom == r.bottom || spec_anchor(r, edge, width, height).top == r.top,
        spec_anchor(r, edge, width, height).right == r.right || spec_anchor(r, edge, width, height).left == r.left,
        spec_width(spec_anchor(r, edge, width, height)) == width,
        spec_height(spec_anchor(r, edge, width, height)) == height,
{
}

} // verus!
