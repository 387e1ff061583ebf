//! Which game window to look for, and how its orientation and cursor are treated.

use vstd::prelude::*;

verus! {

/// When set, the window is always treated as landscape, whatever the game reports.
pub const FORCE_LANDSCAPE: bool = false;

/// The class name of the game's main window.
pub const GAME_WINDOW_CLASS: &'static str = "UnityWndClass";

/// The width, in pixels, that the game's cursor coordinates are laid out for.
pub const REFERENCE_WIDTH: i32 = 1920;

/// Numerator of the window's width-to-height ratio (16:9).
pub const ASPECT_WIDTH: u32 = 16;

/// Denominator of the window's width-to-height ratio (16:9).
pub const ASPECT_HEIGHT: u32 = 9;

/// Whether the game window counts as vertical (portrait).  `game_reports_vertical`
/// is what the game's own `StandaloneWindowResize.IsVirt` says.
pub fn is_virt(game_reports_vertical: bool) -> (b: bool)
    ensures
        b == (!FORCE_LANDSCAPE && game_reports_vertical),
{
    if FORCE_LANDSCAPE {
        return false;
    }
    game_reports_vertical
}

/// The region the game build is published for.
#[derive(Clone, Copy, Debug, PartialEq, Eq, Structural)]
pub enum Region {
    Japan,
    Other,
}

/// The title of the game's main window: the Japanese Steam build has its own
/// title; every other build is found by the (case-insensitive) title "umamusume".
pub fn game_window_title(region: Region, is_steam_release: bool) -> (title: &'static str)
    ensures
        (region == Region::Japan && is_steam_release) ==> title@ == "UmamusumePrettyDerby_Jpn"@,
        !(region == Region::Japan && is_steam_release) ==> title@ == "umamusume"@,
{
    if region == Region::Japan && is_steam_release {
        "UmamusumePrettyDerby_Jpn"
    } else {
        "umamusume"
    }
}

/// The cursor hook is installed only while the game screen is portrait or square
/// (its height is not below its width).
pub fn cursor_hook_wanted(screen_width: i32, screen_height: i32) -> (b: bool)
    ensures
        b == (screen_height >= screen_width),
{
    !(screen_height < screen_width)
}

/// How cursor coordinates are scaled back to the game's reference width.
#[derive(Clone, Copy, Debug, PartialEq, Eq, Structural)]
pub enum ResolutionScaling {
    /// No scaling.
    Default,
    /// Scale by the current screen resolution's width.
    ScaleToScreenSize,
    /// Scale by the game window's width.
    ScaleToWindowSize,
}

/// What the cursor hook does with a point it has read.
#[derive(Clone, Copy, Debug, PartialEq, Eq, Structural)]
pub enum CursorStep {
    /// The underlying read failed: report failure, leave the point alone.
    Fail,
    /// Report success and hand the point back untouched.
    PassThrough,
    /// Convert the point to client coordinates, then continue.
    ToClient,
    /// Scale the (client) point, convert it back to screen coordinates, report success.
    Scale,
}

/// The first decision of the cursor hook.  A failed read is reported as a
/// failure; on a portrait screen (height above width) the point passes through;
/// otherwise it is converted to client coordinates for scaling.
pub fn cursor_first_step(read_ok: bool, screen_width: i32, screen_height: i32) -> (s: CursorStep)
    ensures
        !read_ok ==> s == CursorStep::Fail,
        read_ok && screen_height > screen_width ==> s == CursorStep::PassThrough,
        read_ok && screen_height <= screen_width ==> s == CursorStep::ToClient,
{
    if !read_ok {
        CursorStep::Fail
    } else if screen_height > screen_width {
        CursorStep::PassThrough
    } else {
        CursorStep::ToClient
    }
}

/// The second decision of the cursor hook, once the point is in client
/// coordinates: without a known game window the point is reported as it now
/// stands; otherwise it is scaled.
pub fn cursor_second_step(window_known: bool) -> (s: CursorStep)
    ensures
        !window_known ==> s == CursorStep::PassThrough,
        window_known ==> s == CursorStep::Scale,
{
    if window_known {
        CursorStep::Scale
    } else {
        CursorStep::PassThrough
    }
}

/// The width the point is scaled by, relative to `REFERENCE_WIDTH`; `None`
/// means the point is not scaled at all.
pub fn cursor_scale_width(mode: ResolutionScaling, window_width: i32, screen_width: i32) -> (w: Option<i32>)
    ensures
        mode == ResolutionScaling::Default ==> w == None::<i32>,
        mode == ResolutionScaling::ScaleToScreenSize ==> w == Some(screen_width),
        mode == ResolutionScaling::ScaleToWindowSize ==> w == Some(window_width),
{
    match mode {
        ResolutionScaling::ScaleToScreenSize => Some(screen_width),
        ResolutionScaling::ScaleToWindowSize => Some(window_width),
        ResolutionScaling::Default => None,
    }
}

} // verus!
