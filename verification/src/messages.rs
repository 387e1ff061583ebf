//! Routing of the game window's messages, the CBT hook's minimize guard, and
//! the small pieces of hook state that go with them.

use vstd::prelude::*;

verus! {

/// `WM_SIZE`: the window's size has changed.
pub const WM_SIZE: u32 = 0x0005;
/// `WM_CLOSE`: the window is asked to close.
pub const WM_CLOSE: u32 = 0x0010;
/// `WM_KEYDOWN`: a key was pressed.
pub const WM_KEYDOWN: u32 = 0x0100;
/// `WM_SYSKEYDOWN`: a key was pressed while Alt was held (or with no focus window).
pub const WM_SYSKEYDOWN: u32 = 0x0104;
/// `WM_SIZING`: the user is dragging a window edge.
pub const WM_SIZING: u32 = 0x0214;
/// `HCBT_MINMAX`: a CBT hook code, a window is about to be minimized or maximized.
pub const HCBT_MINMAX: i32 = 1;
/// `SW_RESTORE`: the show command that restores a window.
pub const SW_RESTORE: i32 = 9;

/// The first decision on a message that reaches the game window.
#[derive(Clone, Copy, Debug, PartialEq, Eq, Structural)]
pub enum WndRoute {
    /// The game's own window procedure is not known: hand the message to `DefWindowProcW`.
    DefaultProc,
    /// The menu key was pressed: open or close the menu if the GUI exists.
    MenuKey,
    /// Close request: detach the hook and let the main thread close the window; answer 0.
    Close,
    /// Hand the message to the game's own window procedure unchanged.
    CallGameProc,
    /// The user drags an edge: adjust the proposed rectangle.
    UnlockSize,
    /// Anything else: the GUI may want it as input.
    Input,
}

/// The low 16 bits of a key message's `wParam`: its virtual-key code.
pub open spec fn spec_virtual_key(wparam: usize) -> u16 {
    (wparam as int % 0x10000) as u16
}

/// Routes a message by its kind.  Without the game's own procedure everything goes
/// to the default procedure.  A key press whose virtual-key code is the menu
/// key toggles the menu; other key presses count as input.  Close requests,
/// size changes and edge drags have routes of their own.
pub open spec fn spec_route(has_game_proc: bool, umsg: u32, wparam: usize, menu_open_key: u16) -> WndRoute {
    if !has_game_proc {
        WndRoute::DefaultProc
    } else if (umsg == WM_KEYDOWN || umsg == WM_SYSKEYDOWN) && spec_virtual_key(wparam) == menu_open_key {
        WndRoute::MenuKey
    } else if umsg == WM_CLOSE {
        WndRoute::Close
    } else if umsg == WM_SIZE {
        WndRoute::CallGameProc
    } else if umsg == WM_SIZING {
        WndRoute::UnlockSize
    } else {
        WndRoute::Input
    }
}

/// The virtual-key code carried in a key message's `wParam` (its low 16 bits).
pub fn virtual_key(wparam: usize) -> (k: u16)
    ensures
        k == spec_virtual_key(wparam),
{
    let k = #[verifier::truncate] (wparam as u16);
    assert(k == (wparam % 0x10000) as u16) by (bit_vector)
        requires
            k == #[verifier::truncate] (wparam as u16),
    ;
    k
}

/// The first decision on a window message; see [`spec_route`].
pub fn route_message(has_game_proc: bool, umsg: u32, wparam: usize, menu_open_key: u16) -> (r: WndRoute)
    ensures
        r == spec_route(has_game_proc, umsg, wparam, menu_open_key),
        !has_game_proc ==> r == WndRoute::DefaultProc,
        has_game_proc && umsg == WM_SIZING ==> r == WndRoute::UnlockSize,
        has_game_proc && umsg == WM_CLOSE ==> r == WndRoute::Close,
        r == WndRoute::MenuKey ==> has_game_proc && (umsg == WM_KEYDOWN || umsg == WM_SYSKEYDOWN)
            && (wparam as int) % 0x10000 == menu_open_key as int,
        has_game_proc && umsg != WM_KEYDOWN && umsg != WM_SYSKEYDOWN && umsg != WM_CLOSE && umsg != WM_SIZE
            && umsg != WM_SIZING ==> r == WndRoute::Input,
{
    if !has_game_proc {
        return WndRoute::DefaultProc;
    }
    if (umsg == WM_KEYDOWN || umsg == WM_SYSKEYDOWN) && virtual_key(wparam) == menu_open_key {
        return WndRoute::MenuKey;
    }
    if umsg == WM_CLOSE {
        WndRoute::Close
    } else if umsg == WM_SIZE {
        WndRoute::CallGameProc
    } else if umsg == WM_SIZING {
        WndRoute::UnlockSize
    } else {
        WndRoute::Input
    }
}

/// Only a key press (`WM_KEYDOWN` or `WM_SYSKEYDOWN`) of the menu key toggles
/// the menu: a key release or any other message never does, so one press
/// toggles the menu once.  With the game's own procedure present, every message
/// that is not a key press, close request, size change or edge drag is offered
/// to the GUI as input, whatever its parameters; and a key press whose key is
/// not the menu key is input too.
pub proof fn lemma_route_menu_key_only_on_press(umsg: u32, wparam: usize, menu_open_key: u16)
    ensures
        spec_route(true, umsg, wparam, menu_open_key) == WndRoute::MenuKey
            <==> ((umsg == WM_KEYDOWN || umsg == WM_SYSKEYDOWN) && (wparam as int) % 0x10000 == menu_open_key as int),
        umsg != WM_KEYDOWN && umsg != WM_SYSKEYDOWN && umsg != WM_CLOSE && umsg != WM_SIZE && umsg != WM_SIZING
            ==> spec_route(true, umsg, wparam, menu_open_key) == WndRoute::Input,
        (umsg == WM_KEYDOWN || umsg == WM_SYSKEYDOWN) && (wparam as int) % 0x10000 != menu_open_key as int
            ==> spec_route(true, umsg, wparam, menu_open_key) == WndRoute::Input,
        forall|m: u32, w: usize, k: u16| spec_route(false, m, w, k) == WndRoute::DefaultProc,
{
    let k = spec_virtual_key(wparam);
    assert(k as int == (wparam as int) % 0x10000);
}

/// What the window procedure finally does with a message on the menu-key or input route.
#[derive(Clone, Copy, Debug, PartialEq, Eq, Structural)]
pub enum WndFinish {
    /// Hand the message to the game's own window procedure.
    CallGameProc,
    /// Open or close the menu and answer 0.
    ToggleMenu,
    /// Let a worker thread feed the message to the GUI and answer 0.
    ProcessInput,
}

/// The menu key toggles the menu when the GUI exists; otherwise the message
/// goes on to the game's own procedure.
pub fn menu_key_finish(gui_available: bool) -> (f: WndFinish)
    ensures
        gui_available ==> f == WndFinish::ToggleMenu,
        !gui_available ==> f == WndFinish::CallGameProc,
{
    if gui_available {
        WndFinish::ToggleMenu
    } else {
        WndFinish::CallGameProc
    }
}

/// Input is captured only while the GUI is consuming input and the input
/// processor handles this kind of message; otherwise it goes to the game's own
/// procedure.
pub fn input_finish(gui_consuming_input: bool, handles_message: bool) -> (f: WndFinish)
    ensures
        f == (if gui_consuming_input && handles_message { WndFinish::ProcessInput } else { WndFinish::CallGameProc }),
{
    if !gui_consuming_input {
        return WndFinish::CallGameProc;
    }
    if !handles_message {
        return WndFinish::CallGameProc;
    }
    WndFinish::ProcessInput
}

/// The low 32 bits of an `LPARAM`, read as a signed show command.
pub open spec fn spec_show_command(lparam: isize) -> i32 {
    lparam as i32
}

/// Whether a CBT notification is a minimize/maximize request that is not a
/// restore, at a time the user asked for minimizing to be blocked.  Only then
/// does the hook look at whether the game is in full screen.
pub fn cbt_needs_fullscreen_check(ncode: i32, lparam: isize, block_minimize_in_full_screen: bool) -> (b: bool)
    ensures
        b == spec_cbt_needs_check(ncode, lparam, block_minimize_in_full_screen),
        b == (ncode == HCBT_MINMAX && (lparam as i32) != SW_RESTORE && block_minimize_in_full_screen),
{
    ncode == HCBT_MINMAX && (lparam as i32) != SW_RESTORE && block_minimize_in_full_screen
}

/// Whether the CBT hook must look at full screen before answering; see
/// [`cbt_needs_fullscreen_check`].
pub open spec fn spec_cbt_needs_check(ncode: i32, lparam: isize, block_minimize_in_full_screen: bool) -> bool {
    ncode == HCBT_MINMAX && spec_show_command(lparam) != SW_RESTORE && block_minimize_in_full_screen
}

/// With blocking on, every minimize/maximize request is checked against full
/// screen except a restore: the show command is the low 32 bits of `lparam`, and
/// only the value `SW_RESTORE` there exempts the request.  Other hook codes, or
/// blocking turned off, never need the check.
pub proof fn lemma_cbt_only_restore_is_exempt(ncode: i32, lparam: isize, block: bool)
    ensures
        spec_cbt_needs_check(HCBT_MINMAX, lparam, true) <==> (lparam as i32) != SW_RESTORE,
        ncode != HCBT_MINMAX ==> !spec_cbt_needs_check(ncode, lparam, block),
        !spec_cbt_needs_check(ncode, lparam, false),
        (lparam as i32) == SW_RESTORE ==> !spec_cbt_needs_check(ncode, lparam, block),
{
}

/// The CBT hook's answer once full screen is known: 1 blocks the request,
/// `None` passes it on to the next hook.
pub fn cbt_block_answer(needs_check: bool, full_screen: bool) -> (answer: Option<isize>)
    ensures
        answer == (if needs_check && full_screen { Some(1isize) } else { None::<isize> }),
{
    if needs_check && full_screen {
        Some(1)
    } else {
        None
    }
}

} // verus!
