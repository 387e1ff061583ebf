use hachimi::geometry::{anchor_rect, moves_left_edge, moves_top_edge, Rect, WMSZ_BOTTOM, WMSZ_BOTTOMLEFT,
    WMSZ_BOTTOMRIGHT, WMSZ_LEFT, WMSZ_RIGHT, WMSZ_TOP, WMSZ_TOPLEFT, WMSZ_TOPRIGHT};
use hachimi::hooks::{drain_wm_size_buffer, HookSlot, WndProcCall};
use hachimi::messages::{cbt_block_answer, cbt_needs_fullscreen_check, input_finish, menu_key_finish, route_message,
    virtual_key, WndFinish, WndRoute, HCBT_MINMAX, SW_RESTORE, WM_CLOSE, WM_KEYDOWN, WM_SIZE, WM_SIZING,
    WM_SYSKEYDOWN};
use hachimi::sizing::{choose_fit_axis, frame_size, place_window, shift_dragged_sides, sizing_answer,
    sizing_keeps_window_ratio, FitAxis};
use hachimi::window::{cursor_first_step, cursor_hook_wanted, cursor_scale_width, cursor_second_step,
    game_window_title, is_virt, CursorStep, Region, ResolutionScaling, ASPECT_HEIGHT, ASPECT_WIDTH,
    GAME_WINDOW_CLASS, REFERENCE_WIDTH};

fn rect(left: i32, top: i32, right: i32, bottom: i32) -> Rect {
    Rect { left, top, right, bottom }
}

#[test]
fn is_virt_follows_the_game() {
    assert!(is_virt(true));
    assert!(!is_virt(false));
}

#[test]
fn window_title_depends_on_region_and_store() {
    assert_eq!(game_window_title(Region::Japan, true), "UmamusumePrettyDerby_Jpn");
    assert_eq!(game_window_title(Region::Japan, false), "umamusume");
    assert_eq!(game_window_title(Region::Other, true), "umamusume");
    assert_eq!(game_window_title(Region::Other, false), "umamusume");
    assert_eq!(GAME_WINDOW_CLASS, "UnityWndClass");
}

#[test]
fn cursor_hook_only_for_portrait_or_square() {
    assert!(cursor_hook_wanted(1080, 1920));
    assert!(cursor_hook_wanted(1000, 1000));
    assert!(!cursor_hook_wanted(1920, 1080));
}

#[test]
fn cursor_steps() {
    assert_eq!(cursor_first_step(false, 1920, 1080), CursorStep::Fail);
    assert_eq!(cursor_first_step(false, 1080, 1920), CursorStep::Fail);
    assert_eq!(cursor_first_step(true, 1080, 1920), CursorStep::PassThrough);
    assert_eq!(cursor_first_step(true, 1920, 1080), CursorStep::ToClient);
    assert_eq!(cursor_first_step(true, 1000, 1000), CursorStep::ToClient);
    assert_eq!(cursor_second_step(false), CursorStep::PassThrough);
    assert_eq!(cursor_second_step(true), CursorStep::Scale);
}

#[test]
fn cursor_scale_reference() {
    assert_eq!(cursor_scale_width(ResolutionScaling::Default, 1280, 2560), None);
    assert_eq!(cursor_scale_width(ResolutionScaling::ScaleToScreenSize, 1280, 2560), Some(2560));
    assert_eq!(cursor_scale_width(ResolutionScaling::ScaleToWindowSize, 1280, 2560), Some(1280));
    assert_eq!(REFERENCE_WIDTH, 1920);
    assert_eq!(ASPECT_WIDTH as f32 / ASPECT_HEIGHT as f32, 16f32 / 9f32);
}

#[test]
fn edge_codes() {
    for e in [WMSZ_TOP, WMSZ_TOPLEFT, WMSZ_TOPRIGHT] {
        assert!(moves_top_edge(e));
    }
    for e in [WMSZ_LEFT, WMSZ_RIGHT, WMSZ_BOTTOM, WMSZ_BOTTOMLEFT, WMSZ_BOTTOMRIGHT, 0, 9] {
        assert!(!moves_top_edge(e));
    }
    for e in [WMSZ_LEFT, WMSZ_TOPLEFT, WMSZ_BOTTOMLEFT] {
        assert!(moves_left_edge(e));
    }
    for e in [WMSZ_RIGHT, WMSZ_TOP, WMSZ_TOPRIGHT, WMSZ_BOTTOM, WMSZ_BOTTOMRIGHT, 0, 9] {
        assert!(!moves_left_edge(e));
    }
}

#[test]
fn anchor_keeps_the_undragged_sides() {
    let r = rect(100, 50, 500, 950);
    assert_eq!(anchor_rect(r, WMSZ_TOPLEFT, 300, 600), rect(200, 350, 500, 950));
    assert_eq!(anchor_rect(r, WMSZ_BOTTOMRIGHT, 300, 600), rect(100, 50, 400, 650));
    assert_eq!(anchor_rect(r, WMSZ_TOPRIGHT, 300, 600), rect(100, 350, 400, 950));
    assert_eq!(anchor_rect(r, WMSZ_BOTTOMLEFT, 300, 600), rect(200, 50, 500, 650));
    assert_eq!(anchor_rect(r, WMSZ_TOP, 300, 600), rect(100, 350, 400, 950));
    assert_eq!(anchor_rect(r, 0, 300, 600), rect(100, 50, 400, 650));
}

#[test]
fn anchor_twice_is_anchor_once() {
    let r = rect(-20, 10, 700, 400);
    for e in 0..10u32 {
        let once = anchor_rect(r, e, 540, 960);
        assert_eq!(anchor_rect(once, e, 540, 960), once);
        assert_eq!(once.width(), 540);
        assert_eq!(once.height(), 960);
    }
}

#[test]
fn sizing_paths() {
    assert_eq!(sizing_answer(true), 1);
    assert_eq!(sizing_answer(false), 0);
    assert!(sizing_keeps_window_ratio(false, WMSZ_TOP));
    assert!(sizing_keeps_window_ratio(true, WMSZ_LEFT));
    assert!(sizing_keeps_window_ratio(true, WMSZ_RIGHT));
    assert!(!sizing_keeps_window_ratio(true, WMSZ_TOP));
    assert!(!sizing_keeps_window_ratio(true, WMSZ_BOTTOMRIGHT));
}

#[test]
fn fit_axis_choice() {
    assert_eq!(choose_fit_axis(true, false, false, false), FitAxis::HeightFromWidth);
    assert_eq!(choose_fit_axis(false, false, false, true), FitAxis::HeightFromWidth);
    assert_eq!(choose_fit_axis(true, false, true, false), FitAxis::WidthFromHeight);
    assert_eq!(choose_fit_axis(false, true, false, false), FitAxis::WidthFromHeight);
    assert_eq!(choose_fit_axis(false, false, true, false), FitAxis::WidthFromHeight);
    assert_eq!(choose_fit_axis(false, false, false, false), FitAxis::Neither);
    assert_eq!(choose_fit_axis(false, true, false, true), FitAxis::HeightFromWidth);
}

#[test]
fn ratio_window_placement() {
    let window = rect(10, 20, 1310, 760);
    let client = rect(0, 0, 1280, 720);
    assert_eq!(frame_size(window, client), (20, 20));
    let placed = place_window(window, 1940, 1100);
    assert_eq!(placed, rect(10, 20, 1950, 1120));
    assert_eq!(shift_dragged_sides(placed, WMSZ_TOPLEFT, -5, -7), rect(-7, -5, 1950, 1120));
    assert_eq!(shift_dragged_sides(placed, WMSZ_TOP, -5, -7), rect(10, -5, 1950, 1120));
    assert_eq!(shift_dragged_sides(placed, WMSZ_BOTTOMLEFT, -5, -7), rect(-7, 20, 1950, 1120));
    assert_eq!(shift_dragged_sides(placed, WMSZ_RIGHT, -5, -7), placed);
}

#[test]
fn routing_without_game_procedure() {
    for m in [WM_KEYDOWN, WM_SYSKEYDOWN, WM_CLOSE, WM_SIZE, WM_SIZING, 0x200] {
        assert_eq!(route_message(false, m, 0x24, 0x24), WndRoute::DefaultProc);
    }
}

#[test]
fn routing_with_game_procedure() {
    assert_eq!(route_message(true, WM_KEYDOWN, 0x24, 0x24), WndRoute::MenuKey);
    assert_eq!(route_message(true, WM_SYSKEYDOWN, 0x24, 0x24), WndRoute::MenuKey);
    assert_eq!(route_message(true, WM_KEYDOWN, 0x1_0024, 0x24), WndRoute::MenuKey);
    assert_eq!(route_message(true, WM_KEYDOWN, 0x25, 0x24), WndRoute::Input);
    assert_eq!(route_message(true, WM_CLOSE, 0, 0x24), WndRoute::Close);
    assert_eq!(route_message(true, WM_SIZE, 0, 0x24), WndRoute::CallGameProc);
    assert_eq!(route_message(true, WM_SIZING, WMSZ_TOP as usize, 0x24), WndRoute::UnlockSize);
    assert_eq!(route_message(true, 0x200, 0x24, 0x24), WndRoute::Input);
    assert_eq!(virtual_key(0xABCD_1234), 0x1234);
}

#[test]
fn menu_and_input_finish() {
    assert_eq!(menu_key_finish(true), WndFinish::ToggleMenu);
    assert_eq!(menu_key_finish(false), WndFinish::CallGameProc);
    assert_eq!(input_finish(true, true), WndFinish::ProcessInput);
    assert_eq!(input_finish(true, false), WndFinish::CallGameProc);
    assert_eq!(input_finish(false, true), WndFinish::CallGameProc);
    assert_eq!(input_finish(false, false), WndFinish::CallGameProc);
}

#[test]
fn cbt_minimize_guard() {
    assert!(cbt_needs_fullscreen_check(HCBT_MINMAX, 6, true));
    assert!(!cbt_needs_fullscreen_check(HCBT_MINMAX, SW_RESTORE as isize, true));
    assert!(!cbt_needs_fullscreen_check(HCBT_MINMAX, 6, false));
    assert!(!cbt_needs_fullscreen_check(0, 6, true));
    assert!(!cbt_needs_fullscreen_check(HCBT_MINMAX, 0x1_0000_0009, true));
    assert!(cbt_needs_fullscreen_check(HCBT_MINMAX, 0x1_0000_0006, true));
    assert_eq!(cbt_block_answer(true, true), Some(1));
    assert_eq!(cbt_block_answer(true, false), None);
    assert_eq!(cbt_block_answer(false, true), None);
}

#[test]
fn drain_replays_in_order() {
    let a = WndProcCall { hwnd: 1, umsg: WM_SIZE, wparam: 0, lparam: 0x0438_0780 };
    let b = WndProcCall { hwnd: 1, umsg: WM_SIZE, wparam: 2, lparam: 7 };
    let mut buffer = vec![a, b];
    assert_eq!(drain_wm_size_buffer(&mut buffer, false), vec![]);
    assert_eq!(buffer, vec![a, b]);
    assert_eq!(drain_wm_size_buffer(&mut buffer, true), vec![a, b]);
    assert!(buffer.is_empty());
    assert_eq!(drain_wm_size_buffer(&mut buffer, true), vec![]);
}

#[test]
fn hook_slot_removal_is_idempotent() {
    let mut slot = HookSlot::empty();
    assert_eq!(slot.take(), None);
    slot.install(0xBEEF);
    assert_eq!(slot.handle, 0xBEEF);
    assert_eq!(slot.take(), Some(0xBEEF));
    assert_eq!(slot.handle, 0);
    assert_eq!(slot.take(), None);
}
