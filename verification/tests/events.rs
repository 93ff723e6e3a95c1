use codex_quota::click_through::{
    is_floating_pin_hit, is_screenshot_capture_window, is_screenshot_program, ClickThrough,
    StackOrder, WindowEdges,
};
use codex_quota::events::{
    check_floating_place, check_leaving, check_main_place, check_noted_place, close_action,
    floating_window_place, hides_when_resized, leave_floating_style, main_window_place, note_moved,
    notes_floating_move,
    orb_refresh, restore_steps, visibility_steps, CloseAction, OrbRefresh, WindowStep,
};
use codex_quota::orb::{Monitor, WindowReadings, WindowSize};
use codex_quota::pixels::ScaleFactor;
use codex_quota::placement::SavedPosition;
use codex_quota::state::{set_floating_style, PersistedState};
use codex_quota::text::{contains, file_name, starts_with, trim};

fn at(x: i32, y: i32) -> SavedPosition {
    SavedPosition { x, y }
}

fn readings(position: SavedPosition, width: u32, height: u32) -> WindowReadings {
    let scale = ScaleFactor {
        bits: 1.0f64.to_bits(),
    };
    let monitor = Monitor {
        x: 0,
        y: 0,
        width: 1920,
        height: 1080,
        scale,
    };
    WindowReadings {
        current_monitor: Ok(Some(monitor)),
        primary_monitor: Ok(Some(monitor)),
        monitors: Ok(vec![monitor]),
        position: Ok(position),
        size: Ok(WindowSize { width, height }),
        scale: Ok(scale),
    }
}

fn orb_state() -> PersistedState {
    let mut state = PersistedState::default();
    set_floating_style(&mut state, "orb".to_owned()).unwrap();
    state
}

#[test]
fn a_pinned_window_is_shown_without_the_keyboard() {
    let mut state = PersistedState::default();
    assert_eq!(
        visibility_steps(&state, true),
        vec![WindowStep::KeepOnTop(true), WindowStep::Show, WindowStep::Focus]
    );
    assert_eq!(visibility_steps(&state, false), vec![WindowStep::Hide]);
    state.floating_pinned = true;
    state.floating_always_on_top = false;
    assert_eq!(
        visibility_steps(&state, true),
        vec![WindowStep::KeepOnTop(false), WindowStep::Show]
    );
    assert_eq!(restore_steps(&state), vec![WindowStep::KeepOnTop(false)]);
    state.floating_visible = true;
    assert_eq!(
        restore_steps(&state),
        vec![WindowStep::KeepOnTop(false), WindowStep::Show]
    );
}

#[test]
fn moves_of_the_windows_are_noted() {
    let window = readings(at(0, 0), 276, 150);
    let mut state = PersistedState::default();
    assert!(note_moved(&mut state, "main", &window, at(3, 4), true, true));
    assert_eq!(state.main_position, Some(at(3, 4)));
    assert!(check_noted_place(&state, &window, at(5, 6)));
    assert!(note_moved(&mut state, "floating", &window, at(5, 6), false, false));
    assert_eq!(state.floating_card_position, Some(at(5, 6)));
    assert!(!note_moved(&mut state, "floating", &window, at(7, 8), true, false));
    assert!(!note_moved(&mut state, "floating", &window, at(7, 8), false, true));
    assert!(notes_floating_move("floating", false, false));
    assert!(!notes_floating_move("floating", true, false));
    assert!(!notes_floating_move("floating", false, true));
    assert!(!notes_floating_move("main", false, false));
    assert!(!note_moved(&mut state, "other", &window, at(7, 8), false, false));
    assert_eq!(state.floating_card_position, Some(at(5, 6)));
    assert_eq!(state.floating_orb_position, None);
}

#[test]
fn the_place_of_the_orb_itself_is_noted() {
    let window = readings(at(338, 300), 230, 68);
    let mut state = orb_state();
    state.floating_orb_expand_direction = "left".to_owned();
    state.floating_orb_position = Some(at(600, 300));
    assert!(note_moved(&mut state, "floating", &window, at(338, 310), false, false));
    assert_eq!(state.floating_orb_position, Some(at(500, 310)));
    let mut silent = readings(at(338, 300), 230, 68);
    silent.size = Err("size".to_owned());
    assert!(note_moved(&mut state, "floating", &silent, at(338, 320), false, false));
    assert_eq!(state.floating_orb_position, Some(at(338, 320)));
}

#[test]
fn a_change_of_style_keeps_both_places() {
    let mut state = PersistedState::default();
    state.floating_orb_position = Some(at(1800, 400));
    let window = readings(at(50, 60), 276, 150);
    assert!(check_leaving(&state, "orb", &window));
    assert!(leave_floating_style(&mut state, "orb", &window));
    set_floating_style(&mut state, "orb".to_owned()).unwrap();
    assert_eq!(state.floating_card_position, Some(at(50, 60)));
    assert_eq!(state.floating_orb_position, Some(at(1800, 400)));
    assert_eq!(floating_window_place(&state, "orb", &window), Some(at(1800, 400)));

    let window = readings(at(1700, 410), 68, 68);
    assert!(!leave_floating_style(&mut state, "orb", &window));
    assert_eq!(state.floating_orb_position, Some(at(1800, 400)));
    assert!(leave_floating_style(&mut state, "card", &window));
    set_floating_style(&mut state, "card".to_owned()).unwrap();
    assert_eq!(state.floating_card_position, Some(at(50, 60)));
    assert_eq!(state.floating_orb_position, Some(at(1700, 410)));

    let mut silent = readings(at(0, 0), 276, 150);
    silent.position = Err("position".to_owned());
    assert!(!leave_floating_style(&mut state, "orb", &silent));
    assert_eq!(state.floating_card_position, Some(at(50, 60)));
}

#[test]
fn a_window_that_never_was_anywhere_gets_a_place() {
    let state = PersistedState::default();
    let window = readings(at(100, 300), 276, 150);
    assert!(check_floating_place(&state, "card", &window));
    assert_eq!(floating_window_place(&state, "card", &window), Some(at(1626, 18)));
    let window = readings(at(100, 300), 68, 68);
    assert!(check_floating_place(&state, "orb", &window));
    assert_eq!(floating_window_place(&state, "orb", &window), Some(at(6, 300)));
    let mut silent = readings(at(100, 300), 68, 68);
    silent.size = Err("size".to_owned());
    assert_eq!(floating_window_place(&state, "orb", &silent), None);
    assert_eq!(floating_window_place(&state, "card", &silent), None);
}

#[test]
fn a_main_window_beside_all_monitors_comes_back() {
    let window = readings(at(0, 0), 960, 680);
    let mut state = PersistedState::default();
    assert!(check_main_place(&state, &window));
    assert_eq!(main_window_place(&state, &window), Some(at(480, 200)));
    state.main_position = Some(at(120, 80));
    assert_eq!(main_window_place(&state, &window), Some(at(120, 80)));
    state.main_position = Some(at(-32000, -32000));
    assert!(check_main_place(&state, &window));
    assert_eq!(main_window_place(&state, &window), Some(at(480, 200)));
    let mut silent = readings(at(0, 0), 960, 680);
    silent.primary_monitor = Err("primary".to_owned());
    assert_eq!(main_window_place(&state, &silent), None);
}

#[test]
fn a_new_direction_lays_the_window_of_the_orb_out_anew() {
    let mut state = PersistedState::default();
    state.floating_orb_position = Some(at(5, 6));
    assert_eq!(orb_refresh(&state), OrbRefresh::Nothing);
    set_floating_style(&mut state, "orb".to_owned()).unwrap();
    assert_eq!(orb_refresh(&state), OrbRefresh::Display { anchor: at(5, 6) });
    state.floating_orb_position = None;
    assert_eq!(orb_refresh(&state), OrbRefresh::Relayout);
}

#[test]
fn closing_and_minimizing_depend_on_the_window() {
    assert_eq!(close_action("main"), CloseAction::Quit);
    assert_eq!(close_action("floating"), CloseAction::HideFloating);
    assert_eq!(close_action("other"), CloseAction::Close);
    assert!(hides_when_resized("main", true));
    assert!(!hides_when_resized("main", false));
    assert!(!hides_when_resized("floating", true));
}

#[test]
fn screenshot_programs_are_known_by_their_file() {
    assert!(is_screenshot_program("C:\\Windows\\SnippingTool.exe"));
    assert!(is_screenshot_program("D:/tools/ShareX.EXE"));
    assert!(is_screenshot_program("winsnap.exe"));
    assert!(!is_screenshot_program("C:\\snippingtool.exe\\other.exe"));
    assert!(!is_screenshot_program("snippingtool.exe\\"));
    assert!(!is_screenshot_program(""));
    assert!(is_screenshot_capture_window(Some("x\\greenshot.exe")));
    assert!(!is_screenshot_capture_window(None));
}

#[test]
fn the_floating_window_makes_room_for_screenshots() {
    let mut controller = ClickThrough::new();
    assert!(!controller.notice_foreground(0));
    assert!(controller.notice_foreground(7));
    assert!(!controller.notice_foreground(7));
    assert_eq!(controller.notice_capture(false, true), None);
    assert_eq!(controller.notice_capture(true, true), Some(StackOrder::NotTopmost));
    assert_eq!(controller.notice_capture(true, true), None);
    assert!(!controller.stacking_is_due(5000, true));
    assert_eq!(controller.notice_capture(false, true), Some(StackOrder::Topmost));
    assert!(controller.stacking_is_due(1000, true));
    assert!(!controller.stacking_is_due(999, true));
    assert_eq!(ClickThrough::restack(true, true), Some(StackOrder::Topmost));
    assert_eq!(ClickThrough::restack(true, false), None);
    assert_eq!(ClickThrough::restack(false, true), None);
}

#[test]
fn a_window_that_is_not_kept_on_top_is_left_where_it_is() {
    let mut controller = ClickThrough::new();
    assert_eq!(controller.notice_capture(true, false), Some(StackOrder::NotTopmost));
    assert_eq!(controller.notice_capture(false, false), None);
    assert!(!controller.screenshot_overlay_active);
    assert!(!controller.stacking_is_due(5000, false));
}

#[test]
fn clicks_go_through_a_pinned_card_beside_its_button() {
    let edges = WindowEdges {
        left: 100,
        top: 50,
        right: 408,
        bottom: 224,
    };
    assert!(edges.check_fit());
    let mut controller = ClickThrough::new();
    assert_eq!(controller.notice_pointer(false, false, 0, 0, edges), None);
    assert_eq!(controller.notice_pointer(true, true, 0, 0, edges), None);
    assert_eq!(controller.notice_pointer(true, false, 150, 100, edges), Some(true));
    assert_eq!(controller.notice_pointer(true, false, 151, 100, edges), None);
    assert_eq!(controller.notice_pointer(true, false, 310, 50, edges), Some(false));
    assert_eq!(controller.notice_pointer(true, false, 309, 50, edges), Some(true));
    assert_eq!(controller.notice_pointer(true, false, 352, 88, edges), Some(false));
    assert_eq!(controller.notice_pointer(true, false, 352, 89, edges), Some(true));
    assert_eq!(controller.notice_pointer(false, false, 352, 89, edges), Some(false));
    let wide = WindowEdges {
        left: i32::MIN,
        top: 0,
        right: i32::MAX,
        bottom: 10,
    };
    assert!(!wide.check_fit());
}

#[test]
fn the_pin_button_grows_with_the_window() {
    for (width, height) in [(276, 150), (308, 174), (616, 348), (461, 333), (671, 87)] {
        let right = (252.0 * (f64::from(width) / 308.0)).round() as i32;
        let left = (210.0 * (f64::from(width) / 308.0)).round() as i32;
        let bottom = (38.0 * (f64::from(height) / 174.0)).round() as i32;
        assert!(is_floating_pin_hit(left, 0, 0, 0, width, height));
        assert!(is_floating_pin_hit(right, bottom, 0, 0, width, height));
        assert!(!is_floating_pin_hit(left - 1, 0, 0, 0, width, height));
        assert!(!is_floating_pin_hit(right + 1, 0, 0, 0, width, height));
        assert!(!is_floating_pin_hit(left, bottom + 1, 0, 0, width, height));
        assert!(!is_floating_pin_hit(left, -1, 0, 0, width, height));
    }
}

#[test]
fn texts_are_taken_apart_like_the_standard_library_would() {
    for text in [
        "", " ", "a", " a b ", "\t\n\u{b}\u{c}\r x", "\u{85}\u{2028}é\u{205f}", "\u{200b}", "\u{180e}x",
        "\u{1680}y\u{202f}", "中 文",
    ] {
        assert_eq!(trim(text), text.trim(), "{text:?}");
        for part in ["", "a", " ", "b ", "文", "ab"] {
            assert_eq!(contains(text, part), text.contains(part));
            assert_eq!(starts_with(text, part), text.starts_with(part));
        }
    }
    for path in ["", "a", "a/b", "a\\b", "a/b\\", "/", "é\\ü"] {
        let expected = path.rsplit(['\\', '/']).next().unwrap_or_default();
        assert_eq!(file_name(path), expected);
    }
}

#[test]
fn every_character_counts_as_space_as_in_the_standard_library() {
    for code in 0..=0x10ffffu32 {
        if let Some(c) = char::from_u32(code) {
            assert_eq!(codex_quota::text::is_space_char(c), c.is_whitespace());
        }
    }
}
