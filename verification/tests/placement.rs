use codex_quota::click_through::is_floating_pin_hit;
use codex_quota::launch::{launch_action, LaunchAction};
use codex_quota::placement::{
    clamp_vertical, edge_side, normalize_orb_expand_direction, orb_anchor_x_from_window,
    orb_side_for_direction, orb_window_x, position_intersects_monitor, SavedPosition,
};
use codex_quota::proxy::normalize_proxy_address;

#[test]
fn parses_windows_jump_list_actions() {
    assert_eq!(
        launch_action(&["codex-quota.exe".into(), "--toggle-floating".into()]),
        LaunchAction::ToggleFloating
    );
    assert_eq!(
        launch_action(&["codex-quota.exe".into(), "--toggle-pin".into()]),
        LaunchAction::TogglePin
    );
    assert_eq!(
        launch_action(&["codex-quota.exe".into(), "--quit".into()]),
        LaunchAction::Quit
    );
    assert_eq!(
        launch_action(&["codex-quota.exe".into()]),
        LaunchAction::ShowMain
    );
}

#[test]
fn chooses_the_nearest_monitor_edge_for_the_orb() {
    assert_eq!(edge_side(30, 52, 0, 1920), "left");
    assert_eq!(edge_side(1800, 52, 0, 1920), "right");
    assert_eq!(edge_side(-1880, 52, -1920, 1920), "left");
}

#[test]
fn accepts_only_supported_orb_expand_directions() {
    assert_eq!(normalize_orb_expand_direction("auto"), Some("auto"));
    assert_eq!(normalize_orb_expand_direction("left"), Some("left"));
    assert_eq!(normalize_orb_expand_direction("right"), Some("right"));
    assert_eq!(normalize_orb_expand_direction("bottom"), None);
    assert_eq!(orb_side_for_direction("left", "left"), "right");
    assert_eq!(orb_side_for_direction("right", "right"), "left");
    assert_eq!(orb_side_for_direction("auto", "right"), "right");
}

#[test]
fn keeps_the_orb_anchor_when_window_expands_or_collapses() {
    let orb_left = 506;
    let orb_width = 56;
    let margin = 6;
    assert_eq!(orb_window_x(orb_left, orb_width, margin, "left", 68), 500);
    assert_eq!(orb_window_x(orb_left, orb_width, margin, "right", 230), 338);
    assert_eq!(orb_window_x(orb_left, orb_width, margin, "right", 68), 500);
    assert_eq!(orb_anchor_x_from_window(500, 68, 68, "left"), 500);
    assert_eq!(orb_anchor_x_from_window(338, 230, 68, "right"), 500);
    assert_eq!(orb_anchor_x_from_window(500, 68, 68, "right"), 500);
}

#[test]
fn keeps_the_orb_inside_the_monitor_vertical_bounds() {
    assert_eq!(clamp_vertical(-50, 52, 0, 1080, 6), 6);
    assert_eq!(clamp_vertical(500, 52, 0, 1080, 6), 500);
    assert_eq!(clamp_vertical(2000, 52, 0, 1080, 6), 1022);
}

#[test]
fn rejects_saved_main_window_positions_outside_the_current_monitors() {
    assert!(!position_intersects_monitor(
        SavedPosition {
            x: -32000,
            y: -32000
        },
        960,
        680,
        0,
        0,
        1920,
        1080
    ));
    assert!(position_intersects_monitor(
        SavedPosition { x: 120, y: 80 },
        960,
        680,
        0,
        0,
        1920,
        1080
    ));
}

#[test]
fn pinned_window_only_keeps_the_pin_button_interactive() {
    assert!(is_floating_pin_hit(225, 18, 0, 0, 308, 174));
    assert!(!is_floating_pin_hit(100, 80, 0, 0, 308, 174));
    assert!(!is_floating_pin_hit(270, 18, 0, 0, 308, 174));
}

#[test]
fn normalizes_local_proxy_addresses() {
    assert_eq!(
        normalize_proxy_address("127.0.0.1:7890").unwrap(),
        "http://127.0.0.1:7890"
    );
    assert!(normalize_proxy_address("").is_err());
    assert!(normalize_proxy_address("ftp://127.0.0.1:21").is_err());
}
