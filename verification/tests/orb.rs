use codex_quota::desk::{
    center_main_window, check_corner, check_middle, check_pointer, check_snap, check_visible,
    get_floating_orb_pointer_inside, position_floating, position_is_visible, snap_orb_to_edge,
};
use codex_quota::drag::{
    check_drag_start, check_release, check_settle, drag_result, drag_result_without_place,
    orb_display_anchor, orb_drag_start, release_orb, settle_orb, DragRelease, OrbDrag,
};
use codex_quota::layout::{
    check_display_layout, check_display_region, check_layout_from_anchor, check_layout_from_side, check_region,
    clips_to_orb, has_bounds, orb_display_layout, orb_display_region, orb_window_region, resize_orb_window_from_anchor,
    resize_orb_window_from_side, unfolded_side, OrbBounds, OrbRegion,
};
use codex_quota::orb::{
    check_anchor, check_edge_anchor, check_near_edge, check_window_anchor,
    get_floating_orb_edge_state, get_floating_orb_side, monitor_for_orb_anchor,
    orb_anchor_from_window, orb_anchor_is_near_edge, orb_edge_anchor, orb_is_near_edge,
    orb_layout_side, orb_layout_side_for_anchor, snap_floating_to_edge, Monitor, WindowReadings,
    WindowSize,
};
use codex_quota::pixels::ScaleFactor;
use codex_quota::placement::{LogicalSize, SavedPosition};

fn at(x: i32, y: i32) -> SavedPosition {
    SavedPosition { x, y }
}

fn monitor(x: i32, y: i32, width: u32, height: u32, scale: f64) -> Monitor {
    Monitor {
        x,
        y,
        width,
        height,
        scale: ScaleFactor {
            bits: scale.to_bits(),
        },
    }
}

fn main_monitor() -> Monitor {
    monitor(0, 0, 1920, 1080, 1.0)
}

fn second_monitor() -> Monitor {
    monitor(1920, 0, 2560, 1440, 1.5)
}

fn readings(position: SavedPosition, width: u32, height: u32) -> WindowReadings {
    WindowReadings {
        current_monitor: Ok(Some(main_monitor())),
        primary_monitor: Ok(Some(main_monitor())),
        monitors: Ok(vec![main_monitor(), second_monitor()]),
        position: Ok(position),
        size: Ok(WindowSize { width, height }),
        scale: Ok(ScaleFactor {
            bits: 1.0f64.to_bits(),
        }),
    }
}

#[test]
fn the_orb_is_on_the_monitor_that_holds_its_middle() {
    let window = readings(at(0, 0), 68, 68);
    assert!(window.check_search(at(1885, 10)));
    assert_eq!(monitor_for_orb_anchor(&window, at(1885, 10)).unwrap(), main_monitor());
    assert_eq!(monitor_for_orb_anchor(&window, at(1886, 10)).unwrap(), second_monitor());
    assert_eq!(monitor_for_orb_anchor(&window, at(9999, 10)).unwrap(), main_monitor());
}

#[test]
fn a_desktop_without_answers_gives_its_messages() {
    let mut window = readings(at(0, 0), 68, 68);
    window.monitors = Err("monitors".to_owned());
    assert_eq!(monitor_for_orb_anchor(&window, at(0, 0)).unwrap_err(), "monitors");
    window.monitors = Ok(Vec::new());
    window.current_monitor = Ok(None);
    assert_eq!(monitor_for_orb_anchor(&window, at(0, 0)).unwrap(), main_monitor());
    window.primary_monitor = Ok(None);
    assert_eq!(
        monitor_for_orb_anchor(&window, at(0, 0)).unwrap_err(),
        "找不到当前显示器"
    );
    window.current_monitor = Ok(Some(main_monitor()));
    window.primary_monitor = Err("primary".to_owned());
    assert_eq!(window.find_own_monitor().unwrap_err(), "primary");
    window.current_monitor = Err("current".to_owned());
    assert_eq!(orb_layout_side(&window, "auto").unwrap_err(), "current");
    let mut window = readings(at(0, 0), 68, 68);
    window.size = Err("size".to_owned());
    assert_eq!(orb_layout_side(&window, "auto").unwrap_err(), "size");
    window.position = Err("position".to_owned());
    assert_eq!(orb_layout_side(&window, "auto").unwrap_err(), "position");
}

#[test]
fn the_side_follows_the_edge_and_then_the_direction() {
    let window = readings(at(900, 300), 68, 68);
    for (x, direction, side) in [
        (6, "right", "left"),
        (34, "left", "left"),
        (35, "left", "right"),
        (35, "auto", "left"),
        (1846, "left", "right"),
        (1818, "right", "right"),
        (1817, "right", "left"),
        (1817, "auto", "right"),
        (900, "auto", "left"),
        (927, "auto", "right"),
    ] {
        assert!(check_anchor(&window, at(x, 300)));
        assert_eq!(
            orb_layout_side_for_anchor(&window, direction, at(x, 300)).unwrap(),
            side,
            "{x} {direction}"
        );
        assert_eq!(
            get_floating_orb_side(&window, direction, Some(at(x, 300))).unwrap(),
            side
        );
    }
    assert_eq!(orb_layout_side(&window, "auto").unwrap(), "left");
    assert_eq!(orb_layout_side(&window, "left").unwrap(), "right");
    assert_eq!(get_floating_orb_side(&window, "right", None).unwrap(), "left");
}

#[test]
fn the_orb_sticks_to_an_edge_within_its_reach() {
    let window = readings(at(900, 300), 68, 68);
    for (x, near) in [(-22, true), (34, true), (35, false), (1818, true), (1817, false)] {
        assert_eq!(orb_anchor_is_near_edge(&window, at(x, 300)).unwrap(), near, "{x}");
    }
    // On the second monitor everything is one and a half times as large.
    assert!(orb_anchor_is_near_edge(&window, at(1920 + 9 + 42, 300)).unwrap());
    assert!(!orb_anchor_is_near_edge(&window, at(1920 + 9 + 43, 300)).unwrap());
}

#[test]
fn the_anchor_of_a_folded_window_is_the_window_itself() {
    let window = readings(at(500, 300), 68, 68);
    for direction in ["auto", "left", "right"] {
        assert!(check_window_anchor(&window, direction, None, at(500, 300)));
        assert_eq!(
            orb_anchor_from_window(&window, direction, None, at(500, 300)),
            Some(at(500, 300))
        );
    }
    // Up to twelve logical units more still count as folded.
    let window = readings(at(500, 300), 80, 68);
    assert_eq!(
        orb_anchor_from_window(&window, "left", Some(at(30, 0)), at(500, 300)),
        Some(at(512, 300))
    );
    let window = readings(at(500, 300), 81, 68);
    assert_eq!(
        orb_anchor_from_window(&window, "left", Some(at(30, 0)), at(500, 300)),
        Some(at(500, 300))
    );
}

#[test]
fn the_anchor_of_an_unfolded_window_is_on_the_side_of_the_orb() {
    let window = readings(at(338, 300), 230, 68);
    assert_eq!(
        orb_anchor_from_window(&window, "left", Some(at(500, 300)), at(338, 300)),
        Some(at(500, 300))
    );
    assert_eq!(
        orb_anchor_from_window(&window, "right", Some(at(500, 300)), at(338, 300)),
        Some(at(338, 300))
    );
    let mut window = readings(at(338, 300), 230, 68);
    window.size = Err("size".to_owned());
    assert_eq!(orb_anchor_from_window(&window, "left", None, at(338, 300)), None);
}

#[test]
fn the_orb_moves_to_the_nearer_edge() {
    let window = readings(at(700, 1070), 68, 68);
    assert!(check_edge_anchor(&window, "auto", None, at(700, 1070)));
    assert_eq!(
        orb_edge_anchor(&window, "auto", None, at(700, 1070)),
        Some((at(6, 1006), "left"))
    );
    assert_eq!(
        snap_floating_to_edge(&window, "auto", None).unwrap(),
        at(6, 1006)
    );
    let window = readings(at(1200, -30), 68, 68);
    assert_eq!(
        orb_edge_anchor(&window, "auto", None, at(1200, -30)),
        Some((at(1846, 6), "right"))
    );
    // Both edges are equally near.
    assert_eq!(
        orb_edge_anchor(&window, "auto", None, at(926, 50)),
        Some((at(6, 50), "left"))
    );
    let mut window = readings(at(1, 1), 68, 68);
    window.monitors = Err("monitors".to_owned());
    assert_eq!(
        snap_floating_to_edge(&window, "auto", None).unwrap_err(),
        "无法计算悬浮球吸附位置"
    );
    window.position = Err("position".to_owned());
    assert_eq!(snap_floating_to_edge(&window, "auto", None).unwrap_err(), "position");
}

#[test]
fn an_orb_at_an_edge_stays_there() {
    let window = readings(at(1200, -30), 68, 68);
    let (anchor, side) = orb_edge_anchor(&window, "auto", None, at(1200, -30)).unwrap();
    assert!(orb_anchor_is_near_edge(&window, anchor).unwrap());
    let again = readings(anchor, 68, 68);
    assert_eq!(
        orb_edge_anchor(&again, "auto", None, anchor),
        Some((anchor, side))
    );
}

#[test]
fn the_edge_state_needs_a_window() {
    let window = readings(at(10, 300), 68, 68);
    assert!(check_near_edge(&window, "auto", None, at(10, 300)));
    assert!(orb_is_near_edge(&window, "auto", None, at(10, 300)).unwrap());
    assert!(get_floating_orb_edge_state(&window, "auto", None).unwrap());
    let window = readings(at(600, 300), 68, 68);
    assert!(!get_floating_orb_edge_state(&window, "auto", None).unwrap());
    let mut window = readings(at(600, 300), 68, 68);
    window.size = Err("size".to_owned());
    assert_eq!(
        get_floating_orb_edge_state(&window, "auto", None).unwrap_err(),
        "无法读取悬浮球位置"
    );
    window.position = Err("position".to_owned());
    assert_eq!(
        get_floating_orb_edge_state(&window, "auto", None).unwrap_err(),
        "position"
    );
}

#[test]
fn places_beyond_the_coordinates_are_reported() {
    let window = readings(at(0, 0), 68, 68);
    assert!(!window.check_search(at(i32::MAX, 0)));
    assert!(!check_anchor(&window, at(i32::MAX, 0)));
    let mut far = readings(at(0, 0), 68, 68);
    far.current_monitor = Ok(Some(monitor(i32::MAX - 3, 0, 1920, 1080, 1.0)));
    assert!(!check_snap(&far));
    assert!(!check_layout_from_side(&readings(at(i32::MAX, 0), 68, 68), true, "right", None));
    far.primary_monitor = Ok(Some(monitor(i32::MAX - 10, 0, 1920, 1080, 1.0)));
    assert!(!check_corner(&far));
    assert!(!check_middle(&far));
    assert!(!check_visible(&far, at(i32::MAX, 0)));
    assert!(!check_pointer(&readings(at(i32::MAX - 1, 0), 68, 68), Some(at(i32::MAX, 0))));
    assert!(!check_window_anchor(&readings(at(0, 0), 68, 68), "left", None, at(i32::MAX, 0)));
    assert!(!check_edge_anchor(&window, "auto", None, at(i32::MAX, 0)));
    assert!(!check_near_edge(&window, "auto", None, at(i32::MAX, 0)));
    assert!(!check_layout_from_anchor(&window, true, "auto", at(i32::MAX, 0)));
    assert!(!check_settle(&window, at(i32::MAX, 0)));
    assert!(!check_release(&window, "auto", None, at(i32::MAX, 0)));
    let drag = OrbDrag::new(at(0, 0), at(i32::MAX, 0));
    assert!(drag.check(at(0, 5)));
    assert!(!drag.check(at(1, 5)));
    let mut wide = readings(at(0, 0), 68, 68);
    wide.scale = Ok(ScaleFactor {
        bits: (-1e12f64).to_bits(),
    });
    assert!(check_region(&wide, false, "right"));
    assert!(!check_region(&wide, true, "right"));
}

#[test]
fn a_monitor_without_room_for_the_orb_is_reported() {
    let mut window = readings(at(0, 0), 68, 68);
    window.monitors = Ok(vec![monitor(0, 0, 79, 400, 1.0)]);
    assert!(!check_settle(&window, at(0, 0)));
    window.monitors = Ok(vec![monitor(0, 0, 80, 400, 1.0)]);
    assert!(check_settle(&window, at(0, 0)));
    assert_eq!(settle_orb(&window, at(0, 0)), at(6, 6));
}

#[test]
fn windows_are_laid_out_around_the_orb() {
    let window = readings(at(500, 300), 68, 68);
    assert!(check_layout_from_anchor(&window, true, "left", at(500, 300)));
    let layout = resize_orb_window_from_anchor(&window, true, "left", at(500, 300)).unwrap();
    assert_eq!(layout.side, "right");
    assert_eq!(
        layout.bounds,
        OrbBounds {
            logical: LogicalSize {
                width: 230,
                height: 68
            },
            x: 338,
            y: 300,
            width: 230,
            height: 68
        }
    );
    assert!(check_display_layout(&window, "left", at(500, 300)));
    let displayed = orb_display_layout(&window, "left", at(500, 300)).unwrap();
    assert_eq!(displayed.bounds, layout.bounds);
    let layout = resize_orb_window_from_anchor(&window, false, "left", at(500, 300)).unwrap();
    assert_eq!((layout.bounds.x, layout.bounds.width), (500, 68));
    // On the second monitor, at one and a half times the size.
    let layout = resize_orb_window_from_anchor(&window, true, "right", at(3000, -50)).unwrap();
    assert_eq!(layout.side, "left");
    assert_eq!(
        (layout.bounds.x, layout.bounds.y, layout.bounds.width, layout.bounds.height),
        (3000, 9, 345, 102)
    );
}

#[test]
fn layouts_stay_on_the_monitor_from_top_to_bottom() {
    let window = readings(at(500, 300), 68, 68);
    let layout = resize_orb_window_from_anchor(&window, true, "auto", at(500, 1040)).unwrap();
    assert_eq!(layout.bounds.y, 1006);
    let layout = resize_orb_window_from_anchor(&window, true, "auto", at(500, -20)).unwrap();
    assert_eq!(layout.bounds.y, 6);
}

#[test]
fn the_orb_keeps_its_place_while_its_window_changes() {
    for (x, direction) in [(500, "left"), (500, "right"), (6, "left"), (1846, "right")] {
        let window = readings(at(x, 300), 68, 68);
        let layout = resize_orb_window_from_anchor(&window, true, direction, at(x, 300)).unwrap();
        let unfolded = readings(
            at(layout.bounds.x, layout.bounds.y),
            layout.bounds.width,
            layout.bounds.height,
        );
        assert_eq!(
            orb_anchor_from_window(
                &unfolded,
                direction,
                Some(at(x, 300)),
                at(layout.bounds.x, layout.bounds.y)
            ),
            Some(at(x, 300)),
            "{x} {direction}"
        );
    }
}

#[test]
fn the_side_of_a_window_changes_around_the_orb() {
    // The orb stands on the right of its window, at 500.
    let window = readings(at(338, 300), 230, 68);
    assert_eq!(unfolded_side(&window, true, "left"), Some("right"));
    assert_eq!(unfolded_side(&window, false, "left"), None);
    assert!(check_layout_from_side(&window, true, "right", Some("right")));
    let layout = resize_orb_window_from_side(&window, true, "right", Some("right")).unwrap();
    assert_eq!(layout.side, "left");
    assert_eq!((layout.bounds.x, layout.bounds.width), (500, 230));
    let layout = resize_orb_window_from_side(&window, false, "right", None).unwrap();
    assert_eq!((layout.bounds.x, layout.bounds.width), (338, 68));
    let mut window = readings(at(0, 0), 68, 68);
    window.position = Err("position".to_owned());
    assert_eq!(
        resize_orb_window_from_side(&window, true, "auto", None).unwrap_err(),
        "position"
    );
    assert_eq!(unfolded_side(&window, true, "left"), None);
}

#[test]
fn bounds_are_compared_with_the_window() {
    let window = readings(at(338, 300), 230, 68);
    let bounds = OrbBounds {
        logical: LogicalSize {
            width: 230,
            height: 68,
        },
        x: 338,
        y: 300,
        width: 230,
        height: 68,
    };
    assert!(has_bounds(&window, bounds));
    assert!(!has_bounds(&window, OrbBounds { y: 301, ..bounds }));
    assert!(!has_bounds(&window, OrbBounds { width: 231, ..bounds }));
    let mut window = readings(at(338, 300), 230, 68);
    window.size = Err("size".to_owned());
    assert!(!has_bounds(&window, bounds));
}

#[test]
fn only_the_orb_is_shown_at_an_edge() {
    let window = readings(at(6, 300), 230, 68);
    assert!(clips_to_orb(&window, at(6, 300), false).unwrap());
    assert!(!clips_to_orb(&window, at(6, 300), true).unwrap());
    assert!(!clips_to_orb(&window, at(600, 300), false).unwrap());
    assert!(check_display_region(&window, at(6, 300), false, "left"));
    assert_eq!(
        orb_display_region(&window, at(6, 300), false, "left").unwrap(),
        OrbRegion::Ellipse {
            left: 0,
            top: 0,
            right: 68,
            bottom: 68
        }
    );
    assert_eq!(
        orb_display_region(&window, at(1846, 300), false, "right").unwrap(),
        OrbRegion::Ellipse {
            left: 162,
            top: 0,
            right: 230,
            bottom: 68
        }
    );
    assert_eq!(
        orb_display_region(&window, at(6, 300), true, "left").unwrap(),
        OrbRegion::Whole
    );
    assert_eq!(
        orb_display_region(&window, at(600, 300), false, "left").unwrap(),
        OrbRegion::Whole
    );
    let mut window = readings(at(6, 300), 230, 68);
    window.scale = Err("scale".to_owned());
    assert_eq!(orb_window_region(&window, true, "left").unwrap_err(), "scale");
    assert_eq!(orb_window_region(&window, false, "left").unwrap(), OrbRegion::Whole);
    window.monitors = Err("monitors".to_owned());
    assert_eq!(
        orb_display_region(&window, at(6, 300), false, "left").unwrap_err(),
        "monitors"
    );
}

#[test]
fn a_drag_begins_at_the_window_or_at_the_last_place() {
    let window = readings(at(500, 300), 68, 68);
    assert!(check_drag_start(&window, "auto", Some(at(1, 1))));
    assert_eq!(orb_drag_start(&window, "auto", Some(at(1, 1))).unwrap(), at(500, 300));
    assert_eq!(orb_display_anchor(&window, "auto", Some(at(1, 1))).unwrap(), at(1, 1));
    assert_eq!(orb_display_anchor(&window, "auto", None).unwrap(), at(500, 300));
    let mut window = readings(at(500, 300), 68, 68);
    window.size = Err("size".to_owned());
    assert_eq!(orb_drag_start(&window, "auto", Some(at(1, 1))).unwrap(), at(1, 1));
    assert_eq!(
        orb_drag_start(&window, "auto", None).unwrap_err(),
        "无法计算悬浮球位置"
    );
    window.position = Err("position".to_owned());
    assert_eq!(
        orb_drag_start(&window, "auto", Some(at(1, 1))).unwrap_err(),
        "position"
    );
}

#[test]
fn the_window_follows_the_pointer() {
    let mut drag = OrbDrag::new(at(510, 310), at(500, 300));
    assert!(drag.check(at(511, 309)));
    assert_eq!(drag.follow(at(511, 309)), at(501, 299));
    assert!(!drag.moved);
    assert_eq!(drag.follow(at(512, 310)), at(502, 300));
    assert!(drag.moved);
    assert_eq!(drag.follow(at(510, 310)), at(500, 300));
    assert!(drag.moved);
}

#[test]
fn the_orb_comes_to_rest_on_a_monitor() {
    let window = readings(at(0, 0), 68, 68);
    assert!(check_settle(&window, at(-20, -20)));
    assert_eq!(settle_orb(&window, at(-20, -20)), at(6, 6));
    assert_eq!(settle_orb(&window, at(1870, 1030)), at(1846, 1006));
    assert_eq!(settle_orb(&window, at(1880, 1060)), at(1929, 1060));
    assert_eq!(settle_orb(&window, at(700, 500)), at(700, 500));
    let mut window = readings(at(0, 0), 68, 68);
    window.monitors = Err("monitors".to_owned());
    assert_eq!(settle_orb(&window, at(-20, -20)), at(-20, -20));
}

#[test]
fn a_drag_ends_at_the_edge_if_it_is_near() {
    let window = readings(at(20, 300), 68, 68);
    assert!(check_release(&window, "auto", None, at(20, 300)));
    let end = release_orb(&window, "auto", None, at(20, 300));
    assert_eq!(
        end,
        DragRelease {
            at_edge: true,
            anchor: at(6, 300),
            snapped: true
        }
    );
    let result = drag_result(&window, "left", true, end);
    assert!(result.moved && result.at_edge);
    assert_eq!(result.side, "left");
    let window = readings(at(700, 300), 68, 68);
    let end = release_orb(&window, "auto", None, at(700, 300));
    assert_eq!(
        end,
        DragRelease {
            at_edge: false,
            anchor: at(700, 300),
            snapped: false
        }
    );
    let result = drag_result(&window, "left", false, end);
    assert!(!result.moved && !result.at_edge);
    assert_eq!(result.side, "right");
    let mut window = readings(at(700, 300), 68, 68);
    window.monitors = Err("monitors".to_owned());
    assert_eq!(drag_result(&window, "right", true, end).side, "right");
    let result = drag_result_without_place(true);
    assert!(result.moved && !result.at_edge);
    assert_eq!(result.side, "right");
    assert!(!drag_result_without_place(false).moved);
}

#[test]
fn a_window_without_a_place_snaps_or_goes_to_the_corner() {
    let window = readings(at(1500, 2000), 68, 68);
    assert!(check_snap(&window) && check_corner(&window));
    assert_eq!(snap_orb_to_edge(&window).unwrap(), (at(1846, 1006), "right"));
    let window = readings(at(100, 300), 68, 68);
    assert_eq!(snap_orb_to_edge(&window).unwrap(), (at(6, 300), "left"));
    let window = readings(at(100, 300), 276, 150);
    assert_eq!(position_floating(&window), Some(at(1626, 18)));
    let mut window = readings(at(100, 300), 276, 150);
    window.size = Err("size".to_owned());
    assert_eq!(position_floating(&window), None);
    assert_eq!(snap_orb_to_edge(&window).unwrap_err(), "size");
}

#[test]
fn the_main_window_is_centered_on_the_main_monitor() {
    let window = readings(at(0, 0), 960, 681);
    assert!(check_middle(&window));
    assert_eq!(center_main_window(&window), Some(at(480, 199)));
    assert!(position_is_visible(&window, at(480, 199)));
    let window = readings(at(0, 0), 4000, 3000);
    assert_eq!(center_main_window(&window), Some(at(0, 0)));
    let mut window = readings(at(0, 0), 960, 680);
    window.primary_monitor = Ok(None);
    assert_eq!(center_main_window(&window), None);
}

#[test]
fn windows_are_seen_on_any_monitor() {
    let window = readings(at(0, 0), 960, 680);
    assert!(check_visible(&window, at(4000, 1000)));
    assert!(position_is_visible(&window, at(4000, 1000)));
    assert!(position_is_visible(&window, at(-780, 0)));
    assert!(!position_is_visible(&window, at(-781, 0)));
    assert!(!position_is_visible(&window, at(4301, 1000)));
    assert!(!position_is_visible(&window, at(-32000, -32000)));
    let mut window = readings(at(0, 0), 960, 680);
    window.monitors = Err("monitors".to_owned());
    assert!(!position_is_visible(&window, at(0, 0)));
}

#[test]
fn the_pointer_is_inside_up_to_the_far_edges() {
    let window = readings(at(500, 300), 68, 68);
    for (x, y, inside) in [
        (500, 300, true),
        (567, 367, true),
        (568, 300, false),
        (500, 368, false),
        (499, 300, false),
    ] {
        assert!(check_pointer(&window, Some(at(x, y))));
        assert_eq!(
            get_floating_orb_pointer_inside(&window, Some(at(x, y))).unwrap(),
            inside
        );
    }
    assert_eq!(
        get_floating_orb_pointer_inside(&window, None).unwrap_err(),
        "无法读取鼠标位置"
    );
}
