//! How the orb's window is laid out around the orb, and which part of it is
//! shown.

use vstd::prelude::*;

use crate::orb::{
    anchor_fits, check_anchor, check_vertical_places, fits, found_monitors_are_known, is_at_edge,
    is_ordinary_position, monitor_for_orb_anchor, orb_anchor_is_near_edge, orb_layout_side,
    orb_layout_side_for_anchor, orbs_are_found_on_ordinary_monitors, side_outcome, window_side,
    Monitor, WindowReadings, WindowSize,
};
use crate::pixels::{signed_pixels, unsigned_pixels, ScaleFactor};
use crate::placement::{
    anchor_x, as_coordinate, clamp_vertical, coordinate, floating_logical_size, is_coordinate,
    logical_size, orb_window_x, vertical_place, vertical_places_fit, window_start,
    window_start_fits, LogicalSize, SavedPosition, FLOATING_ORB_SIZE,
};
use crate::text::{outcome, same_text};

verus! {

/// The place and size of the orb's window.
#[derive(Debug, Clone, Copy, PartialEq, Eq, Structural)]
pub struct OrbBounds {
    /// The size in logical units.
    pub logical: LogicalSize,
    /// The left edge.
    pub x: i32,
    /// The upper edge.
    pub y: i32,
    /// The width in pixels.
    pub width: u32,
    /// The height in pixels.
    pub height: u32,
}

/// The layout of the orb's window.
#[derive(Debug, Clone, Copy)]
pub struct OrbLayout {
    /// The side of the window on which the orb stands.
    pub side: &'static str,
    /// The place and size of the window.
    pub bounds: OrbBounds,
}

/// The bounds of a window on a monitor, around an orb whose left edge is at
/// `orb_left`, and as near to `y` as it stands on the monitor.
pub open spec fn bounds_around(
    monitor: Monitor,
    expanded: bool,
    side: Seq<char>,
    orb_left: int,
    y: int,
) -> OrbBounds {
    let logical = logical_size("orb"@, expanded);
    let width = unsigned_pixels(logical.width as nat, monitor.scale) as u32;
    let height = unsigned_pixels(logical.height as nat, monitor.scale) as u32;
    OrbBounds {
        logical,
        x: window_start(orb_left, monitor.orb_width(), monitor.margin(), side, width) as i32,
        y: vertical_place(y, height, monitor.y as int, monitor.height, monitor.margin()) as i32,
        width,
        height,
    }
}

/// Whether everything that [`bounds_around`] is computed from fits.
pub open spec fn bounds_around_fit(
    monitor: Monitor,
    expanded: bool,
    side: Seq<char>,
    orb_left: int,
) -> bool {
    let logical = logical_size("orb"@, expanded);
    let width = unsigned_pixels(logical.width as nat, monitor.scale) as u32;
    let height = unsigned_pixels(logical.height as nat, monitor.scale) as u32;
    &&& window_start_fits(orb_left, monitor.orb_width(), monitor.margin(), side, width)
    &&& vertical_places_fit(height, monitor.y as int, monitor.height, monitor.margin())
}

/// Computes [`bounds_around`].
fn lay_out(monitor: &Monitor, expanded: bool, side: &'static str, orb_left: i32, y: i32) -> (layout:
    OrbLayout)
    requires
        bounds_around_fit(*monitor, expanded, side@, orb_left as int),
    ensures
        layout.side == side,
        layout.bounds == bounds_around(*monitor, expanded, side@, orb_left as int, y as int),
{
    let logical = floating_logical_size("orb", expanded);
    let width: u32 = monitor.scale.scaled_length(logical.width);
    let height: u32 = monitor.scale.scaled_length(logical.height);
    let margin: i32 = monitor.get_margin();
    let orb_width: i32 = monitor.scale.scaled(56);
    let x: i32 = orb_window_x(orb_left, orb_width, margin, side, width);
    let y: i32 = clamp_vertical(y, height, monitor.y, monitor.height, margin);
    OrbLayout { side, bounds: OrbBounds { logical, x, y, width, height } }
}

/// Tells whether [`bounds_around_fit`] holds.
fn check_bounds(monitor: &Monitor, expanded: bool, side: &str, orb_left: i32) -> (is: bool)
    ensures
        is == bounds_around_fit(*monitor, expanded, side@, orb_left as int),
{
    let logical = floating_logical_size("orb", expanded);
    let width: u32 = monitor.scale.scaled_length(logical.width);
    let height: u32 = monitor.scale.scaled_length(logical.height);
    let margin: i32 = monitor.get_margin();
    let orb_width: i32 = monitor.scale.scaled(56);
    let start_fits = if same_text(side, "right") {
        let end: i64 = orb_left as i64 + orb_width as i64;
        fits(end) && fits(end + margin as i64) && fits(
            end + margin as i64 - as_coordinate(width) as i64,
        )
    } else {
        fits(orb_left as i64 - margin as i64)
    };
    start_fits && check_vertical_places(height, monitor.y, monitor.height, margin)
}

/// A result with a layout or a message, seen as what they hold.
pub open spec fn layout_outcome(result: Result<OrbLayout, String>) -> Result<
    (Seq<char>, OrbBounds),
    Seq<char>,
> {
    match result {
        Ok(layout) => Ok((layout.side@, layout.bounds)),
        Err(message) => Err(message@),
    }
}

/// The layout of the window around an orb at `anchor`.
pub open spec fn layout_from_anchor(
    window: WindowReadings,
    expanded: bool,
    direction: Seq<char>,
    anchor: SavedPosition,
) -> Result<(Seq<char>, OrbBounds), Seq<char>> {
    match window.orb_monitor(anchor) {
        Err(message) => Err(message),
        Ok(monitor) => {
            let side = monitor.side_for(direction, anchor.x as int);
            Ok(
                (
                    side,
                    bounds_around(
                        monitor,
                        expanded,
                        side,
                        anchor.x + monitor.margin(),
                        anchor.y as int,
                    ),
                ),
            )
        },
    }
}

/// Whether everything that [`layout_from_anchor`] is computed from fits.
pub open spec fn layout_from_anchor_fits(
    window: WindowReadings,
    expanded: bool,
    direction: Seq<char>,
    anchor: SavedPosition,
) -> bool {
    &&& anchor_fits(window, anchor)
    &&& window.orb_monitor(anchor) matches Ok(monitor) ==> {
        &&& is_coordinate(anchor.x + monitor.margin())
        &&& bounds_around_fit(
            monitor,
            expanded,
            monitor.side_for(direction, anchor.x as int),
            anchor.x + monitor.margin(),
        )
    }
}

/// The layout of the window around an orb at `anchor`.
pub fn resize_orb_window_from_anchor(
    window: &WindowReadings,
    expanded: bool,
    direction: &str,
    anchor: SavedPosition,
) -> (layout: Result<OrbLayout, String>)
    requires
        layout_from_anchor_fits(*window, expanded, direction@, anchor),
    ensures
        layout_outcome(layout) == layout_from_anchor(*window, expanded, direction@, anchor),
{
    let monitor = match monitor_for_orb_anchor(window, anchor) {
        Ok(monitor) => monitor,
        Err(message) => {
            return Err(message);
        },
    };
    let side = match orb_layout_side_for_anchor(window, direction, anchor) {
        Ok(side) => side,
        Err(message) => {
            return Err(message);
        },
    };
    Ok(lay_out(&monitor, expanded, side, anchor.x + monitor.get_margin(), anchor.y))
}

/// The layout of the window in which the orb is displayed: it is unfolded, also
/// where only the orb is shown.
pub fn orb_display_layout(window: &WindowReadings, direction: &str, anchor: SavedPosition) -> (layout:
    Result<OrbLayout, String>)
    requires
        layout_from_anchor_fits(*window, true, direction@, anchor),
    ensures
        layout_outcome(layout) == layout_from_anchor(*window, true, direction@, anchor),
{
    resize_orb_window_from_anchor(window, true, direction, anchor)
}

/// Tells whether the layout of the window fits in which the orb is displayed.
pub fn check_display_layout(window: &WindowReadings, direction: &str, anchor: SavedPosition) -> (is:
    bool)
    ensures
        is == layout_from_anchor_fits(*window, true, direction@, anchor),
{
    check_layout_from_anchor(window, true, direction, anchor)
}

/// Tells whether [`layout_from_anchor_fits`] holds.
pub fn check_layout_from_anchor(
    window: &WindowReadings,
    expanded: bool,
    direction: &str,
    anchor: SavedPosition,
) -> (is: bool)
    ensures
        is == layout_from_anchor_fits(*window, expanded, direction@, anchor),
{
    if !check_anchor(window, anchor) {
        return false;
    }
    let monitor = match monitor_for_orb_anchor(window, anchor) {
        Ok(monitor) => monitor,
        Err(_) => {
            return true;
        },
    };
    let side = match orb_layout_side_for_anchor(window, direction, anchor) {
        Ok(side) => side,
        Err(_) => {
            return true;
        },
    };
    let orb_left: i64 = anchor.x as i64 + monitor.get_margin() as i64;
    fits(orb_left) && check_bounds(&monitor, expanded, side, orb_left as i32)
}

/// The left edge of an orb that stands on a given side of its window.
pub open spec fn orb_left_in(
    monitor: Monitor,
    position: SavedPosition,
    size: WindowSize,
    side: Seq<char>,
) -> int {
    if side == "right"@ {
        position.x + coordinate(size.width) - monitor.margin() - monitor.orb_width()
    } else {
        position.x + monitor.margin()
    }
}

/// Whether the left edge of the orb, and what it is computed from, are
/// coordinates.
pub open spec fn orb_left_fits(
    monitor: Monitor,
    position: SavedPosition,
    size: WindowSize,
    side: Seq<char>,
) -> bool {
    &&& is_coordinate(orb_left_in(monitor, position, size, side))
    &&& side == "right"@ ==> is_coordinate(position.x + coordinate(size.width)) && is_coordinate(
        position.x + coordinate(size.width) - monitor.margin(),
    )
}

/// The layout of the window around an orb that stands on `current_side` of the
/// window as it is; on the side that the new layout gives it where none is
/// known.
pub open spec fn layout_from_side(
    window: WindowReadings,
    expanded: bool,
    direction: Seq<char>,
    current_side: Option<Seq<char>>,
) -> Result<(Seq<char>, OrbBounds), Seq<char>> {
    match window_side(window, direction) {
        Err(message) => Err(message),
        Ok(side) => {
            let monitor = window.own_monitor()->Ok_0;
            let position = window.position->Ok_0;
            let size = window.size->Ok_0;
            let current = match current_side {
                Some(current) => current,
                None => side,
            };
            Ok(
                (
                    side,
                    bounds_around(
                        monitor,
                        expanded,
                        side,
                        orb_left_in(monitor, position, size, current),
                        position.y as int,
                    ),
                ),
            )
        },
    }
}

/// Whether everything that [`layout_from_side`] is computed from fits.
pub open spec fn layout_from_side_fits(
    window: WindowReadings,
    expanded: bool,
    direction: Seq<char>,
    current_side: Option<Seq<char>>,
) -> bool {
    window_side(window, direction) matches Ok(side) ==> {
        let monitor = window.own_monitor()->Ok_0;
        let position = window.position->Ok_0;
        let size = window.size->Ok_0;
        let current = match current_side {
            Some(current) => current,
            None => side,
        };
        &&& orb_left_fits(monitor, position, size, current)
        &&& bounds_around_fit(
            monitor,
            expanded,
            side,
            orb_left_in(monitor, position, size, current),
        )
    }
}

/// An optional side, seen as its characters.
pub open spec fn optional_side(side: Option<&'static str>) -> Option<Seq<char>> {
    match side {
        Some(side) => Some(side@),
        None => None,
    }
}

/// The layout of the window around an orb that stands on `current_side` of the
/// window as it is. The orb keeps its place; only the window around it moves.
pub fn resize_orb_window_from_side(
    window: &WindowReadings,
    expanded: bool,
    direction: &str,
    current_side: Option<&'static str>,
) -> (layout: Result<OrbLayout, String>)
    requires
        layout_from_side_fits(*window, expanded, direction@, optional_side(current_side)),
    ensures
        layout_outcome(layout) == layout_from_side(
            *window,
            expanded,
            direction@,
            optional_side(current_side),
        ),
{
    let side = match orb_layout_side(window, direction) {
        Ok(side) => side,
        Err(message) => {
            return Err(message);
        },
    };
    let monitor = match window.find_own_monitor() {
        Ok(monitor) => monitor,
        Err(message) => {
            return Err(message);
        },
    };
    let position = match &window.position {
        Ok(position) => *position,
        Err(message) => {
            return Err(message.clone());
        },
    };
    let size = match &window.size {
        Ok(size) => *size,
        Err(message) => {
            return Err(message.clone());
        },
    };
    let current = match current_side {
        Some(current) => current,
        None => side,
    };
    let margin: i32 = monitor.get_margin();
    let orb_left: i32 = if same_text(current, "right") {
        position.x + as_coordinate(size.width) - margin - monitor.scale.scaled(56)
    } else {
        position.x + margin
    };
    Ok(lay_out(&monitor, expanded, side, orb_left, position.y))
}

/// Tells whether [`layout_from_side_fits`] holds.
pub fn check_layout_from_side(
    window: &WindowReadings,
    expanded: bool,
    direction: &str,
    current_side: Option<&'static str>,
) -> (is: bool)
    ensures
        is == layout_from_side_fits(*window, expanded, direction@, optional_side(current_side)),
{
    let side = match orb_layout_side(window, direction) {
        Ok(side) => side,
        Err(_) => {
            return true;
        },
    };
    let monitor = match window.find_own_monitor() {
        Ok(monitor) => monitor,
        Err(_) => {
            return true;
        },
    };
    let position = match &window.position {
        Ok(position) => *position,
        Err(_) => {
            return true;
        },
    };
    let size = match &window.size {
        Ok(size) => *size,
        Err(_) => {
            return true;
        },
    };
    let current = match current_side {
        Some(current) => current,
        None => side,
    };
    let margin: i64 = monitor.get_margin() as i64;
    let orb_left: i64 = if same_text(current, "right") {
        let end: i64 = position.x as i64 + as_coordinate(size.width) as i64;
        if !fits(end) || !fits(end - margin) {
            return false;
        }
        end - margin - monitor.scale.scaled(56) as i64
    } else {
        position.x as i64 + margin
    };
    fits(orb_left) && check_bounds(&monitor, expanded, side, orb_left as i32)
}

/// Whether a window already has the given bounds.
pub fn has_bounds(window: &WindowReadings, bounds: OrbBounds) -> (has: bool)
    ensures
        has == ((window.position matches Ok(position) && position == (SavedPosition {
            x: bounds.x,
            y: bounds.y,
        })) && (window.size matches Ok(size) && size == (WindowSize {
            width: bounds.width,
            height: bounds.height,
        }))),
{
    let placed = match &window.position {
        Ok(position) => position.x == bounds.x && position.y == bounds.y,
        Err(_) => false,
    };
    let sized = match &window.size {
        Ok(size) => size.width == bounds.width && size.height == bounds.height,
        Err(_) => false,
    };
    placed && sized
}

/// Whether only the orb of an unfolded window is shown: at an edge, as long as
/// the panel is not asked for.
pub fn clips_to_orb(window: &WindowReadings, anchor: SavedPosition, panel_visible: bool) -> (clips:
    Result<bool, String>)
    requires
        anchor_fits(*window, anchor),
    ensures
        outcome(clips) == (match is_at_edge(*window, anchor) {
            Ok(at_edge) => Ok(at_edge && !panel_visible),
            Err(message) => Err(message),
        }),
{
    match orb_anchor_is_near_edge(window, anchor) {
        Ok(at_edge) => Ok(at_edge && !panel_visible),
        Err(message) => Err(message),
    }
}

/// The part of a window that is shown and takes clicks.
#[derive(Debug, Clone, Copy, PartialEq, Eq, Structural)]
pub enum OrbRegion {
    /// All of it.
    Whole,
    /// The ellipse between four edges.
    Ellipse { left: i32, top: i32, right: i32, bottom: i32 },
}

/// The left edge of the orb within its window.
pub open spec fn region_left(size: WindowSize, orb_size: int, side: Seq<char>) -> int {
    if side == "right"@ {
        coordinate(size.width) - orb_size
    } else {
        0
    }
}

/// The part of a window that is shown: all of it, or the orb alone on its side
/// of the window.
pub open spec fn region_of(window: WindowReadings, collapsed: bool, side: Seq<char>) -> Result<
    OrbRegion,
    Seq<char>,
> {
    if !collapsed {
        Ok(OrbRegion::Whole)
    } else {
        match window.size {
            Err(message) => Err(message@),
            Ok(size) => match window.scale {
                Err(message) => Err(message@),
                Ok(scale) => {
                    let orb_size = signed_pixels(68, scale, 0);
                    let left = region_left(size, orb_size, side);
                    Ok(
                        OrbRegion::Ellipse {
                            left: left as i32,
                            top: 0,
                            right: (left + orb_size) as i32,
                            bottom: coordinate(size.height) as i32,
                        },
                    )
                },
            },
        }
    }
}

/// Whether the edges of the orb are coordinates.
pub open spec fn region_fits(window: WindowReadings, collapsed: bool, side: Seq<char>) -> bool {
    match (window.size, window.scale) {
        (Ok(size), Ok(scale)) => {
            let orb_size = signed_pixels(68, scale, 0);
            let left = region_left(size, orb_size, side);
            collapsed ==> is_coordinate(left) && is_coordinate(left + orb_size)
        },
        _ => true,
    }
}

/// The part of a window that is shown.
pub fn orb_window_region(window: &WindowReadings, collapsed: bool, side: &str) -> (region: Result<
    OrbRegion,
    String,
>)
    requires
        region_fits(*window, collapsed, side@),
    ensures
        outcome(region) == region_of(*window, collapsed, side@),
{
    if !collapsed {
        return Ok(OrbRegion::Whole);
    }
    let size = match &window.size {
        Ok(size) => *size,
        Err(message) => {
            return Err(message.clone());
        },
    };
    let scale = match &window.scale {
        Ok(scale) => *scale,
        Err(message) => {
            return Err(message.clone());
        },
    };
    let orb_size: i32 = scale.scaled(FLOATING_ORB_SIZE);
    let left: i32 = if same_text(side, "right") {
        as_coordinate(size.width) - orb_size
    } else {
        0
    };
    Ok(
        OrbRegion::Ellipse {
            left,
            top: 0,
            right: left + orb_size,
            bottom: as_coordinate(size.height),
        },
    )
}

/// Tells whether [`region_fits`] holds.
pub fn check_region(window: &WindowReadings, collapsed: bool, side: &str) -> (is: bool)
    ensures
        is == region_fits(*window, collapsed, side@),
{
    let size = match &window.size {
        Ok(size) => *size,
        Err(_) => {
            return true;
        },
    };
    let scale = match &window.scale {
        Ok(scale) => *scale,
        Err(_) => {
            return true;
        },
    };
    let orb_size: i64 = scale.scaled(FLOATING_ORB_SIZE) as i64;
    let left: i64 = if same_text(side, "right") {
        as_coordinate(size.width) as i64 - orb_size
    } else {
        0
    };
    !collapsed || (fits(left) && fits(left + orb_size))
}

/// The part of an unfolded window that is shown around an orb at `anchor`: the
/// orb alone at an edge, as long as the panel is not asked for, and all of the
/// window elsewhere.
pub open spec fn displayed_region(
    window: WindowReadings,
    anchor: SavedPosition,
    panel_visible: bool,
    side: Seq<char>,
) -> Result<OrbRegion, Seq<char>> {
    match is_at_edge(window, anchor) {
        Ok(at_edge) => region_of(window, at_edge && !panel_visible, side),
        Err(message) => Err(message),
    }
}

/// Whether everything that [`displayed_region`] is computed from fits.
pub open spec fn displayed_region_fits(
    window: WindowReadings,
    anchor: SavedPosition,
    panel_visible: bool,
    side: Seq<char>,
) -> bool {
    &&& anchor_fits(window, anchor)
    &&& is_at_edge(window, anchor) matches Ok(at_edge) ==> region_fits(
        window,
        at_edge && !panel_visible,
        side,
    )
}

/// The part of an unfolded window that is shown around an orb at `anchor`.
pub fn orb_display_region(
    window: &WindowReadings,
    anchor: SavedPosition,
    panel_visible: bool,
    side: &str,
) -> (region: Result<OrbRegion, String>)
    requires
        displayed_region_fits(*window, anchor, panel_visible, side@),
    ensures
        outcome(region) == displayed_region(*window, anchor, panel_visible, side@),
{
    match clips_to_orb(window, anchor, panel_visible) {
        Ok(clips) => orb_window_region(window, clips, side),
        Err(message) => Err(message),
    }
}

/// Tells whether [`displayed_region_fits`] holds.
pub fn check_display_region(
    window: &WindowReadings,
    anchor: SavedPosition,
    panel_visible: bool,
    side: &str,
) -> (is: bool)
    ensures
        is == displayed_region_fits(*window, anchor, panel_visible, side@),
{
    if !check_anchor(window, anchor) {
        return false;
    }
    match clips_to_orb(window, anchor, panel_visible) {
        Ok(clips) => check_region(window, clips, side),
        Err(_) => true,
    }
}

/// The whole window is shown wherever the panel is asked for or the orb is away
/// from the edges, and the orb alone elsewhere.
pub proof fn orbs_are_alone_only_at_an_edge(
    window: WindowReadings,
    anchor: SavedPosition,
    panel_visible: bool,
    side: Seq<char>,
)
    ensures
        is_at_edge(window, anchor) matches Ok(at_edge) && (panel_visible || !at_edge)
            ==> displayed_region(window, anchor, panel_visible, side) == Ok::<OrbRegion, Seq<char>>(
            OrbRegion::Whole,
        ),
        is_at_edge(window, anchor) == Ok::<bool, Seq<char>>(true) && !panel_visible ==> (
        displayed_region(window, anchor, panel_visible, side) matches Ok(region)
            ==> region is Ellipse),
{
}

/// The side on which the orb of a window stood so far: known where the window
/// is unfolded, by the direction in which it was.
pub fn unfolded_side(window: &WindowReadings, expanded: bool, direction: &str) -> (side: Option<
    &'static str,
>)
    ensures
        optional_side(side) == (match window_side(*window, direction@) {
            Ok(side) if expanded => Some(side),
            _ => None,
        }),
{
    if !expanded {
        return None;
    }
    match orb_layout_side(window, direction) {
        Ok(side) => Some(side),
        Err(_) => None,
    }
}

/// The orb keeps its place while its window unfolds, folds or changes its side:
/// from the window that is laid out around an orb the same anchor is found
/// again.
pub proof fn layouts_keep_the_orb_in_place(
    window: WindowReadings,
    expanded: bool,
    direction: Seq<char>,
    anchor: SavedPosition,
    monitor: Monitor,
)
    requires
        layout_from_anchor_fits(window, expanded, direction, anchor),
        window.orb_monitor(anchor) == Ok::<Monitor, Seq<char>>(monitor),
    ensures
        layout_from_anchor(window, expanded, direction, anchor) matches Ok((side, bounds))
            && anchor_x(
            bounds.x as int,
            bounds.width,
            monitor.orb_width() + 2 * monitor.margin(),
            side,
        ) == anchor.x,
{
}

/// The orb keeps its place while the side of its window changes on which it
/// stands: its left edge in the new window is where it was in the old one.
pub proof fn changes_of_side_keep_the_orb_in_place(
    window: WindowReadings,
    expanded: bool,
    direction: Seq<char>,
    current_side: Option<Seq<char>>,
    monitor: Monitor,
    position: SavedPosition,
    size: WindowSize,
)
    requires
        layout_from_side_fits(window, expanded, direction, current_side),
        window.own_monitor() == Ok::<Monitor, Seq<char>>(monitor),
        window.position == Ok::<SavedPosition, String>(position),
        window.size == Ok::<WindowSize, String>(size),
    ensures
        layout_from_side(window, expanded, direction, current_side) matches Ok((side, bounds))
            && orb_left_in(
            monitor,
            SavedPosition { x: bounds.x, y: bounds.y },
            WindowSize { width: bounds.width, height: bounds.height },
            side,
        ) == orb_left_in(
            monitor,
            position,
            size,
            match current_side {
                Some(current) => current,
                None => side,
            },
        ),
{
}

/// The window around an orb is 68 logical units high, and 230 wide unfolded or
/// 68 wide folded. With the orb on its left side it begins at the anchor; with
/// the orb on its right side it ends where the orb of 56 logical units and a gap
/// of 6 on either side of it end. It is as high as the anchor where it stands on
/// the monitor there, 6 logical units off its upper and lower edge.
pub proof fn windows_are_laid_out_around_the_anchor(
    window: WindowReadings,
    expanded: bool,
    direction: Seq<char>,
    anchor: SavedPosition,
    monitor: Monitor,
)
    requires
        layout_from_anchor_fits(window, expanded, direction, anchor),
        window.orb_monitor(anchor) == Ok::<Monitor, Seq<char>>(monitor),
        unsigned_pixels(230, monitor.scale) <= i32::MAX,
        unsigned_pixels(68, monitor.scale) <= i32::MAX,
        monitor.height <= i32::MAX,
    ensures
        layout_from_anchor(window, expanded, direction, anchor) matches Ok((side, bounds)) && {
            let gap = signed_pixels(6, monitor.scale, 0);
            let orb = signed_pixels(56, monitor.scale, 0);
            &&& side == monitor.side_for(direction, anchor.x as int)
            &&& expanded ==> bounds.logical.width == 230 && bounds.width == unsigned_pixels(
                230,
                monitor.scale,
            )
            &&& !expanded ==> bounds.logical.width == 68 && bounds.width == unsigned_pixels(
                68,
                monitor.scale,
            )
            &&& bounds.logical.height == 68
            &&& bounds.height == unsigned_pixels(68, monitor.scale)
            &&& side != "right"@ ==> bounds.x == anchor.x
            &&& side == "right"@ ==> bounds.x + bounds.width == anchor.x + gap + orb + gap
            &&& bounds.y >= monitor.y + gap
            &&& bounds.height + 2 * gap <= monitor.height ==> bounds.y + bounds.height + gap
                <= monitor.y + monitor.height
            &&& monitor.y + gap <= anchor.y && anchor.y + bounds.height + gap <= monitor.y
                + monitor.height ==> bounds.y == anchor.y
        },
{
}

/// A window that changes its side is laid out on its own monitor around the orb
/// as it stands in it: 6 logical units from the left end of the window as it is,
/// or, where the orb stands on the right side, as many from its right end. The
/// new window begins or ends as far from the orb, on the side that the direction
/// and the place of the window give.
pub proof fn windows_are_laid_out_around_the_orb_in_them(
    window: WindowReadings,
    expanded: bool,
    direction: Seq<char>,
    current_side: Option<Seq<char>>,
    monitor: Monitor,
    position: SavedPosition,
    size: WindowSize,
    side: Seq<char>,
)
    requires
        layout_from_side_fits(window, expanded, direction, current_side),
        window.own_monitor() == Ok::<Monitor, Seq<char>>(monitor),
        window.position == Ok::<SavedPosition, String>(position),
        window.size == Ok::<WindowSize, String>(size),
        window_side(window, direction) == Ok::<Seq<char>, Seq<char>>(side),
        size.width <= i32::MAX,
        unsigned_pixels(230, monitor.scale) <= i32::MAX,
        unsigned_pixels(68, monitor.scale) <= i32::MAX,
        monitor.height <= i32::MAX,
    ensures
        layout_from_side(window, expanded, direction, current_side) matches Ok((laid, bounds)) && {
            let gap = signed_pixels(6, monitor.scale, 0);
            let orb = signed_pixels(56, monitor.scale, 0);
            let on_right = match current_side {
                Some(current) => current == "right"@,
                None => side == "right"@,
            };
            let orb_left = if on_right {
                position.x + size.width - gap - orb
            } else {
                position.x + gap
            };
            &&& laid == side
            &&& bounds.width == unsigned_pixels(
                if expanded {
                    230
                } else {
                    68
                },
                monitor.scale,
            )
            &&& bounds.height == unsigned_pixels(68, monitor.scale)
            &&& side == "right"@ ==> bounds.x + bounds.width == orb_left + orb + gap
            &&& side != "right"@ ==> bounds.x + gap == orb_left
            &&& bounds.y >= monitor.y + gap
            &&& monitor.y + gap <= position.y && position.y + bounds.height + gap <= monitor.y
                + monitor.height ==> bounds.y == position.y
        },
{
}

/// What the desktop says in place of a monitor, a place or a size is passed on,
/// and there is no layout.
pub proof fn layouts_need_a_monitor(
    window: WindowReadings,
    expanded: bool,
    direction: Seq<char>,
    anchor: SavedPosition,
    current_side: Option<Seq<char>>,
)
    ensures
        window.orb_monitor(anchor) matches Err(message) ==> layout_from_anchor(
            window,
            expanded,
            direction,
            anchor,
        ) == Err::<(Seq<char>, OrbBounds), Seq<char>>(message),
        window_side(window, direction) matches Err(message) ==> layout_from_side(
            window,
            expanded,
            direction,
            current_side,
        ) == Err::<(Seq<char>, OrbBounds), Seq<char>>(message),
        is_at_edge(window, anchor) matches Err(message) ==> forall|panel_visible: bool|
            (#[trigger] displayed_region(window, anchor, panel_visible, direction)) == Err::<
                OrbRegion,
                Seq<char>,
            >(message),
{
}

/// The orb alone is an ellipse of 68 logical units at its side of the window and
/// as high as the window; a window that is not collapsed is shown whole.
pub proof fn the_orb_alone_is_at_its_side(
    window: WindowReadings,
    side: Seq<char>,
    size: WindowSize,
    scale: ScaleFactor,
)
    requires
        region_fits(window, true, side),
        window.size == Ok::<WindowSize, String>(size),
        window.scale == Ok::<ScaleFactor, String>(scale),
        size.width <= i32::MAX,
        size.height <= i32::MAX,
    ensures
        region_of(window, false, side) == Ok::<OrbRegion, Seq<char>>(OrbRegion::Whole),
        region_of(window, true, side) matches Ok(OrbRegion::Ellipse { left, top, right, bottom })
            && {
            &&& right - left == signed_pixels(68, scale, 0)
            &&& side == "right"@ ==> right == size.width
            &&& side != "right"@ ==> left == 0
            &&& top == 0
            &&& bottom == size.height
        },
{
}

/// The window around an orb at an ordinary position on ordinary monitors can be
/// laid out.
pub proof fn windows_are_laid_out_on_ordinary_monitors(
    window: WindowReadings,
    monitors: Vec<Monitor>,
    expanded: bool,
    direction: Seq<char>,
    anchor: SavedPosition,
)
    requires
        window.monitors == Ok::<Vec<Monitor>, String>(monitors),
        forall|i: int| 0 <= i < monitors@.len() ==> (#[trigger] monitors@[i]).is_ordinary(),
        window.own_monitor() matches Ok(own) ==> own.is_ordinary(),
        is_ordinary_position(anchor),
    ensures
        layout_from_anchor_fits(window, expanded, direction, anchor),
{
    orbs_are_found_on_ordinary_monitors(window, monitors, anchor);
    if let Ok(monitor) = window.orb_monitor(anchor) {
        found_monitors_are_known(window, monitors, anchor);
        assert(monitor.is_ordinary());
        lemma_bounds_fit(
            monitor,
            expanded,
            monitor.side_for(direction, anchor.x as int),
            anchor.x + monitor.margin(),
        );
    }
}

/// The window around an orb at an ordinary place on an ordinary monitor fits.
proof fn lemma_bounds_fit(monitor: Monitor, expanded: bool, side: Seq<char>, orb_left: int)
    requires
        monitor.is_ordinary(),
        -0x300_0000 <= orb_left <= 0x300_0000,
    ensures
        is_coordinate(orb_left),
        bounds_around_fit(monitor, expanded, side, orb_left),
{
    let logical = logical_size("orb"@, expanded);
    let width = unsigned_pixels(logical.width as nat, monitor.scale);
    let height = unsigned_pixels(logical.height as nat, monitor.scale);
    assert(logical.width == 230 || logical.width == 68);
    assert(width <= 0x1_0000 && height <= 0x1_0000);
    assert(coordinate(width as u32) == width && coordinate(height as u32) == height);
}

/// What is said of a layout is said of its side and its bounds.
pub proof fn layouts_are_seen_as_they_are(layout: OrbLayout, message: String, side: &'static str)
    ensures
        layout_outcome(Ok::<OrbLayout, String>(layout)) == Ok::<
            (Seq<char>, OrbBounds),
            Seq<char>,
        >((layout.side@, layout.bounds)),
        layout_outcome(Err::<OrbLayout, String>(message)) == Err::<
            (Seq<char>, OrbBounds),
            Seq<char>,
        >(message@),
        optional_side(Some(side)) == Some(side@),
        optional_side(None) is None,
        side_outcome(Ok::<&'static str, String>(side)) == Ok::<Seq<char>, Seq<char>>(side@),
        side_outcome(Err::<&'static str, String>(message)) == Err::<Seq<char>, Seq<char>>(message@),
{
}

} // verus!
