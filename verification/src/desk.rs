//! Where windows go when they are shown: at an edge, in a corner, where they
//! were, or in the middle of the main monitor.

use vstd::prelude::*;

use crate::orb::{
    check_vertical_places, fits, is_ordinary_position, Monitor, WindowReadings, WindowSize,
};
use crate::pixels::signed_pixels;
use crate::placement::{
    as_coordinate, clamp_vertical, coordinate, edge_side, intersects, is_coordinate, larger, max_of,
    min_of, nearer_edge, overlap_fits, position_intersects_monitor, smaller, vertical_place,
    vertical_places_fit, visible_part, SavedPosition,
};
use crate::text::same_text;

verus! {

/// Where a window stands at an edge of a monitor.
pub open spec fn beside_edge(monitor: Monitor, size: WindowSize, side: Seq<char>) -> int {
    if side == "left"@ {
        monitor.x + monitor.margin()
    } else {
        monitor.x + coordinate(monitor.width) - coordinate(size.width) - monitor.margin()
    }
}

/// Whether that place, and what it is computed from, are coordinates.
pub open spec fn beside_edge_fits(monitor: Monitor, size: WindowSize, side: Seq<char>) -> bool {
    &&& is_coordinate(beside_edge(monitor, size, side))
    &&& side != "left"@ ==> is_coordinate(monitor.x + coordinate(monitor.width)) && is_coordinate(
        monitor.x + coordinate(monitor.width) - coordinate(size.width),
    )
}

/// The place at the nearer edge to which a window moves, and the edge.
pub open spec fn snapped(window: WindowReadings) -> Result<(SavedPosition, Seq<char>), Seq<char>> {
    match window.own_monitor() {
        Err(message) => Err(message),
        Ok(monitor) => match window.position {
            Err(message) => Err(message@),
            Ok(position) => match window.size {
                Err(message) => Err(message@),
                Ok(size) => {
                    let side = nearer_edge(
                        position.x as int,
                        size.width as int,
                        monitor.x as int,
                        monitor.width as int,
                    );
                    Ok(
                        (
                            SavedPosition {
                                x: beside_edge(monitor, size, side) as i32,
                                y: vertical_place(
                                    position.y as int,
                                    size.height,
                                    monitor.y as int,
                                    monitor.height,
                                    monitor.margin(),
                                ) as i32,
                            },
                            side,
                        ),
                    )
                },
            },
        },
    }
}

/// Whether everything that [`snapped`] is computed from fits.
pub open spec fn snapped_fits(window: WindowReadings) -> bool {
    match (window.own_monitor(), window.position, window.size) {
        (Ok(monitor), Ok(position), Ok(size)) => {
            &&& beside_edge_fits(
                monitor,
                size,
                nearer_edge(
                    position.x as int,
                    size.width as int,
                    monitor.x as int,
                    monitor.width as int,
                ),
            )
            &&& vertical_places_fit(
                size.height,
                monitor.y as int,
                monitor.height,
                monitor.margin(),
            )
        },
        _ => true,
    }
}

/// The place at the nearer edge to which a window moves, and the edge.
pub fn snap_orb_to_edge(window: &WindowReadings) -> (result: Result<
    (SavedPosition, &'static str),
    String,
>)
    requires
        snapped_fits(*window),
    ensures
        snapped(*window) == (match result {
            Ok((position, side)) => Ok((position, side@)),
            Err(message) => Err(message@),
        }),
{
    let monitor = match window.find_own_monitor() {
        Ok(monitor) => monitor,
        Err(message) => {
            return Err(message);
        },
    };
    let position = match &window.position {
        Ok(position) => *position,
        Err(message) => {
            return Err(message.clone());
        },
    };
    let size = match &window.size {
        Ok(size) => *size,
        Err(message) => {
            return Err(message.clone());
        },
    };
    let side = edge_side(position.x, size.width, monitor.x, monitor.width);
    let margin: i32 = monitor.get_margin();
    let x: i32 = if same_text(side, "left") {
        monitor.x + margin
    } else {
        monitor.x + as_coordinate(monitor.width) - as_coordinate(size.width) - margin
    };
    let y: i32 = clamp_vertical(position.y, size.height, monitor.y, monitor.height, margin);
    Ok((SavedPosition { x, y }, side))
}

/// Tells whether [`snapped_fits`] holds.
pub fn check_snap(window: &WindowReadings) -> (is: bool)
    ensures
        is == snapped_fits(*window),
{
    let monitor = match window.find_own_monitor() {
        Ok(monitor) => monitor,
        Err(_) => {
            return true;
        },
    };
    let position = match &window.position {
        Ok(position) => *position,
        Err(_) => {
            return true;
        },
    };
    let size = match &window.size {
        Ok(size) => *size,
        Err(_) => {
            return true;
        },
    };
    let side = edge_side(position.x, size.width, monitor.x, monitor.width);
    let margin: i64 = monitor.get_margin() as i64;
    let beside = if same_text(side, "left") {
        fits(monitor.x as i64 + margin)
    } else {
        let end: i64 = monitor.x as i64 + as_coordinate(monitor.width) as i64;
        let inner: i64 = end - as_coordinate(size.width) as i64;
        fits(end) && fits(inner) && fits(inner - margin)
    };
    beside && check_vertical_places(size.height, monitor.y, monitor.height, monitor.get_margin())
}

/// The distance of the card from the corner in which it is first shown.
pub open spec fn corner_margin(monitor: Monitor) -> int {
    signed_pixels(18, monitor.scale, 0)
}

/// The upper right corner of a monitor, as the place of a window.
pub open spec fn corner(monitor: Monitor, size: WindowSize) -> SavedPosition {
    SavedPosition {
        x: (monitor.x + coordinate(monitor.width) - coordinate(size.width) - corner_margin(
            monitor,
        )) as i32,
        y: (monitor.y + corner_margin(monitor)) as i32,
    }
}

/// Whether the corner, and what it is computed from, are coordinates.
pub open spec fn corner_fits(monitor: Monitor, size: WindowSize) -> bool {
    let end = monitor.x + coordinate(monitor.width);
    &&& is_coordinate(end)
    &&& is_coordinate(end - coordinate(size.width))
    &&& is_coordinate(end - coordinate(size.width) - corner_margin(monitor))
    &&& is_coordinate(monitor.y + corner_margin(monitor))
}

/// The main monitor and the size of a window, where the desktop names both.
pub open spec fn main_monitor_and_size(window: WindowReadings) -> Option<(Monitor, WindowSize)> {
    match (window.primary_monitor, window.size) {
        (Ok(Some(monitor)), Ok(size)) => Some((monitor, size)),
        _ => None,
    }
}

/// The main monitor and the size of a window, where the desktop names both.
fn find_main_monitor_and_size(window: &WindowReadings) -> (found: Option<(Monitor, WindowSize)>)
    ensures
        found == main_monitor_and_size(*window),
{
    match &window.primary_monitor {
        Ok(Some(monitor)) => match &window.size {
            Ok(size) => Some((*monitor, *size)),
            Err(_) => None,
        },
        _ => None,
    }
}

/// Where the card is first shown: in the upper right corner of the main
/// monitor; nowhere where the desktop gives no answer.
pub fn position_floating(window: &WindowReadings) -> (place: Option<SavedPosition>)
    requires
        main_monitor_and_size(*window) matches Some((monitor, size)) ==> corner_fits(monitor, size),
    ensures
        place == (match main_monitor_and_size(*window) {
            Some((monitor, size)) => Some(corner(monitor, size)),
            None => None,
        }),
{
    let (monitor, size) = find_main_monitor_and_size(window)?;
    let margin: i32 = monitor.scale.scaled(18);
    let x: i32 = monitor.x + as_coordinate(monitor.width) - as_coordinate(size.width) - margin;
    let y: i32 = monitor.y + margin;
    Some(SavedPosition { x, y })
}

/// Tells whether the corner of the main monitor fits.
pub fn check_corner(window: &WindowReadings) -> (is: bool)
    ensures
        is == (main_monitor_and_size(*window) matches Some((monitor, size)) ==> corner_fits(
            monitor,
            size,
        )),
{
    match find_main_monitor_and_size(window) {
        None => true,
        Some((monitor, size)) => {
            let margin: i64 = monitor.scale.scaled(18) as i64;
            let end: i64 = monitor.x as i64 + as_coordinate(monitor.width) as i64;
            let inner: i64 = end - as_coordinate(size.width) as i64;
            fits(end) && fits(inner) && fits(inner - margin) && fits(monitor.y as i64 + margin)
        },
    }
}

/// Whether enough of a window at a position is seen on a monitor.
pub open spec fn seen_on(monitor: Monitor, size: WindowSize, position: SavedPosition) -> bool {
    intersects(
        position,
        size.width,
        size.height,
        monitor.x as int,
        monitor.y as int,
        monitor.width,
        monitor.height,
    )
}

/// Whether everything that [`seen_on`] is computed from fits.
pub open spec fn seen_on_fits(monitor: Monitor, size: WindowSize, position: SavedPosition) -> bool {
    overlap_fits(
        position,
        size.width,
        size.height,
        monitor.x as int,
        monitor.y as int,
        monitor.width,
        monitor.height,
    )
}

/// Whether enough of a window at a position is seen on a monitor of a list.
pub open spec fn seen_on_any(
    monitors: Seq<Monitor>,
    size: WindowSize,
    position: SavedPosition,
) -> bool {
    exists|i: int| 0 <= i < monitors.len() && seen_on(#[trigger] monitors[i], size, position)
}

/// Whether the overlaps with the monitors of a list fit, up to the first on
/// which enough of the window is seen.
pub open spec fn seen_on_any_fits(
    monitors: Seq<Monitor>,
    size: WindowSize,
    position: SavedPosition,
) -> bool {
    forall|i: int|
        0 <= i < monitors.len() && !seen_on_any(monitors.take(i), size, position) ==> seen_on_fits(
            #[trigger] monitors[i],
            size,
            position,
        )
}

/// Whether enough of a window at a position is seen on one of the monitors.
pub open spec fn is_visible(window: WindowReadings, position: SavedPosition) -> bool {
    match window.size {
        Ok(size) => match window.monitors {
            Ok(monitors) => seen_on_any(monitors@, size, position),
            Err(_) => false,
        },
        Err(_) => false,
    }
}

/// Whether everything that [`is_visible`] is computed from fits.
pub open spec fn is_visible_fits(window: WindowReadings, position: SavedPosition) -> bool {
    match window.size {
        Ok(size) => match window.monitors {
            Ok(monitors) => seen_on_any_fits(monitors@, size, position),
            Err(_) => true,
        },
        Err(_) => true,
    }
}

/// Whether enough of a window at a position is seen on one of the monitors.
pub fn position_is_visible(window: &WindowReadings, position: SavedPosition) -> (seen: bool)
    requires
        is_visible_fits(*window, position),
    ensures
        seen == is_visible(*window, position),
{
    let size = match &window.size {
        Ok(size) => *size,
        Err(_) => {
            return false;
        },
    };
    let monitors = match &window.monitors {
        Ok(monitors) => monitors,
        Err(_) => {
            return false;
        },
    };
    let mut i: usize = 0;
    while i < monitors.len()
        invariant
            i <= monitors@.len(),
            window.size == Ok::<WindowSize, String>(size),
            window.monitors == Ok::<Vec<Monitor>, String>(*monitors),
            seen_on_any_fits(monitors@, size, position),
            forall|j: int| 0 <= j < i ==> !seen_on(#[trigger] monitors@[j], size, position),
        decreases monitors@.len() - i,
    {
        let monitor = monitors[i];
        assert(!seen_on_any(monitors@.take(i as int), size, position));
        assert(seen_on_fits(monitors@[i as int], size, position));
        if position_intersects_monitor(
            position,
            size.width,
            size.height,
            monitor.x,
            monitor.y,
            monitor.width,
            monitor.height,
        ) {
            assert(seen_on(monitors@[i as int], size, position));
            return true;
        }
        i = i + 1;
    }
    false
}

/// Tells whether [`seen_on_fits`] holds.
fn check_seen_on(monitor: Monitor, size: WindowSize, position: SavedPosition) -> (is: bool)
    ensures
        is == seen_on_fits(monitor, size, position),
{
    let right: i64 = position.x as i64 + as_coordinate(size.width) as i64;
    let end_x: i64 = monitor.x as i64 + as_coordinate(monitor.width) as i64;
    let bottom: i64 = position.y as i64 + as_coordinate(size.height) as i64;
    let end_y: i64 = monitor.y as i64 + as_coordinate(monitor.height) as i64;
    if !fits(right) || !fits(end_x) || !fits(bottom) || !fits(end_y) {
        return false;
    }
    let across: i64 = min_of(right as i32, end_x as i32) as i64 - max_of(
        position.x,
        monitor.x,
    ) as i64;
    let down: i64 = min_of(bottom as i32, end_y as i32) as i64 - max_of(
        position.y,
        monitor.y,
    ) as i64;
    let some_width: i64 = if size.width < 180 {
        size.width as i64
    } else {
        180
    };
    let wanted: i64 = if some_width < 80 {
        80
    } else {
        some_width
    };
    fits(across) && (across < wanted || fits(down))
}

/// Tells whether [`is_visible_fits`] holds.
pub fn check_visible(window: &WindowReadings, position: SavedPosition) -> (is: bool)
    ensures
        is == is_visible_fits(*window, position),
{
    let size = match &window.size {
        Ok(size) => *size,
        Err(_) => {
            return true;
        },
    };
    let monitors = match &window.monitors {
        Ok(monitors) => monitors,
        Err(_) => {
            return true;
        },
    };
    let mut i: usize = 0;
    while i < monitors.len()
        invariant
            i <= monitors@.len(),
            window.size == Ok::<WindowSize, String>(size),
            window.monitors == Ok::<Vec<Monitor>, String>(*monitors),
            forall|j: int| 0 <= j < i ==> seen_on_fits(#[trigger] monitors@[j], size, position),
            forall|j: int| 0 <= j < i ==> !seen_on(#[trigger] monitors@[j], size, position),
        decreases monitors@.len() - i,
    {
        let monitor = monitors[i];
        if !check_seen_on(monitor, size, position) {
            assert(!seen_on_any(monitors@.take(i as int), size, position));
            assert(!seen_on_fits(monitors@[i as int], size, position));
            return false;
        }
        if position_intersects_monitor(
            position,
            size.width,
            size.height,
            monitor.x,
            monitor.y,
            monitor.width,
            monitor.height,
        ) {
            assert forall|k: int|
                0 <= k < monitors@.len() && !seen_on_any(
                    monitors@.take(k),
                    size,
                    position,
                ) implies seen_on_fits(#[trigger] monitors@[k], size, position) by {
                if i < k {
                    assert(seen_on(monitors@.take(k)[i as int], size, position));
                }
            }
            return true;
        }
        i = i + 1;
    }
    true
}

/// Half of what is left of a length; nothing where nothing is left.
pub open spec fn half_left(length: u32, used: u32) -> int {
    larger((coordinate(length) - coordinate(used)) / 2, 0)
}

/// The middle of a monitor, as the place of a window.
pub open spec fn middle(monitor: Monitor, size: WindowSize) -> SavedPosition {
    SavedPosition {
        x: (monitor.x + half_left(monitor.width, size.width)) as i32,
        y: (monitor.y + half_left(monitor.height, size.height)) as i32,
    }
}

/// Whether the middle, and what it is computed from, are coordinates.
pub open spec fn middle_fits(monitor: Monitor, size: WindowSize) -> bool {
    &&& is_coordinate(coordinate(monitor.width) - coordinate(size.width))
    &&& is_coordinate(coordinate(monitor.height) - coordinate(size.height))
    &&& is_coordinate(monitor.x + half_left(monitor.width, size.width))
    &&& is_coordinate(monitor.y + half_left(monitor.height, size.height))
}

/// Half of what is left of a length; nothing where nothing is left.
fn half_of_rest(length: u32, used: u32) -> (half: i32)
    requires
        is_coordinate(coordinate(length) - coordinate(used)),
    ensures
        half == half_left(length, used),
{
    let rest: i32 = as_coordinate(length) - as_coordinate(used);
    if rest > 0 {
        rest / 2
    } else {
        0
    }
}

/// Where the main window is put in the middle of the main monitor; nowhere
/// where the desktop gives no answer, and the window toolkit has to choose.
pub fn center_main_window(window: &WindowReadings) -> (place: Option<SavedPosition>)
    requires
        main_monitor_and_size(*window) matches Some((monitor, size)) ==> middle_fits(monitor, size),
    ensures
        place == (match main_monitor_and_size(*window) {
            Some((monitor, size)) => Some(middle(monitor, size)),
            None => None,
        }),
{
    let (monitor, size) = find_main_monitor_and_size(window)?;
    let x: i32 = monitor.x + half_of_rest(monitor.width, size.width);
    let y: i32 = monitor.y + half_of_rest(monitor.height, size.height);
    Some(SavedPosition { x, y })
}

/// Tells whether the middle of the main monitor fits.
pub fn check_middle(window: &WindowReadings) -> (is: bool)
    ensures
        is == (main_monitor_and_size(*window) matches Some((monitor, size)) ==> middle_fits(
            monitor,
            size,
        )),
{
    match find_main_monitor_and_size(window) {
        None => true,
        Some((monitor, size)) => {
            let across: i64 = as_coordinate(monitor.width) as i64 - as_coordinate(
                size.width,
            ) as i64;
            let down: i64 = as_coordinate(monitor.height) as i64 - as_coordinate(
                size.height,
            ) as i64;
            fits(across) && fits(down) && fits(
                monitor.x as i64 + half_of_rest(monitor.width, size.width) as i64,
            ) && fits(monitor.y as i64 + half_of_rest(monitor.height, size.height) as i64)
        },
    }
}

/// A window in the middle of a monitor is seen there, whenever the monitor has
/// room for the part of a window that has to be seen and the window is that
/// large itself.
pub proof fn centered_windows_are_seen(monitor: Monitor, size: WindowSize)
    requires
        middle_fits(monitor, size),
        smaller(size.width as int, monitor.width as int) >= visible_part(size.width, 180, 80),
        smaller(size.height as int, monitor.height as int) >= visible_part(size.height, 140, 70),
        size.width <= i32::MAX,
        size.height <= i32::MAX,
        monitor.width <= i32::MAX,
        monitor.height <= i32::MAX,
    ensures
        seen_on(monitor, size, middle(monitor, size)),
{
}

/// Whether a point is on a window.
pub open spec fn is_inside(cursor: SavedPosition, position: SavedPosition, size: WindowSize) -> bool {
    &&& position.x <= cursor.x < position.x + coordinate(size.width)
    &&& position.y <= cursor.y < position.y + coordinate(size.height)
}

/// Whether the ends of a window are coordinates, as far as they are looked at.
pub open spec fn is_inside_fits(
    cursor: SavedPosition,
    position: SavedPosition,
    size: WindowSize,
) -> bool {
    &&& position.x <= cursor.x ==> is_coordinate(position.x + coordinate(size.width))
    &&& position.x <= cursor.x < position.x + coordinate(size.width) && position.y <= cursor.y
        ==> is_coordinate(position.y + coordinate(size.height))
}

/// The place, the size and the pointer, where all three are known.
pub open spec fn place_size_and_pointer(
    window: WindowReadings,
    cursor: Option<SavedPosition>,
) -> Result<(SavedPosition, WindowSize, SavedPosition), Seq<char>> {
    match window.position {
        Err(message) => Err(message@),
        Ok(position) => match window.size {
            Err(message) => Err(message@),
            Ok(size) => match cursor {
                Some(cursor) => Ok((position, size, cursor)),
                None => Err("无法读取鼠标位置"@),
            },
        },
    }
}

/// Whether the pointer is on the window of the orb.
pub fn get_floating_orb_pointer_inside(
    window: &WindowReadings,
    cursor: Option<SavedPosition>,
) -> (inside: Result<bool, String>)
    requires
        place_size_and_pointer(*window, cursor) matches Ok((position, size, cursor))
            ==> is_inside_fits(cursor, position, size),
    ensures
        crate::text::outcome(inside) == (match place_size_and_pointer(*window, cursor) {
            Ok((position, size, cursor)) => Ok(is_inside(cursor, position, size)),
            Err(message) => Err(message),
        }),
{
    let position = match &window.position {
        Ok(position) => *position,
        Err(message) => {
            return Err(message.clone());
        },
    };
    let size = match &window.size {
        Ok(size) => *size,
        Err(message) => {
            return Err(message.clone());
        },
    };
    let cursor = match cursor {
        Some(cursor) => cursor,
        None => {
            return Err("无法读取鼠标位置".to_owned());
        },
    };
    Ok(
        cursor.x >= position.x && cursor.x < position.x + as_coordinate(size.width) && cursor.y
            >= position.y && cursor.y < position.y + as_coordinate(size.height),
    )
}

/// Tells whether the pointer can be compared with the window of the orb.
pub fn check_pointer(window: &WindowReadings, cursor: Option<SavedPosition>) -> (is: bool)
    ensures
        is == (place_size_and_pointer(*window, cursor) matches Ok((position, size, cursor))
            ==> is_inside_fits(cursor, position, size)),
{
    let position = match &window.position {
        Ok(position) => *position,
        Err(_) => {
            return true;
        },
    };
    let size = match &window.size {
        Ok(size) => *size,
        Err(_) => {
            return true;
        },
    };
    let cursor = match cursor {
        Some(cursor) => cursor,
        None => {
            return true;
        },
    };
    let end_x: i64 = position.x as i64 + as_coordinate(size.width) as i64;
    let end_y: i64 = position.y as i64 + as_coordinate(size.height) as i64;
    if cursor.x < position.x {
        return true;
    }
    if !fits(end_x) {
        return false;
    }
    cursor.x as i64 >= end_x || cursor.y < position.y || fits(end_y)
}

/// A window that moves to an edge stands 6 logical units off the edge of its own
/// monitor from which its middle is not further away, and goes up or down no
/// further than it takes to keep that distance there too. An answer that the
/// desktop does not give is reported in its place.
pub proof fn windows_snap_to_the_nearer_edge(
    window: WindowReadings,
    monitor: Monitor,
    position: SavedPosition,
    size: WindowSize,
)
    requires
        snapped_fits(window),
        window.own_monitor() == Ok::<Monitor, Seq<char>>(monitor),
    ensures
        window.position matches Err(message) ==> snapped(window) == Err::<
            (SavedPosition, Seq<char>),
            Seq<char>,
        >(message@),
        window.position is Ok && window.size is Err ==> snapped(window) == Err::<
            (SavedPosition, Seq<char>),
            Seq<char>,
        >(window.size->Err_0@),
        window.position == Ok::<SavedPosition, String>(position) && window.size == Ok::<
            WindowSize,
            String,
        >(size) && monitor.width <= i32::MAX && monitor.height <= i32::MAX && size.width <= i32::MAX
            && size.height <= i32::MAX ==> (snapped(window) matches Ok((place, side)) && {
            let gap = signed_pixels(6, monitor.scale, 0);
            let nearer_left = (position.x - monitor.x) + size.width as int / 2
                <= monitor.width as int / 2;
            &&& nearer_left ==> side == "left"@ && place.x == monitor.x + gap
            &&& !nearer_left ==> side == "right"@ && place.x + size.width + gap == monitor.x
                + monitor.width
            &&& place.y >= monitor.y + gap
            &&& size.height + 2 * gap <= monitor.height ==> place.y + size.height + gap
                <= monitor.y + monitor.height
            &&& monitor.y + gap <= position.y && position.y + size.height + gap <= monitor.y
                + monitor.height ==> place.y == position.y
        }),
{
    reveal_strlit("left");
    reveal_strlit("right");
    assert("left"@.len() != "right"@.len());
}

/// The main monitor and the size of a window are found where the desktop names
/// both, whatever monitor the window is on, and else neither.
pub proof fn the_main_monitor_is_the_one_that_is_named(
    window: WindowReadings,
    monitor: Monitor,
    size: WindowSize,
)
    ensures
        main_monitor_and_size(window) == Some((monitor, size)) <==> window.primary_monitor == Ok::<
            Option<Monitor>,
            String,
        >(Some(monitor)) && window.size == Ok::<WindowSize, String>(size),
{
}

/// A card in the corner ends 18 logical units before the right edge of the
/// monitor and begins as many below its upper edge.
pub proof fn cards_begin_in_the_upper_right_corner(monitor: Monitor, size: WindowSize)
    requires
        corner_fits(monitor, size),
        monitor.width <= i32::MAX,
        size.width <= i32::MAX,
    ensures
        ({
            let gap = signed_pixels(18, monitor.scale, 0);
            &&& corner(monitor, size).x + size.width + gap == monitor.x + monitor.width
            &&& corner(monitor, size).y == monitor.y + gap
        }),
{
}

/// A window in the middle leaves as much of the monitor free on its left as on
/// its right, or one pixel less, and as much above it as below it, or one pixel
/// less. A window that is too large begins at the edge of the monitor.
pub proof fn centered_windows_leave_the_same_on_both_sides(monitor: Monitor, size: WindowSize)
    requires
        middle_fits(monitor, size),
        monitor.width <= i32::MAX,
        monitor.height <= i32::MAX,
        size.width <= i32::MAX,
        size.height <= i32::MAX,
    ensures
        ({
            let place = middle(monitor, size);
            let left = place.x - monitor.x;
            let right = monitor.x + monitor.width - (place.x + size.width);
            let above = place.y - monitor.y;
            let below = monitor.y + monitor.height - (place.y + size.height);
            &&& size.width <= monitor.width ==> left <= right <= left + 1
            &&& size.width > monitor.width ==> left == 0
            &&& size.height <= monitor.height ==> above <= below <= above + 1
            &&& size.height > monitor.height ==> above == 0
        }),
{
}

/// A window that is visible at a position shares at least 80 columns and 70
/// rows there with one monitor of the list. Without a list, or where the size of
/// the window is not known, it is not visible.
pub proof fn visible_windows_share_a_part_with_a_monitor(
    window: WindowReadings,
    position: SavedPosition,
)
    requires
        is_visible(window, position),
    ensures
        window.monitors matches Ok(monitors) && window.size matches Ok(size) && exists|i: int|
            0 <= i < monitors@.len() && {
                let monitor = #[trigger] monitors@[i];
                &&& position.x + 80 <= monitor.x + monitor.width
                &&& monitor.x + 80 <= position.x + size.width
                &&& position.y + 70 <= monitor.y + monitor.height
                &&& monitor.y + 70 <= position.y + size.height
            },
{
    let monitors = window.monitors->Ok_0@;
    let size = window.size->Ok_0;
    let i = choose|i: int|
        0 <= i < monitors.len() && seen_on(#[trigger] monitors[i], size, position);
    crate::placement::windows_beside_a_monitor_are_not_seen_on_it(
        position,
        size.width,
        size.height,
        monitors[i].x as int,
        monitors[i].y as int,
        monitors[i].width,
        monitors[i].height,
        80,
        70,
    );
}

/// A window is visible at a position if some monitor of the list holds all of
/// it there, and the window is at least 80 wide and 70 high; and if some monitor
/// holds 180 columns and 140 rows of it from its upper left corner on.
pub proof fn windows_on_a_monitor_are_visible(
    window: WindowReadings,
    position: SavedPosition,
    monitors: Vec<Monitor>,
    size: WindowSize,
    i: int,
    columns: int,
    rows: int,
)
    requires
        window.monitors == Ok::<Vec<Monitor>, String>(monitors),
        window.size == Ok::<WindowSize, String>(size),
        0 <= i < monitors@.len(),
        monitors@[i].width <= i32::MAX,
        monitors@[i].height <= i32::MAX,
        80 <= columns <= size.width <= i32::MAX,
        70 <= rows <= size.height <= i32::MAX,
        columns >= 180 || columns == size.width,
        rows >= 140 || rows == size.height,
        monitors@[i].x <= position.x,
        position.x + columns <= monitors@[i].x + monitors@[i].width,
        monitors@[i].y <= position.y,
        position.y + rows <= monitors@[i].y + monitors@[i].height,
    ensures
        is_visible(window, position),
{
    assert(seen_on(monitors@[i], size, position));
}

/// The pointer is on a window exactly where it is neither to its left nor above
/// it, and fewer pixels from its upper left corner than it is wide and high.
pub proof fn pointers_are_inside_a_rectangle(
    cursor: SavedPosition,
    position: SavedPosition,
    size: WindowSize,
)
    requires
        size.width <= i32::MAX,
        size.height <= i32::MAX,
    ensures
        is_inside(cursor, position, size) <==> 0 <= cursor.x - position.x < size.width && 0
            <= cursor.y - position.y < size.height,
{
}

/// The place of the window, its size and the pointer are all needed; the first
/// of them that is missing is reported.
pub proof fn pointers_need_a_window(
    window: WindowReadings,
    cursor: Option<SavedPosition>,
    position: SavedPosition,
    size: WindowSize,
    point: SavedPosition,
)
    ensures
        place_size_and_pointer(window, cursor) == Ok::<
            (SavedPosition, WindowSize, SavedPosition),
            Seq<char>,
        >((position, size, point)) <==> window.position == Ok::<SavedPosition, String>(position)
            && window.size == Ok::<WindowSize, String>(size) && cursor == Some(point),
        place_size_and_pointer(window, cursor) matches Err(message) ==> {
            ||| window.position matches Err(words) && message == words@
            ||| window.position is Ok && (window.size matches Err(words) && message == words@)
            ||| window.position is Ok && window.size is Ok && message == "无法读取鼠标位置"@
        },
{
}

/// A window of an ordinary size finds its place on an ordinary monitor: at an
/// edge, in the corner and in the middle, and it can be said whether it is seen
/// there and whether the pointer is on it.
pub proof fn windows_fit_on_ordinary_monitors(
    monitor: Monitor,
    size: WindowSize,
    position: SavedPosition,
    cursor: SavedPosition,
    side: Seq<char>,
)
    requires
        monitor.is_ordinary(),
        0 <= signed_pixels(18, monitor.scale, 0) <= 0x1_0000,
        size.width <= 0x100_0000,
        size.height <= 0x100_0000,
        is_ordinary_position(position),
    ensures
        beside_edge_fits(monitor, size, side),
        vertical_places_fit(size.height, monitor.y as int, monitor.height, monitor.margin()),
        corner_fits(monitor, size),
        middle_fits(monitor, size),
        seen_on_fits(monitor, size, position),
        is_inside_fits(cursor, position, size),
{
}

} // verus!
