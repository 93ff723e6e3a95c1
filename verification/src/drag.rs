//! Dragging the orb: the window follows the pointer, and comes to rest on a
//! monitor or at its edge.

use vstd::prelude::*;

use crate::orb::{
    anchor_fits, anchor_side, check_edge_anchor, check_near_edge, check_vertical_places,
    check_window_anchor, distance, edge_anchor, edge_anchor_fits, edge_place, fits,
    found_monitors_are_known, is_ordinary_position, monitor_for_orb_anchor,
    orb_anchor_from_window, orb_edge_anchor, orb_is_near_edge, orb_layout_side_for_anchor,
    orbs_are_found_on_ordinary_monitors, window_anchor, window_anchor_fits, window_is_at_edge,
    window_is_at_edge_fits, Monitor, WindowReadings,
};
use crate::pixels::signed_pixels;
use crate::placement::{
    as_coordinate, between, clamp_vertical, coordinate, is_coordinate, vertical_place,
    vertical_places_fit, SavedPosition, FLOATING_ORB_SIZE,
};
use crate::text::outcome;

verus! {

/// The anchor from which the orb is dragged: that of its window as it stands,
/// or else its last place.
pub open spec fn drag_start(
    window: WindowReadings,
    direction: Seq<char>,
    saved: Option<SavedPosition>,
) -> Result<SavedPosition, Seq<char>> {
    match window.position {
        Err(message) => Err(message@),
        Ok(position) => match window_anchor(window, direction, saved, position) {
            Some(anchor) => Ok(anchor),
            None => match saved {
                Some(anchor) => Ok(anchor),
                None => Err("无法计算悬浮球位置"@),
            },
        },
    }
}

/// The anchor around which the orb's window is laid out: its last place, or
/// else that of its window as it stands.
pub open spec fn display_anchor(
    window: WindowReadings,
    direction: Seq<char>,
    saved: Option<SavedPosition>,
) -> Result<SavedPosition, Seq<char>> {
    match saved {
        Some(anchor) => Ok(anchor),
        None => drag_start(window, direction, None),
    }
}

/// Whether everything that [`drag_start`] is computed from fits.
pub open spec fn drag_start_fits(
    window: WindowReadings,
    direction: Seq<char>,
    saved: Option<SavedPosition>,
) -> bool {
    window.position matches Ok(position) ==> window_anchor_fits(window, direction, saved, position)
}

/// The anchor from which the orb is dragged.
pub fn orb_drag_start(
    window: &WindowReadings,
    direction: &str,
    saved_anchor: Option<SavedPosition>,
) -> (anchor: Result<SavedPosition, String>)
    requires
        drag_start_fits(*window, direction@, saved_anchor),
    ensures
        outcome(anchor) == drag_start(*window, direction@, saved_anchor),
{
    let position = match &window.position {
        Ok(position) => *position,
        Err(message) => {
            return Err(message.clone());
        },
    };
    match orb_anchor_from_window(window, direction, saved_anchor, position) {
        Some(anchor) => Ok(anchor),
        None => match saved_anchor {
            Some(anchor) => Ok(anchor),
            None => Err("无法计算悬浮球位置".to_owned()),
        },
    }
}

/// The anchor around which the orb's window is laid out.
pub fn orb_display_anchor(
    window: &WindowReadings,
    direction: &str,
    saved_anchor: Option<SavedPosition>,
) -> (anchor: Result<SavedPosition, String>)
    requires
        saved_anchor is None ==> drag_start_fits(*window, direction@, None),
    ensures
        outcome(anchor) == display_anchor(*window, direction@, saved_anchor),
{
    match saved_anchor {
        Some(anchor) => Ok(anchor),
        None => orb_drag_start(window, direction, None),
    }
}

/// Tells whether [`drag_start_fits`] holds.
pub fn check_drag_start(
    window: &WindowReadings,
    direction: &str,
    saved_anchor: Option<SavedPosition>,
) -> (is: bool)
    ensures
        is == drag_start_fits(*window, direction@, saved_anchor),
{
    match &window.position {
        Ok(position) => check_window_anchor(window, direction, saved_anchor, *position),
        Err(_) => true,
    }
}

/// A drag of the orb.
#[derive(Debug, Clone, Copy, PartialEq, Eq, Structural)]
pub struct OrbDrag {
    /// Where the pointer was at first.
    pub cursor_start: SavedPosition,
    /// Where the window was at first.
    pub window_start: SavedPosition,
    /// Whether the pointer was ever more than one pixel away from there.
    pub moved: bool,
}

impl OrbDrag {
    /// Whether the pointer is more than one pixel away from where it was at
    /// first.
    pub open spec fn is_away(self, cursor: SavedPosition) -> bool {
        distance(cursor.x as int, self.cursor_start.x as int) > 1 || distance(
            cursor.y as int,
            self.cursor_start.y as int,
        ) > 1
    }

    /// Whether the pointer's way and the window's new place are coordinates,
    /// and so are the lengths of the way that are looked at.
    pub open spec fn fits(self, cursor: SavedPosition) -> bool {
        let across = cursor.x - self.cursor_start.x;
        let down = cursor.y - self.cursor_start.y;
        &&& i32::MIN < across <= i32::MAX
        &&& is_coordinate(down)
        &&& -1 <= across <= 1 ==> i32::MIN < down
        &&& is_coordinate(self.window_start.x + across)
        &&& is_coordinate(self.window_start.y + down)
    }

    /// A drag that begins.
    pub fn new(cursor_start: SavedPosition, window_start: SavedPosition) -> (drag: Self)
        ensures
            drag == (OrbDrag { cursor_start, window_start, moved: false }),
    {
        OrbDrag { cursor_start, window_start, moved: false }
    }

    /// Follows the pointer. Returns where the window goes: as far from its
    /// first place as the pointer is from its own.
    pub fn follow(&mut self, cursor: SavedPosition) -> (place: SavedPosition)
        requires
            old(self).fits(cursor),
        ensures
            place.x == old(self).window_start.x + cursor.x - old(self).cursor_start.x,
            place.y == old(self).window_start.y + cursor.y - old(self).cursor_start.y,
            *final(self) == (OrbDrag {
                moved: old(self).moved || old(self).is_away(cursor),
                ..*old(self)
            }),
            -1 <= cursor.x - old(self).cursor_start.x <= 1 && -1 <= cursor.y - old(
                self,
            ).cursor_start.y <= 1 ==> final(self).moved == old(self).moved,
            !(-1 <= cursor.x - old(self).cursor_start.x <= 1) || !(-1 <= cursor.y - old(
                self,
            ).cursor_start.y <= 1) ==> final(self).moved,
    {
        let delta_x: i32 = cursor.x - self.cursor_start.x;
        let delta_y: i32 = cursor.y - self.cursor_start.y;
        if delta_x < -1 || delta_x > 1 || delta_y < -1 || delta_y > 1 {
            self.moved = true;
        }
        SavedPosition { x: self.window_start.x + delta_x, y: self.window_start.y + delta_y }
    }

    /// Tells whether [`Self::fits`] holds.
    pub fn check(&self, cursor: SavedPosition) -> (is: bool)
        ensures
            is == self.fits(cursor),
    {
        let across: i64 = cursor.x as i64 - self.cursor_start.x as i64;
        let down: i64 = cursor.y as i64 - self.cursor_start.y as i64;
        -0x8000_0000 < across && across <= 0x7fff_ffff && fits(down) && (across < -1 || across > 1
            || -0x8000_0000 < down) && fits(self.window_start.x as i64 + across) && fits(
            self.window_start.y as i64 + down,
        )
    }
}

/// The leftmost place of the folded window on a monitor.
pub open spec fn leftmost(monitor: Monitor) -> int {
    monitor.x + monitor.margin()
}

/// The rightmost place of the folded window on a monitor.
pub open spec fn rightmost(monitor: Monitor) -> int {
    monitor.x + coordinate(monitor.width) - monitor.orb_size() - monitor.margin()
}

/// The height of the folded window on a monitor.
pub open spec fn orb_height(monitor: Monitor) -> u32 {
    (monitor.orb_size() as i32) as u32
}

/// The place on a monitor that is nearest to a position.
pub open spec fn place_on(monitor: Monitor, position: SavedPosition) -> SavedPosition {
    SavedPosition {
        x: between(position.x as int, leftmost(monitor), rightmost(monitor)) as i32,
        y: vertical_place(
            position.y as int,
            orb_height(monitor),
            monitor.y as int,
            monitor.height,
            monitor.margin(),
        ) as i32,
    }
}

/// Whether a monitor has a place for the folded window, and everything that
/// [`place_on`] is computed from fits.
pub open spec fn place_on_fits(monitor: Monitor) -> bool {
    &&& is_coordinate(leftmost(monitor))
    &&& is_coordinate(monitor.x + coordinate(monitor.width))
    &&& is_coordinate(monitor.x + coordinate(monitor.width) - monitor.orb_size())
    &&& is_coordinate(rightmost(monitor))
    &&& leftmost(monitor) <= rightmost(monitor)
    &&& vertical_places_fit(
        orb_height(monitor),
        monitor.y as int,
        monitor.height,
        monitor.margin(),
    )
}

/// Where the orb comes to rest: on the monitor that holds it; where it is, if
/// the desktop names none.
pub open spec fn resting_place(window: WindowReadings, position: SavedPosition) -> SavedPosition {
    match window.orb_monitor(position) {
        Ok(monitor) => place_on(monitor, position),
        Err(_) => position,
    }
}

/// Whether everything that [`resting_place`] is computed from fits.
pub open spec fn resting_place_fits(window: WindowReadings, position: SavedPosition) -> bool {
    &&& window.search_fits(position)
    &&& window.orb_monitor(position) matches Ok(monitor) ==> place_on_fits(monitor)
}

/// Where the orb comes to rest after a drag.
pub fn settle_orb(window: &WindowReadings, position: SavedPosition) -> (place: SavedPosition)
    requires
        resting_place_fits(*window, position),
    ensures
        place == resting_place(*window, position),
{
    match monitor_for_orb_anchor(window, position) {
        Ok(monitor) => {
            let margin: i32 = monitor.get_margin();
            let size: i32 = monitor.scale.scaled(FLOATING_ORB_SIZE);
            let leftmost: i32 = monitor.x + margin;
            let rightmost: i32 = monitor.x + as_coordinate(monitor.width) - size - margin;
            let x: i32 = if position.x < leftmost {
                leftmost
            } else if position.x > rightmost {
                rightmost
            } else {
                position.x
            };
            let y: i32 = clamp_vertical(
                position.y,
                length_of(size),
                monitor.y,
                monitor.height,
                margin,
            );
            SavedPosition { x, y }
        },
        Err(_) => position,
    }
}

/// A coordinate as a length: the same 32 bits read without a sign.
fn length_of(n: i32) -> (length: u32)
    ensures
        length == n as u32,
{
    #[verifier::truncate]
    (n as u32)
}

/// Tells whether [`resting_place_fits`] holds.
pub fn check_settle(window: &WindowReadings, position: SavedPosition) -> (is: bool)
    ensures
        is == resting_place_fits(*window, position),
{
    if !window.check_search(position) {
        return false;
    }
    match monitor_for_orb_anchor(window, position) {
        Ok(monitor) => {
            let margin: i32 = monitor.get_margin();
            let size: i32 = monitor.scale.scaled(FLOATING_ORB_SIZE);
            let leftmost: i64 = monitor.x as i64 + margin as i64;
            let end: i64 = monitor.x as i64 + as_coordinate(monitor.width) as i64;
            let rightmost: i64 = end - size as i64 - margin as i64;
            fits(leftmost) && fits(end) && fits(end - size as i64) && fits(rightmost) && leftmost
                <= rightmost && check_vertical_places(
                length_of(size),
                monitor.y,
                monitor.height,
                margin,
            )
        },
        Err(_) => true,
    }
}

/// An orb that came to rest on a monitor stands between the margins of its
/// left and right edges and below that of its upper edge, and above that of its
/// lower edge where the monitor is high enough; it rests where it is from then
/// on.
pub proof fn resting_orbs_stand_on_the_monitor(monitor: Monitor, position: SavedPosition)
    requires
        place_on_fits(monitor),
    ensures
        leftmost(monitor) <= place_on(monitor, position).x <= rightmost(monitor),
        monitor.y + monitor.margin() <= place_on(monitor, position).y,
        ({
            let lowest = monitor.y + coordinate(monitor.height) - coordinate(orb_height(monitor))
                - monitor.margin();
            monitor.y + monitor.margin() <= lowest ==> place_on(monitor, position).y <= lowest
        }),
        place_on(monitor, place_on(monitor, position)) == place_on(monitor, position),
{
}

/// How a drag ends.
#[derive(Debug, Clone, Copy, PartialEq, Eq, Structural)]
pub struct DragRelease {
    /// Whether the orb sticks to an edge.
    pub at_edge: bool,
    /// Where the orb is in the end.
    pub anchor: SavedPosition,
    /// Whether it moved there from where it came to rest, and its window has to
    /// be laid out anew.
    pub snapped: bool,
}

/// How a drag ends for an orb that came to rest at `position`: near an edge it
/// moves to the edge.
pub open spec fn release(
    window: WindowReadings,
    direction: Seq<char>,
    previous: Option<SavedPosition>,
    position: SavedPosition,
) -> DragRelease {
    if window_is_at_edge(window, direction, previous, position) == Ok::<bool, Seq<char>>(true) {
        match edge_anchor(window, direction, previous, position) {
            Some((anchor, _)) => DragRelease { at_edge: true, anchor, snapped: true },
            None => DragRelease { at_edge: true, anchor: position, snapped: false },
        }
    } else {
        DragRelease { at_edge: false, anchor: position, snapped: false }
    }
}

/// Whether everything that [`release`] is computed from fits.
pub open spec fn release_fits(
    window: WindowReadings,
    direction: Seq<char>,
    previous: Option<SavedPosition>,
    position: SavedPosition,
) -> bool {
    &&& window_is_at_edge_fits(window, direction, previous, position)
    &&& window_is_at_edge(window, direction, previous, position) == Ok::<bool, Seq<char>>(true)
        ==> edge_anchor_fits(window, direction, previous, position)
}

/// How a drag ends for an orb that came to rest at `position`.
pub fn release_orb(
    window: &WindowReadings,
    direction: &str,
    previous_anchor: Option<SavedPosition>,
    position: SavedPosition,
) -> (end: DragRelease)
    requires
        release_fits(*window, direction@, previous_anchor, position),
    ensures
        end == release(*window, direction@, previous_anchor, position),
{
    let at_edge = match orb_is_near_edge(window, direction, previous_anchor, position) {
        Ok(near) => near,
        Err(_) => false,
    };
    if !at_edge {
        return DragRelease { at_edge: false, anchor: position, snapped: false };
    }
    match orb_edge_anchor(window, direction, previous_anchor, position) {
        Some((anchor, _)) => DragRelease { at_edge: true, anchor, snapped: true },
        None => DragRelease { at_edge: true, anchor: position, snapped: false },
    }
}

/// An orb that is released near an edge of its monitor moves to the nearer edge
/// and sticks to it there; one that is released elsewhere stays where it is.
pub proof fn orbs_released_near_an_edge_move_to_it(
    window: WindowReadings,
    direction: Seq<char>,
    previous: Option<SavedPosition>,
    position: SavedPosition,
    anchor: SavedPosition,
    monitor: Monitor,
)
    requires
        release_fits(window, direction, previous, position),
        window_anchor(window, direction, previous, position) == Some(anchor),
        window.orb_monitor(anchor) == Ok::<Monitor, Seq<char>>(monitor),
    ensures
        ({
            let near = monitor.is_near_left(anchor.x as int) || monitor.is_near_right(
                anchor.x as int,
            );
            let end = release(window, direction, previous, position);
            &&& end.at_edge == near
            &&& end.snapped == near
            &&& near ==> end.anchor == edge_place(monitor, anchor)
            &&& near ==> monitor.is_near_left(end.anchor.x as int) || monitor.is_near_right(
                end.anchor.x as int,
            )
            &&& !near ==> end.anchor == position
        }),
{
    if monitor.is_near_left(anchor.x as int) || monitor.is_near_right(anchor.x as int) {
        crate::orb::an_orb_at_an_edge_sticks_to_it(monitor, anchor);
    }
}

/// Tells whether [`release_fits`] holds.
pub fn check_release(
    window: &WindowReadings,
    direction: &str,
    previous_anchor: Option<SavedPosition>,
    position: SavedPosition,
) -> (is: bool)
    ensures
        is == release_fits(*window, direction@, previous_anchor, position),
{
    if !check_near_edge(window, direction, previous_anchor, position) {
        return false;
    }
    match orb_is_near_edge(window, direction, previous_anchor, position) {
        Ok(true) => check_edge_anchor(window, direction, previous_anchor, position),
        _ => true,
    }
}

/// What is told of a drag when it is over.
#[derive(Debug)]
pub struct OrbDragResult {
    /// Whether the orb was moved at all.
    pub moved: bool,
    /// Whether it sticks to an edge.
    pub at_edge: bool,
    /// The side of its window on which it stands.
    pub side: String,
}

/// What is told of a drag when it is over. The side is the right one where the
/// desktop gives no answer.
pub fn drag_result(
    window: &WindowReadings,
    direction: &str,
    moved: bool,
    end: DragRelease,
) -> (result: OrbDragResult)
    requires
        anchor_fits(*window, end.anchor),
    ensures
        result.moved == moved,
        result.at_edge == end.at_edge,
        result.side@ == (match anchor_side(*window, direction@, end.anchor) {
            Ok(side) => side,
            Err(_) => "right"@,
        }),
{
    let side = match orb_layout_side_for_anchor(window, direction, end.anchor) {
        Ok(side) => side,
        Err(_) => "right",
    };
    OrbDragResult { moved, at_edge: end.at_edge, side: side.to_owned() }
}

/// What is told of a drag where the desktop does not say where it ended.
pub fn drag_result_without_place(moved: bool) -> (result: OrbDragResult)
    ensures
        result.moved == moved,
        !result.at_edge,
        result.side@ == "right"@,
{
    OrbDragResult { moved, at_edge: false, side: "right".to_owned() }
}

/// An orb that is dropped on a monitor stays exactly where it is, if it keeps
/// 6 logical units off all four edges there. Otherwise it moves to the place
/// that keeps them and is nearest to where it was, across and down. An orb for
/// which the desktop names no monitor stays where it is.
pub proof fn orbs_rest_where_they_are_dropped(
    window: WindowReadings,
    position: SavedPosition,
    monitor: Monitor,
    other_x: int,
    other_y: int,
)
    requires
        resting_place_fits(window, position),
        monitor.width <= i32::MAX,
        monitor.height <= i32::MAX,
        signed_pixels(68, monitor.scale, 0) >= 0,
    ensures
        window.orb_monitor(position) is Err ==> resting_place(window, position) == position,
        window.orb_monitor(position) == Ok::<Monitor, Seq<char>>(monitor) ==> {
            let gap = signed_pixels(6, monitor.scale, 0);
            let size = signed_pixels(68, monitor.scale, 0);
            let place = resting_place(window, position);
            let holds_x = |x: int|
                monitor.x + gap <= x && x + size + gap <= monitor.x + monitor.width;
            let holds_y = |y: int|
                monitor.y + gap <= y && y + size + gap <= monitor.y + monitor.height;
            &&& holds_x(place.x as int)
            &&& place.y >= monitor.y + gap
            &&& size + 2 * gap <= monitor.height ==> holds_y(place.y as int)
            &&& holds_x(position.x as int) ==> place.x == position.x
            &&& holds_y(position.y as int) ==> place.y == position.y
            &&& holds_x(other_x) ==> distance(position.x as int, place.x as int) <= distance(
                position.x as int,
                other_x,
            )
            &&& holds_y(other_y) ==> distance(position.y as int, place.y as int) <= distance(
                position.y as int,
                other_y,
            )
        },
{
}

/// A drag begins at the anchor that the window shows, even where another one is
/// remembered; the remembered one counts where the window shows none. A window
/// is laid out around the remembered anchor, and around the one that the window
/// shows where none is remembered.
pub proof fn drags_begin_where_the_orb_is_seen(
    window: WindowReadings,
    direction: Seq<char>,
    saved: Option<SavedPosition>,
    position: SavedPosition,
    anchor: SavedPosition,
)
    requires
        window.position == Ok::<SavedPosition, String>(position),
    ensures
        window_anchor(window, direction, saved, position) == Some(anchor) ==> drag_start(
            window,
            direction,
            saved,
        ) == Ok::<SavedPosition, Seq<char>>(anchor),
        window_anchor(window, direction, saved, position) is None && saved == Some(anchor)
            ==> drag_start(window, direction, saved) == Ok::<SavedPosition, Seq<char>>(anchor),
        window_anchor(window, direction, saved, position) is None && saved is None ==> drag_start(
            window,
            direction,
            saved,
        ) == Err::<SavedPosition, Seq<char>>("无法计算悬浮球位置"@),
        display_anchor(window, direction, Some(anchor)) == Ok::<SavedPosition, Seq<char>>(anchor),
        window_anchor(window, direction, None, position) == Some(anchor) ==> display_anchor(
            window,
            direction,
            None,
        ) == Ok::<SavedPosition, Seq<char>>(anchor),
{
}

/// Where the desktop does not say where the window is, there is no anchor to
/// begin a drag at, and the desktop's words are passed on.
pub proof fn drags_need_the_place_of_the_window(
    window: WindowReadings,
    direction: Seq<char>,
    saved: Option<SavedPosition>,
    message: String,
)
    requires
        window.position == Err::<SavedPosition, String>(message),
    ensures
        drag_start(window, direction, saved) == Err::<SavedPosition, Seq<char>>(message@),
        saved is None ==> display_anchor(window, direction, saved) == Err::<
            SavedPosition,
            Seq<char>,
        >(message@),
{
}

/// An orb stays where it came to rest, and is not at an edge, where the desktop
/// does not say whether it is near one.
pub proof fn orbs_without_a_monitor_stay(
    window: WindowReadings,
    direction: Seq<char>,
    previous: Option<SavedPosition>,
    position: SavedPosition,
)
    requires
        match window_anchor(window, direction, previous, position) {
            None => true,
            Some(anchor) => window.orb_monitor(anchor) is Err,
        },
    ensures
        ({
            let end = release(window, direction, previous, position);
            !end.at_edge && !end.snapped && end.anchor == position
        }),
{
}

/// An orb that is dropped at an ordinary position on ordinary monitors comes to
/// rest.
pub proof fn orbs_come_to_rest_on_ordinary_monitors(
    window: WindowReadings,
    monitors: Vec<Monitor>,
    position: SavedPosition,
)
    requires
        window.monitors == Ok::<Vec<Monitor>, String>(monitors),
        forall|i: int| 0 <= i < monitors@.len() ==> (#[trigger] monitors@[i]).is_ordinary(),
        window.own_monitor() matches Ok(own) ==> own.is_ordinary(),
        is_ordinary_position(position),
    ensures
        resting_place_fits(window, position),
{
    orbs_are_found_on_ordinary_monitors(window, monitors, position);
    if let Ok(monitor) = window.orb_monitor(position) {
        found_monitors_are_known(window, monitors, position);
        assert(monitor.is_ordinary());
        assert(orb_height(monitor) == monitor.orb_size());
        assert(place_on_fits(monitor));
    }
}

/// A drag over ordinary distances can be followed.
pub proof fn ordinary_drags_can_be_followed(drag: OrbDrag, cursor: SavedPosition)
    requires
        is_ordinary_position(drag.cursor_start),
        is_ordinary_position(drag.window_start),
        is_ordinary_position(cursor),
    ensures
        drag.fits(cursor),
{
}

/// A pointer that is at most one pixel off in each direction is not away from
/// where a drag began, and any other is, wherever on the desktop that was.
pub proof fn pointers_are_away_from_two_pixels_on(drag: OrbDrag, across: int, down: int)
    requires
        is_coordinate(drag.cursor_start.x + across),
        is_coordinate(drag.cursor_start.y + down),
    ensures
        drag.is_away(
            SavedPosition {
                x: (drag.cursor_start.x + across) as i32,
                y: (drag.cursor_start.y + down) as i32,
            },
        ) <==> across <= -2 || 2 <= across || down <= -2 || 2 <= down,
{
}

} // verus!
