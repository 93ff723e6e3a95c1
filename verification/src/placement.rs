//! Where windows stand on a monitor.

use vstd::prelude::*;

use crate::text::same_text;

verus! {

/// The position of a window's upper left corner, in pixels.
#[derive(Debug, Clone, Copy, PartialEq, Eq, Structural)]
pub struct SavedPosition {
    /// The distance from the left.
    pub x: i32,
    /// The distance from the top.
    pub y: i32,
}

/// The size of a window in logical units.
#[derive(Debug, Clone, Copy, PartialEq, Eq, Structural)]
pub struct LogicalSize {
    /// The width.
    pub width: u32,
    /// The height.
    pub height: u32,
}

/// The width of the card.
pub const FLOATING_CARD_WIDTH: u32 = 276;

/// The height of the card.
pub const FLOATING_CARD_HEIGHT: u32 = 150;

/// The width and height of the folded orb.
pub const FLOATING_ORB_SIZE: u32 = 68;

/// The width of the unfolded orb.
pub const FLOATING_ORB_HOVER_WIDTH: u32 = 230;

/// The height of the unfolded orb.
pub const FLOATING_ORB_HOVER_HEIGHT: u32 = 68;

/// Whether a number is a coordinate of 32 bits.
pub open spec fn is_coordinate(n: int) -> bool {
    i32::MIN <= n <= i32::MAX
}

/// A length as a coordinate: the length itself below two to the power of 31,
/// and the same 32 bits read with a sign from there on.
pub open spec fn coordinate(length: u32) -> int {
    (length as i32) as int
}

/// A length as a coordinate.
pub fn as_coordinate(length: u32) -> (n: i32)
    ensures
        n == coordinate(length),
{
    #[verifier::truncate]
    (length as i32)
}

/// The larger of two numbers.
pub open spec fn larger(a: int, b: int) -> int {
    if a < b {
        b
    } else {
        a
    }
}

/// The smaller of two numbers.
pub open spec fn smaller(a: int, b: int) -> int {
    if b < a {
        b
    } else {
        a
    }
}

/// The number between two limits that is nearest to `n`.
pub open spec fn between(n: int, lowest: int, highest: int) -> int {
    if n < lowest {
        lowest
    } else if n > highest {
        highest
    } else {
        n
    }
}

/// The size of the floating window: the card's, or the orb's where that is the
/// style, folded or not.
pub open spec fn logical_size(style: Seq<char>, expanded: bool) -> LogicalSize {
    if style == "orb"@ && expanded {
        LogicalSize { width: 230, height: 68 }
    } else if style == "orb"@ {
        LogicalSize { width: 68, height: 68 }
    } else {
        LogicalSize { width: 276, height: 150 }
    }
}

/// The size of the floating window in logical units.
pub fn floating_logical_size(style: &str, expanded: bool) -> (size: LogicalSize)
    ensures
        size == logical_size(style@, expanded),
        style@ != "orb"@ ==> size.width == FLOATING_CARD_WIDTH && size.height
            == FLOATING_CARD_HEIGHT,
        style@ == "orb"@ && expanded ==> size.width == FLOATING_ORB_HOVER_WIDTH && size.height
            == FLOATING_ORB_HOVER_HEIGHT,
        style@ == "orb"@ && !expanded ==> size.width == FLOATING_ORB_SIZE && size.height
            == FLOATING_ORB_SIZE,
{
    if same_text(style, "orb") {
        if expanded {
            LogicalSize { width: FLOATING_ORB_HOVER_WIDTH, height: FLOATING_ORB_HOVER_HEIGHT }
        } else {
            LogicalSize { width: FLOATING_ORB_SIZE, height: FLOATING_ORB_SIZE }
        }
    } else {
        LogicalSize { width: FLOATING_CARD_WIDTH, height: FLOATING_CARD_HEIGHT }
    }
}

/// A card is 276 wide and 150 high, and unfolding changes nothing of it. A
/// folded orb is a square of 68; unfolding makes it 230 wide and no higher.
pub proof fn styles_have_their_sizes(style: Seq<char>, expanded: bool)
    ensures
        style != "orb"@ ==> logical_size(style, expanded).width == 276,
        style != "orb"@ ==> logical_size(style, expanded).height == 150,
        style != "orb"@ ==> logical_size(style, true) == logical_size(style, false),
        logical_size("orb"@, false).width == logical_size("orb"@, false).height,
        logical_size("orb"@, expanded).height == 68,
        logical_size("orb"@, true).width == 230,
        FLOATING_CARD_WIDTH == 276,
        FLOATING_CARD_HEIGHT == 150,
        FLOATING_ORB_SIZE == 68,
        FLOATING_ORB_HOVER_WIDTH == 230,
        FLOATING_ORB_HOVER_HEIGHT == 68,
{
}

/// The edge of the monitor that is nearer to a window: the left one where the
/// window's middle is not to the right of the monitor's.
pub open spec fn nearer_edge(
    position_x: int,
    window_width: int,
    monitor_left: int,
    monitor_width: int,
) -> Seq<char> {
    if position_x + window_width / 2 <= monitor_left + monitor_width / 2 {
        "left"@
    } else {
        "right"@
    }
}

/// The edge of the monitor that is nearer to a window.
pub fn edge_side(position_x: i32, window_width: u32, monitor_left: i32, monitor_width: u32) -> (side:
    &'static str)
    ensures
        side@ == nearer_edge(
            position_x as int,
            window_width as int,
            monitor_left as int,
            monitor_width as int,
        ),
{
    let window_center: i64 = position_x as i64 + (window_width / 2) as i64;
    let monitor_center: i64 = monitor_left as i64 + (monitor_width / 2) as i64;
    if window_center <= monitor_center {
        "left"
    } else {
        "right"
    }
}

/// The nearer edge goes by the distance between the window and the monitor: it
/// is the left one exactly where the window's middle is no further from the
/// monitor's left edge than half the monitor's width. So it stays the same
/// where both are moved by the same distance, and where a window at the left
/// moves further to the left.
pub proof fn the_nearer_edge_moves_with_the_monitor(
    position_x: int,
    window_width: u32,
    monitor_left: int,
    monitor_width: u32,
    shift: int,
)
    ensures
        ({
            let side = nearer_edge(
                position_x,
                window_width as int,
                monitor_left,
                monitor_width as int,
            );
            &&& side == "left"@ <==> (position_x - monitor_left) + window_width / 2
                <= monitor_width / 2
            &&& side == "left"@ || side == "right"@
            &&& side == nearer_edge(
                position_x + shift,
                window_width as int,
                monitor_left + shift,
                monitor_width as int,
            )
            &&& shift <= 0 && side == "left"@ ==> nearer_edge(
                position_x + shift,
                window_width as int,
                monitor_left,
                monitor_width as int,
            ) == "left"@
        }),
{
    reveal_strlit("left");
    reveal_strlit("right");
    assert("left"@.len() != "right"@.len());
}

/// A window that begins at the monitor's left edge is nearer to that edge, and
/// one that ends at its right edge is nearer to the right one, if they leave
/// some of the monitor free.
pub proof fn windows_at_an_edge_are_nearer_to_it(
    window_width: u32,
    monitor_left: int,
    monitor_width: u32,
)
    requires
        window_width + 2 <= monitor_width,
    ensures
        nearer_edge(monitor_left, window_width as int, monitor_left, monitor_width as int)
            == "left"@,
        nearer_edge(
            monitor_left + monitor_width - window_width,
            window_width as int,
            monitor_left,
            monitor_width as int,
        ) == "right"@,
{
}

/// The highest place on a monitor for a window.
pub open spec fn highest_place(monitor_top: int, margin: int) -> int {
    monitor_top + margin
}

/// The lowest place on a monitor for a window.
pub open spec fn lowest_place(
    height: u32,
    monitor_top: int,
    monitor_height: u32,
    margin: int,
) -> int {
    monitor_top + coordinate(monitor_height) - coordinate(height) - margin
}

/// Whether both places, and what they are computed from, are coordinates.
pub open spec fn vertical_places_fit(
    height: u32,
    monitor_top: int,
    monitor_height: u32,
    margin: int,
) -> bool {
    &&& is_coordinate(highest_place(monitor_top, margin))
    &&& is_coordinate(monitor_top + coordinate(monitor_height))
    &&& is_coordinate(monitor_top + coordinate(monitor_height) - coordinate(height))
    &&& is_coordinate(lowest_place(height, monitor_top, monitor_height, margin))
}

/// The place nearest to `y` at which a window stands on the monitor; the
/// highest place where the window is too tall for it.
pub open spec fn vertical_place(
    y: int,
    height: u32,
    monitor_top: int,
    monitor_height: u32,
    margin: int,
) -> int {
    between(
        y,
        highest_place(monitor_top, margin),
        larger(
            lowest_place(height, monitor_top, monitor_height, margin),
            highest_place(monitor_top, margin),
        ),
    )
}

/// Moves a window up or down until it stands on the monitor.
pub fn clamp_vertical(
    y: i32,
    height: u32,
    monitor_top: i32,
    monitor_height: u32,
    margin: i32,
) -> (place: i32)
    requires
        vertical_places_fit(height, monitor_top as int, monitor_height, margin as int),
    ensures
        place == vertical_place(
            y as int,
            height,
            monitor_top as int,
            monitor_height,
            margin as int,
        ),
{
    let minimum: i32 = monitor_top + margin;
    let maximum: i32 = monitor_top + as_coordinate(monitor_height) - as_coordinate(height) - margin;
    let maximum: i32 = if maximum < minimum {
        minimum
    } else {
        maximum
    };
    if y < minimum {
        minimum
    } else if y > maximum {
        maximum
    } else {
        y
    }
}

/// A window that was moved stands below the upper margin, and above the lower
/// one where it is short enough; moving it again changes nothing, and neither
/// does moving a window that stands on the monitor.
pub proof fn moved_windows_stand_on_the_monitor(
    y: int,
    height: u32,
    monitor_top: int,
    monitor_height: u32,
    margin: int,
)
    ensures
        ({
            let place = vertical_place(y, height, monitor_top, monitor_height, margin);
            let highest = highest_place(monitor_top, margin);
            let lowest = lowest_place(height, monitor_top, monitor_height, margin);
            &&& highest <= place
            &&& highest <= lowest ==> place <= lowest
            &&& vertical_place(place, height, monitor_top, monitor_height, margin) == place
            &&& highest <= y <= lowest ==> place == y
        }),
{
}

/// A window that is short enough for the monitor and its two margins ends up
/// between the margins, at the place there that is nearest to where it was. One
/// that is too tall begins right below the upper margin.
pub proof fn windows_move_no_further_than_needed(
    y: int,
    height: u32,
    monitor_top: int,
    monitor_height: u32,
    margin: int,
    other: int,
)
    requires
        height <= i32::MAX,
        monitor_height <= i32::MAX,
    ensures
        ({
            let place = vertical_place(y, height, monitor_top, monitor_height, margin);
            &&& place >= monitor_top + margin
            &&& height + 2 * margin <= monitor_height ==> place + height + margin <= monitor_top
                + monitor_height
            &&& height + 2 * margin >= monitor_height ==> place == monitor_top + margin
            &&& monitor_top + margin <= other && other + height + margin <= monitor_top
                + monitor_height ==> larger(y - place, place - y) <= larger(y - other, other - y)
        }),
{
}

/// Whether a direction is one that the orb can unfold in.
pub open spec fn is_expand_direction(direction: Seq<char>) -> bool {
    direction == "auto"@ || direction == "left"@ || direction == "right"@
}

/// The direction in which the orb unfolds, if it is one.
pub fn normalize_orb_expand_direction(direction: &str) -> (known: Option<&'static str>)
    ensures
        known is Some == is_expand_direction(direction@),
        known is Some <==> direction@ == "auto"@ || direction@ == "left"@ || direction@
            == "right"@,
        known matches Some(same) ==> same@ == direction@,
{
    if same_text(direction, "auto") {
        Some("auto")
    } else if same_text(direction, "left") {
        Some("left")
    } else if same_text(direction, "right") {
        Some("right")
    } else {
        None
    }
}

/// The side of its window on which the orb stands: opposite to the direction in
/// which the panel opens, or `automatic` where no direction is set.
pub open spec fn orb_side(direction: Seq<char>, automatic: Seq<char>) -> Seq<char> {
    if direction == "left"@ {
        "right"@
    } else if direction == "right"@ {
        "left"@
    } else {
        automatic
    }
}

/// The side of its window on which the orb stands.
pub fn orb_side_for_direction(direction: &str, automatic_side: &'static str) -> (side: &'static str)
    ensures
        side@ == orb_side(direction@, automatic_side@),
{
    if same_text(direction, "left") {
        "right"
    } else if same_text(direction, "right") {
        "left"
    } else {
        automatic_side
    }
}

/// Where the window of an orb begins.
pub open spec fn window_start(
    orb_left: int,
    orb_width: int,
    margin: int,
    side: Seq<char>,
    window_width: u32,
) -> int {
    if side == "right"@ {
        orb_left + orb_width + margin - coordinate(window_width)
    } else {
        orb_left - margin
    }
}

/// Whether the window's beginning, and what it is computed from, are
/// coordinates.
pub open spec fn window_start_fits(
    orb_left: int,
    orb_width: int,
    margin: int,
    side: Seq<char>,
    window_width: u32,
) -> bool {
    &&& is_coordinate(window_start(orb_left, orb_width, margin, side, window_width))
    &&& side == "right"@ ==> is_coordinate(orb_left + orb_width) && is_coordinate(
        orb_left + orb_width + margin,
    )
}

/// Where the window of an orb begins, if the orb stands on the given side of
/// it.
pub fn orb_window_x(
    orb_left: i32,
    orb_width: i32,
    margin: i32,
    side: &str,
    window_width: u32,
) -> (x: i32)
    requires
        window_start_fits(
            orb_left as int,
            orb_width as int,
            margin as int,
            side@,
            window_width,
        ),
    ensures
        x == window_start(orb_left as int, orb_width as int, margin as int, side@, window_width),
{
    if same_text(side, "right") {
        orb_left + orb_width + margin - as_coordinate(window_width)
    } else {
        orb_left - margin
    }
}

/// Where the folded window of an orb begins, if the unfolded one begins at
/// `window_x`.
pub open spec fn anchor_x(window_x: int, window_width: u32, orb_size: int, side: Seq<char>) -> int {
    if side == "right"@ {
        window_x + coordinate(window_width) - orb_size
    } else {
        window_x
    }
}

/// Whether the folded window's beginning, and what it is computed from, are
/// coordinates.
pub open spec fn anchor_x_fits(
    window_x: int,
    window_width: u32,
    orb_size: int,
    side: Seq<char>,
) -> bool {
    side == "right"@ ==> is_coordinate(window_x + coordinate(window_width)) && is_coordinate(
        anchor_x(window_x, window_width, orb_size, side),
    )
}

/// Where the folded window of an orb begins, if the window begins at
/// `window_x` and the orb stands on the given side of it.
pub fn orb_anchor_x_from_window(window_x: i32, window_width: u32, orb_size: i32, side: &str) -> (x:
    i32)
    requires
        anchor_x_fits(window_x as int, window_width, orb_size as int, side@),
    ensures
        x == anchor_x(window_x as int, window_width, orb_size as int, side@),
{
    if same_text(side, "right") {
        window_x + as_coordinate(window_width) - orb_size
    } else {
        window_x
    }
}

/// The orb keeps its place while its window unfolds or folds: from the window
/// that is laid out around an orb at `anchor`, whatever its width and side, the
/// same anchor is found again.
pub proof fn windows_keep_the_orb_in_place(
    anchor: int,
    orb_width: int,
    margin: int,
    side: Seq<char>,
    window_width: u32,
)
    ensures
        anchor_x(
            window_start(anchor + margin, orb_width, margin, side, window_width),
            window_width,
            orb_width + 2 * margin,
            side,
        ) == anchor,
{
}

/// The panel opens in the direction that is set: to the left, the window ends
/// one margin to the right of the orb, and so reaches to the left of it; to the
/// right, it begins one margin to the left of the orb. Without a direction the
/// orb stands on the side that is given.
pub proof fn panels_open_in_their_direction(
    orb_left: int,
    orb_width: int,
    margin: int,
    direction: Seq<char>,
    automatic: Seq<char>,
    window_width: u32,
)
    requires
        window_width <= i32::MAX,
    ensures
        ({
            let side = orb_side(direction, automatic);
            let start = window_start(orb_left, orb_width, margin, side, window_width);
            &&& direction == "left"@ ==> start + window_width == orb_left + orb_width + margin
            &&& direction == "left"@ ==> side == "right"@
            &&& direction == "right"@ ==> start == orb_left - margin
            &&& direction == "right"@ ==> side == "left"@
            &&& direction != "left"@ && direction != "right"@ ==> side == automatic
            &&& window_width >= orb_width + 2 * margin ==> start <= orb_left - margin && orb_left
                + orb_width + margin <= start + window_width
        }),
{
    reveal_strlit("left");
    reveal_strlit("right");
    assert("left"@.len() != "right"@.len());
}

/// An orb on the right side of its window ends where the window ends; one on
/// another side begins where the window begins.
pub proof fn orbs_stand_at_their_side_of_the_window(
    window_x: int,
    window_width: u32,
    orb_size: int,
    side: Seq<char>,
)
    requires
        window_width <= i32::MAX,
    ensures
        side == "right"@ ==> anchor_x(window_x, window_width, orb_size, side) + orb_size == window_x
            + window_width,
        side != "right"@ ==> anchor_x(window_x, window_width, orb_size, side) == window_x,
{
}

/// How much of a window has to be seen along one direction: all of it up to
/// `enough`, but at least `least`.
pub open spec fn visible_part(length: u32, enough: int, least: int) -> int {
    larger(smaller(length as int, enough), least)
}

/// How far a window and a monitor overlap along one direction; negative where
/// they are apart.
pub open spec fn overlap(start: int, length: u32, monitor_start: int, monitor_length: u32) -> int {
    smaller(start + coordinate(length), monitor_start + coordinate(monitor_length)) - larger(
        start,
        monitor_start,
    )
}

/// Whether enough of a window is seen on a monitor.
pub open spec fn intersects(
    position: SavedPosition,
    window_width: u32,
    window_height: u32,
    monitor_x: int,
    monitor_y: int,
    monitor_width: u32,
    monitor_height: u32,
) -> bool {
    &&& overlap(position.x as int, window_width, monitor_x, monitor_width) >= visible_part(
        window_width,
        180,
        80,
    )
    &&& overlap(position.y as int, window_height, monitor_y, monitor_height) >= visible_part(
        window_height,
        140,
        70,
    )
}

/// A window is seen on a monitor wherever some rectangle lies in both that is
/// as wide as the window up to 180 columns and as high as it up to 140 rows, but
/// has at least 80 columns and 70 rows.
pub proof fn windows_that_share_enough_with_a_monitor_are_seen(
    position: SavedPosition,
    window_width: u32,
    window_height: u32,
    monitor_x: int,
    monitor_y: int,
    monitor_width: u32,
    monitor_height: u32,
    left: int,
    top: int,
    columns: int,
    rows: int,
)
    requires
        window_width <= i32::MAX,
        window_height <= i32::MAX,
        monitor_width <= i32::MAX,
        monitor_height <= i32::MAX,
        columns >= 80 && (columns >= 180 || columns >= window_width),
        rows >= 70 && (rows >= 140 || rows >= window_height),
        position.x <= left && left + columns <= position.x + window_width,
        monitor_x <= left && left + columns <= monitor_x + monitor_width,
        position.y <= top && top + rows <= position.y + window_height,
        monitor_y <= top && top + rows <= monitor_y + monitor_height,
    ensures
        intersects(
            position,
            window_width,
            window_height,
            monitor_x,
            monitor_y,
            monitor_width,
            monitor_height,
        ),
{
}

/// A window that is seen on a monitor shares with it at least 80 columns and 70
/// rows, and all of its width up to 180 columns and of its height up to 140
/// rows: it lies neither above nor below the monitor, neither to its left nor
/// to its right.
pub proof fn windows_beside_a_monitor_are_not_seen_on_it(
    position: SavedPosition,
    window_width: u32,
    window_height: u32,
    monitor_x: int,
    monitor_y: int,
    monitor_width: u32,
    monitor_height: u32,
    columns: int,
    rows: int,
)
    requires
        intersects(
            position,
            window_width,
            window_height,
            monitor_x,
            monitor_y,
            monitor_width,
            monitor_height,
        ),
        columns <= 80 || columns <= 180 && columns <= window_width,
        rows <= 70 || rows <= 140 && rows <= window_height,
    ensures
        position.x + columns <= monitor_x + monitor_width,
        monitor_x + columns <= position.x + window_width,
        columns <= window_width,
        columns <= monitor_width,
        position.y + rows <= monitor_y + monitor_height,
        monitor_y + rows <= position.y + window_height,
        rows <= window_height,
        rows <= monitor_height,
{
}

/// Whether the ends of a window and a monitor are coordinates, and, as far as
/// they are looked at, their overlaps.
pub open spec fn overlap_fits(
    position: SavedPosition,
    window_width: u32,
    window_height: u32,
    monitor_x: int,
    monitor_y: int,
    monitor_width: u32,
    monitor_height: u32,
) -> bool {
    let across = overlap(position.x as int, window_width, monitor_x, monitor_width);
    &&& is_coordinate(position.x + coordinate(window_width))
    &&& is_coordinate(monitor_x + coordinate(monitor_width))
    &&& is_coordinate(position.y + coordinate(window_height))
    &&& is_coordinate(monitor_y + coordinate(monitor_height))
    &&& is_coordinate(across)
    &&& across >= visible_part(window_width, 180, 80) ==> is_coordinate(
        overlap(position.y as int, window_height, monitor_y, monitor_height),
    )
}

/// The larger of two coordinates.
pub fn max_of(a: i32, b: i32) -> (max: i32)
    ensures
        max == larger(a as int, b as int),
{
    if a < b {
        b
    } else {
        a
    }
}

/// The smaller of two coordinates.
pub fn min_of(a: i32, b: i32) -> (min: i32)
    ensures
        min == smaller(a as int, b as int),
{
    if b < a {
        b
    } else {
        a
    }
}

/// Whether enough of a window is seen on a monitor.
pub fn position_intersects_monitor(
    position: SavedPosition,
    window_width: u32,
    window_height: u32,
    monitor_x: i32,
    monitor_y: i32,
    monitor_width: u32,
    monitor_height: u32,
) -> (seen: bool)
    requires
        overlap_fits(
            position,
            window_width,
            window_height,
            monitor_x as int,
            monitor_y as int,
            monitor_width,
            monitor_height,
        ),
    ensures
        seen == intersects(
            position,
            window_width,
            window_height,
            monitor_x as int,
            monitor_y as int,
            monitor_width,
            monitor_height,
        ),
{
    let left: i32 = max_of(position.x, monitor_x);
    let top: i32 = max_of(position.y, monitor_y);
    let right: i32 = min_of(
        position.x + as_coordinate(window_width),
        monitor_x + as_coordinate(monitor_width),
    );
    let bottom: i32 = min_of(
        position.y + as_coordinate(window_height),
        monitor_y + as_coordinate(monitor_height),
    );
    let some_width: i32 = if window_width < 180 {
        window_width as i32
    } else {
        180
    };
    let some_height: i32 = if window_height < 140 {
        window_height as i32
    } else {
        140
    };
    right - left >= max_of(some_width, 80) && bottom - top >= max_of(some_height, 70)
}

} // verus!
