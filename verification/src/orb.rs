//! The floating orb: the monitor it stands on, the side its panel opens to, and
//! the edges it sticks to.

use vstd::prelude::*;

use crate::pixels::{signed_pixels, unsigned_pixels, ScaleFactor};
use crate::placement::{
    anchor_x, anchor_x_fits, as_coordinate, clamp_vertical, coordinate, edge_side, is_coordinate,
    nearer_edge, orb_anchor_x_from_window, orb_side, orb_side_for_direction, vertical_place,
    vertical_places_fit, SavedPosition, FLOATING_ORB_SIZE,
};
use crate::text::{outcome, same_text};

verus! {

/// A monitor: its place on the desktop, its size, and its scale factor.
#[derive(Debug, Clone, Copy, PartialEq, Eq, Structural)]
pub struct Monitor {
    /// The left edge.
    pub x: i32,
    /// The upper edge.
    pub y: i32,
    /// The width in pixels.
    pub width: u32,
    /// The height in pixels.
    pub height: u32,
    /// How many pixels a logical unit is.
    pub scale: ScaleFactor,
}

/// The size of a window in pixels.
#[derive(Debug, Clone, Copy, PartialEq, Eq, Structural)]
pub struct WindowSize {
    /// The width.
    pub width: u32,
    /// The height.
    pub height: u32,
}

/// What the desktop says of a window at one moment, each answer or the message
/// that came in its place.
#[derive(Debug)]
pub struct WindowReadings {
    /// The monitor that the window is on.
    pub current_monitor: Result<Option<Monitor>, String>,
    /// The main monitor.
    pub primary_monitor: Result<Option<Monitor>, String>,
    /// All monitors.
    pub monitors: Result<Vec<Monitor>, String>,
    /// Where the window is.
    pub position: Result<SavedPosition, String>,
    /// How large the window is.
    pub size: Result<WindowSize, String>,
    /// The scale factor of the window.
    pub scale: Result<ScaleFactor, String>,
}

/// How far two coordinates are apart.
pub open spec fn distance(a: int, b: int) -> int {
    if a < b {
        b - a
    } else {
        a - b
    }
}

/// Whether the difference of two coordinates has an absolute value that is a
/// coordinate.
pub open spec fn distance_fits(a: int, b: int) -> bool {
    i32::MIN < a - b <= i32::MAX
}

/// How far two coordinates are apart.
fn distance_of(a: i32, b: i32) -> (d: i32)
    requires
        distance_fits(a as int, b as int),
    ensures
        d == distance(a as int, b as int),
{
    let difference: i32 = a - b;
    if difference < 0 {
        -difference
    } else {
        difference
    }
}

/// Whether a wide number is a coordinate.
pub(crate) fn fits(n: i64) -> (is: bool)
    ensures
        is == is_coordinate(n as int),
{
    -0x8000_0000 <= n && n <= 0x7fff_ffff
}

/// Tells whether [`distance_fits`] holds.
fn check_distance(a: i64, b: i64) -> (is: bool)
    requires
        is_coordinate(a as int),
        is_coordinate(b as int),
    ensures
        is == distance_fits(a as int, b as int),
{
    -0x8000_0000 < a - b && a - b <= 0x7fff_ffff
}

impl Monitor {
    /// The distance that is kept from the monitor's edges.
    pub open spec fn margin(self) -> int {
        signed_pixels(6, self.scale, 0)
    }

    /// The width of the orb itself.
    pub open spec fn orb_width(self) -> int {
        signed_pixels(56, self.scale, 0)
    }

    /// How near to an edge the orb sticks to it.
    pub open spec fn reach(self) -> int {
        signed_pixels(28, self.scale, 0)
    }

    /// Half the width of the folded window.
    pub open spec fn half_orb(self) -> int {
        signed_pixels(68, self.scale, 1)
    }

    /// The width of the folded window.
    pub open spec fn orb_length(self) -> u32 {
        unsigned_pixels(68, self.scale) as u32
    }

    /// The width of the folded window as a coordinate.
    pub open spec fn orb_size(self) -> int {
        signed_pixels(68, self.scale, 0)
    }

    /// How much wider than the folded window a window still counts as folded.
    pub open spec fn tolerance(self) -> u32 {
        unsigned_pixels(12, self.scale) as u32
    }

    /// Where the folded window stands at the left edge.
    pub open spec fn left_place(self) -> int {
        self.x + self.margin()
    }

    /// Where the folded window stands at the right edge.
    pub open spec fn right_place(self) -> int {
        self.x + coordinate(self.width) - coordinate(self.orb_length()) - self.margin()
    }

    /// Whether both places, and what they are computed from, are coordinates.
    pub open spec fn places_fit(self) -> bool {
        &&& is_coordinate(self.left_place())
        &&& is_coordinate(self.x + coordinate(self.width))
        &&& is_coordinate(self.x + coordinate(self.width) - coordinate(self.orb_length()))
        &&& is_coordinate(self.right_place())
    }

    /// Whether the middle of the folded window is on the monitor.
    pub open spec fn holds(self, anchor: SavedPosition) -> bool {
        let center_x = anchor.x + self.half_orb();
        let center_y = anchor.y + self.half_orb();
        &&& self.x <= center_x < self.x + coordinate(self.width)
        &&& self.y <= center_y < self.y + coordinate(self.height)
    }

    /// Whether the middle of the folded window is a point, and so are the ends
    /// of the monitor, as far as they are looked at.
    pub open spec fn middle_fits(self, anchor: SavedPosition) -> bool {
        let center_x = anchor.x + self.half_orb();
        let center_y = anchor.y + self.half_orb();
        &&& is_coordinate(center_x)
        &&& is_coordinate(center_y)
        &&& self.x <= center_x ==> is_coordinate(self.x + coordinate(self.width))
        &&& self.x <= center_x < self.x + coordinate(self.width) && self.y <= center_y
            ==> is_coordinate(self.y + coordinate(self.height))
    }

    pub(crate) fn get_margin(&self) -> (n: i32)
        ensures
            n == self.margin(),
    {
        self.scale.scaled(6)
    }

    pub(crate) fn get_orb_length(&self) -> (n: u32)
        ensures
            n == self.orb_length(),
    {
        self.scale.scaled_length(FLOATING_ORB_SIZE)
    }

    fn get_left_place(&self) -> (n: i32)
        requires
            self.places_fit(),
        ensures
            n == self.left_place(),
    {
        self.x + self.get_margin()
    }

    fn get_right_place(&self) -> (n: i32)
        requires
            self.places_fit(),
        ensures
            n == self.right_place(),
    {
        self.x + as_coordinate(self.width) - as_coordinate(self.get_orb_length())
            - self.get_margin()
    }

    /// Tells whether [`Self::places_fit`] holds.
    fn check_places(&self) -> (is: bool)
        ensures
            is == self.places_fit(),
    {
        let margin: i64 = self.get_margin() as i64;
        let end: i64 = self.x as i64 + as_coordinate(self.width) as i64;
        let inner: i64 = end - as_coordinate(self.get_orb_length()) as i64;
        fits(self.x as i64 + margin) && fits(end) && fits(inner) && fits(inner - margin)
    }

    fn has_middle(&self, anchor: SavedPosition) -> (is: bool)
        requires
            self.middle_fits(anchor),
        ensures
            is == self.holds(anchor),
    {
        let half_orb: i32 = self.scale.scaled_half(FLOATING_ORB_SIZE);
        let center_x: i32 = anchor.x + half_orb;
        let center_y: i32 = anchor.y + half_orb;
        center_x >= self.x && center_x < self.x + as_coordinate(self.width) && center_y >= self.y
            && center_y < self.y + as_coordinate(self.height)
    }

    /// Tells whether [`Self::middle_fits`] holds.
    fn check_middle(&self, anchor: SavedPosition) -> (is: bool)
        ensures
            is == self.middle_fits(anchor),
    {
        let half_orb: i64 = self.scale.scaled_half(FLOATING_ORB_SIZE) as i64;
        let center_x: i64 = anchor.x as i64 + half_orb;
        let center_y: i64 = anchor.y as i64 + half_orb;
        let end_x: i64 = self.x as i64 + as_coordinate(self.width) as i64;
        let end_y: i64 = self.y as i64 + as_coordinate(self.height) as i64;
        if !fits(center_x) || !fits(center_y) {
            return false;
        }
        if center_x < self.x as i64 {
            return true;
        }
        if !fits(end_x) {
            return false;
        }
        center_x >= end_x || center_y < self.y as i64 || fits(end_y)
    }
}

/// The first monitor of a list that holds the orb.
pub open spec fn first_holding(monitors: Seq<Monitor>, anchor: SavedPosition) -> Option<Monitor>
    decreases monitors.len(),
{
    if monitors.len() == 0 {
        None
    } else if monitors[0].holds(anchor) {
        Some(monitors[0])
    } else {
        first_holding(monitors.drop_first(), anchor)
    }
}

/// Whether the middle of the orb can be looked up on each monitor of a list,
/// up to the first one that holds it.
pub open spec fn middles_fit(monitors: Seq<Monitor>, anchor: SavedPosition) -> bool
    decreases monitors.len(),
{
    monitors.len() == 0 || (monitors[0].middle_fits(anchor) && (monitors[0].holds(anchor)
        || middles_fit(monitors.drop_first(), anchor)))
}

impl WindowReadings {
    /// The monitor that the window is on; the main monitor where it is on none.
    pub open spec fn own_monitor(self) -> Result<Monitor, Seq<char>> {
        match self.current_monitor {
            Err(message) => Err(message@),
            Ok(current) => match self.primary_monitor {
                Err(message) => Err(message@),
                Ok(primary) => if let Some(monitor) = current {
                    Ok(monitor)
                } else if let Some(monitor) = primary {
                    Ok(monitor)
                } else {
                    Err("找不到当前显示器"@)
                },
            },
        }
    }

    /// The monitor that holds the orb; the window's own one where none does.
    pub open spec fn orb_monitor(self, anchor: SavedPosition) -> Result<Monitor, Seq<char>> {
        match self.monitors {
            Err(message) => Err(message@),
            Ok(monitors) => match first_holding(monitors@, anchor) {
                Some(monitor) => Ok(monitor),
                None => self.own_monitor(),
            },
        }
    }

    /// Whether the orb can be looked up on the monitors.
    pub open spec fn search_fits(self, anchor: SavedPosition) -> bool {
        match self.monitors {
            Err(_) => true,
            Ok(monitors) => middles_fit(monitors@, anchor),
        }
    }

    /// The monitor that the window is on; the main monitor where it is on none.
    pub fn find_own_monitor(&self) -> (monitor: Result<Monitor, String>)
        ensures
            outcome(monitor) == self.own_monitor(),
    {
        let current = match &self.current_monitor {
            Ok(current) => *current,
            Err(message) => {
                return Err(message.clone());
            },
        };
        let primary = match &self.primary_monitor {
            Ok(primary) => *primary,
            Err(message) => {
                return Err(message.clone());
            },
        };
        match current {
            Some(monitor) => Ok(monitor),
            None => match primary {
                Some(monitor) => Ok(monitor),
                None => Err("找不到当前显示器".to_owned()),
            },
        }
    }

    /// Tells whether [`Self::search_fits`] holds.
    pub fn check_search(&self, anchor: SavedPosition) -> (is: bool)
        ensures
            is == self.search_fits(anchor),
    {
        let monitors = match &self.monitors {
            Ok(monitors) => monitors,
            Err(_) => {
                return true;
            },
        };
        let mut i: usize = 0;
        assert(monitors@.skip(0) =~= monitors@);
        while i < monitors.len()
            invariant
                i <= monitors@.len(),
                self.monitors == Ok::<Vec<Monitor>, String>(*monitors),
                middles_fit(monitors@, anchor) == middles_fit(monitors@.skip(i as int), anchor),
            decreases monitors@.len() - i,
        {
            assert(monitors@.skip(i as int)[0] == monitors@[i as int]);
            assert(monitors@.skip(i as int).drop_first() =~= monitors@.skip(i + 1));
            if !monitors[i].check_middle(anchor) {
                return false;
            }
            if monitors[i].has_middle(anchor) {
                return true;
            }
            i = i + 1;
        }
        true
    }
}

/// The monitor that holds the orb; the window's own one where none does.
pub fn monitor_for_orb_anchor(window: &WindowReadings, anchor: SavedPosition) -> (monitor: Result<
    Monitor,
    String,
>)
    requires
        window.search_fits(anchor),
    ensures
        outcome(monitor) == window.orb_monitor(anchor),
{
    let monitors = match &window.monitors {
        Ok(monitors) => monitors,
        Err(message) => {
            return Err(message.clone());
        },
    };
    let mut i: usize = 0;
    assert(monitors@.skip(0) =~= monitors@);
    while i < monitors.len()
        invariant
            i <= monitors@.len(),
            middles_fit(monitors@.skip(i as int), anchor),
            first_holding(monitors@, anchor) == first_holding(monitors@.skip(i as int), anchor),
            window.monitors == Ok::<Vec<Monitor>, String>(*monitors),
        decreases monitors@.len() - i,
    {
        assert(monitors@.skip(i as int)[0] == monitors@[i as int]);
        assert(monitors@.skip(i as int).drop_first() =~= monitors@.skip(i + 1));
        if monitors[i].has_middle(anchor) {
            return Ok(monitors[i]);
        }
        i = i + 1;
    }
    window.find_own_monitor()
}

/// A result with a side or a message, seen as their characters.
pub open spec fn side_outcome(result: Result<&'static str, String>) -> Result<Seq<char>, Seq<char>> {
    match result {
        Ok(side) => Ok(side@),
        Err(message) => Err(message@),
    }
}

/// The side of its window on which the orb stands, by the place of the window.
pub open spec fn window_side(window: WindowReadings, direction: Seq<char>) -> Result<
    Seq<char>,
    Seq<char>,
> {
    match window.own_monitor() {
        Err(message) => Err(message),
        Ok(monitor) => match window.position {
            Err(message) => Err(message@),
            Ok(position) => match window.size {
                Err(message) => Err(message@),
                Ok(size) => Ok(
                    orb_side(
                        direction,
                        nearer_edge(
                            position.x as int,
                            size.width as int,
                            monitor.x as int,
                            monitor.width as int,
                        ),
                    ),
                ),
            },
        },
    }
}

/// The side of its window on which the orb stands, by the place of the window.
pub fn orb_layout_side(window: &WindowReadings, direction: &str) -> (side: Result<
    &'static str,
    String,
>)
    ensures
        side_outcome(side) == window_side(*window, direction@),
{
    let monitor = match window.find_own_monitor() {
        Ok(monitor) => monitor,
        Err(message) => {
            return Err(message);
        },
    };
    let position = match &window.position {
        Ok(position) => *position,
        Err(message) => {
            return Err(message.clone());
        },
    };
    let size = match &window.size {
        Ok(size) => *size,
        Err(message) => {
            return Err(message.clone());
        },
    };
    Ok(
        orb_side_for_direction(
            direction,
            edge_side(position.x, size.width, monitor.x, monitor.width),
        ),
    )
}

impl Monitor {
    /// Whether the orb is so near to the left edge that it sticks to it.
    pub open spec fn is_near_left(self, x: int) -> bool {
        distance(x, self.left_place()) <= self.reach()
    }

    /// Whether the orb is so near to the right edge that it sticks to it.
    pub open spec fn is_near_right(self, x: int) -> bool {
        distance(x, self.right_place()) <= self.reach()
    }

    /// Whether the distances of the orb to the edges are coordinates, as far as
    /// they are looked at.
    pub open spec fn nearness_fits(self, x: int) -> bool {
        &&& self.places_fit()
        &&& distance_fits(x, self.left_place())
        &&& !self.is_near_left(x) ==> distance_fits(x, self.right_place())
    }

    /// The side of its window on which the orb stands, by the place of the orb:
    /// the edge that it sticks to, the set direction elsewhere.
    pub open spec fn side_for(self, direction: Seq<char>, x: int) -> Seq<char> {
        if self.is_near_left(x) {
            "left"@
        } else if self.is_near_right(x) {
            "right"@
        } else {
            orb_side(
                direction,
                nearer_edge(x, self.orb_length() as int, self.x as int, self.width as int),
            )
        }
    }

    fn near_left(&self, x: i32) -> (is: bool)
        requires
            self.nearness_fits(x as int),
        ensures
            is == self.is_near_left(x as int),
    {
        distance_of(x, self.get_left_place()) <= self.scale.scaled(28)
    }

    fn near_right(&self, x: i32) -> (is: bool)
        requires
            self.places_fit(),
            distance_fits(x as int, self.right_place()),
        ensures
            is == self.is_near_right(x as int),
    {
        distance_of(x, self.get_right_place()) <= self.scale.scaled(28)
    }

    /// Tells whether [`Self::nearness_fits`] holds.
    fn check_nearness(&self, x: i32) -> (is: bool)
        ensures
            is == self.nearness_fits(x as int),
    {
        if !self.check_places() {
            return false;
        }
        if !check_distance(x as i64, self.get_left_place() as i64) {
            return false;
        }
        distance_of(x, self.get_left_place()) <= self.scale.scaled(28) || check_distance(
            x as i64,
            self.get_right_place() as i64,
        )
    }

    fn get_side(&self, direction: &str, x: i32) -> (side: &'static str)
        requires
            self.nearness_fits(x as int),
        ensures
            side@ == self.side_for(direction@, x as int),
    {
        if self.near_left(x) {
            return "left";
        }
        if self.near_right(x) {
            return "right";
        }
        orb_side_for_direction(
            direction,
            edge_side(x, self.get_orb_length(), self.x, self.width),
        )
    }
}

/// The side of its window on which the orb stands, by the place of the orb.
pub open spec fn anchor_side(
    window: WindowReadings,
    direction: Seq<char>,
    anchor: SavedPosition,
) -> Result<Seq<char>, Seq<char>> {
    match window.orb_monitor(anchor) {
        Err(message) => Err(message),
        Ok(monitor) => Ok(monitor.side_for(direction, anchor.x as int)),
    }
}

/// Whether the orb can be looked up on the monitors, and its distances to the
/// edges are coordinates.
pub open spec fn anchor_fits(window: WindowReadings, anchor: SavedPosition) -> bool {
    window.search_fits(anchor) && (window.orb_monitor(anchor) matches Ok(monitor)
        ==> monitor.nearness_fits(anchor.x as int))
}

/// Tells whether [`anchor_fits`] holds.
pub fn check_anchor(window: &WindowReadings, anchor: SavedPosition) -> (is: bool)
    ensures
        is == anchor_fits(*window, anchor),
{
    if !window.check_search(anchor) {
        return false;
    }
    match monitor_for_orb_anchor(window, anchor) {
        Ok(monitor) => monitor.check_nearness(anchor.x),
        Err(_) => true,
    }
}

/// The side of its window on which the orb stands, by the place of the orb.
pub fn orb_layout_side_for_anchor(
    window: &WindowReadings,
    direction: &str,
    anchor: SavedPosition,
) -> (side: Result<&'static str, String>)
    requires
        anchor_fits(*window, anchor),
    ensures
        side_outcome(side) == anchor_side(*window, direction@, anchor),
{
    match monitor_for_orb_anchor(window, anchor) {
        Ok(monitor) => Ok(monitor.get_side(direction, anchor.x)),
        Err(message) => Err(message),
    }
}

/// Whether the orb sticks to an edge of its monitor.
pub open spec fn is_at_edge(window: WindowReadings, anchor: SavedPosition) -> Result<
    bool,
    Seq<char>,
> {
    match window.orb_monitor(anchor) {
        Err(message) => Err(message),
        Ok(monitor) => Ok(
            monitor.is_near_left(anchor.x as int) || monitor.is_near_right(anchor.x as int),
        ),
    }
}

/// Whether the orb sticks to an edge of its monitor.
pub fn orb_anchor_is_near_edge(window: &WindowReadings, anchor: SavedPosition) -> (near: Result<
    bool,
    String,
>)
    requires
        anchor_fits(*window, anchor),
    ensures
        outcome(near) == is_at_edge(*window, anchor),
{
    match monitor_for_orb_anchor(window, anchor) {
        Ok(monitor) => Ok(monitor.near_left(anchor.x) || monitor.near_right(anchor.x)),
        Err(message) => Err(message),
    }
}

/// Whether a window on a monitor is the folded one, by its width.
pub open spec fn is_folded(monitor: Monitor, size: WindowSize) -> bool {
    size.width <= monitor.orb_length() + monitor.tolerance()
}

/// The monitor that the orb of a window is on: the window's own one if the
/// window is folded, that of the orb's last place elsewhere.
pub open spec fn measuring_monitor(
    window: WindowReadings,
    own: Monitor,
    size: WindowSize,
    previous: Option<SavedPosition>,
) -> Monitor {
    if is_folded(own, size) || previous is None {
        own
    } else {
        match window.orb_monitor(previous->0) {
            Ok(monitor) => monitor,
            Err(_) => own,
        }
    }
}

/// The side of its window on which the orb stands: by the place of the window
/// if it is folded, by the orb's last place elsewhere.
pub open spec fn measured_side(
    window: WindowReadings,
    own: Monitor,
    size: WindowSize,
    direction: Seq<char>,
    previous: Option<SavedPosition>,
) -> Result<Seq<char>, Seq<char>> {
    if is_folded(own, size) || previous is None {
        window_side(window, direction)
    } else {
        anchor_side(window, direction, previous->0)
    }
}

/// The anchor of the orb, which is where its folded window would stand, for a
/// window at `position`: nothing where the desktop gives no answer.
pub open spec fn window_anchor(
    window: WindowReadings,
    direction: Seq<char>,
    previous: Option<SavedPosition>,
    position: SavedPosition,
) -> Option<SavedPosition> {
    match (window.own_monitor(), window.size) {
        (Ok(own), Ok(size)) => match measured_side(window, own, size, direction, previous) {
            Ok(side) => {
                let monitor = measuring_monitor(window, own, size, previous);
                Some(
                    SavedPosition {
                        x: anchor_x(
                            position.x as int,
                            size.width,
                            monitor.orb_width() + 2 * monitor.margin(),
                            side,
                        ) as i32,
                        y: position.y,
                    },
                )
            },
            Err(_) => None,
        },
        _ => None,
    }
}

/// Whether everything that [`window_anchor`] is computed from fits.
pub open spec fn window_anchor_fits(
    window: WindowReadings,
    direction: Seq<char>,
    previous: Option<SavedPosition>,
    position: SavedPosition,
) -> bool {
    match (window.own_monitor(), window.size) {
        (Ok(own), Ok(size)) => {
            let monitor = measuring_monitor(window, own, size, previous);
            &&& own.orb_length() + own.tolerance() <= u32::MAX
            &&& !is_folded(own, size) && previous is Some ==> anchor_fits(window, previous->0)
            &&& measured_side(window, own, size, direction, previous) matches Ok(side) ==> {
                &&& is_coordinate(2 * monitor.margin())
                &&& is_coordinate(monitor.orb_width() + 2 * monitor.margin())
                &&& anchor_x_fits(
                    position.x as int,
                    size.width,
                    monitor.orb_width() + 2 * monitor.margin(),
                    side,
                )
            }
        },
        _ => true,
    }
}

/// The monitor that the orb of a window is on, and the side of the window on
/// which it stands.
fn measure(
    window: &WindowReadings,
    own: Monitor,
    folded: bool,
    direction: &str,
    previous: Option<SavedPosition>,
) -> (measured: Option<(Monitor, &'static str)>)
    requires
        !folded && previous is Some ==> anchor_fits(*window, previous->0),
    ensures
        ({
            let monitor = if folded || previous is None {
                own
            } else {
                match window.orb_monitor(previous->0) {
                    Ok(monitor) => monitor,
                    Err(_) => own,
                }
            };
            let side = if folded || previous is None {
                window_side(*window, direction@)
            } else {
                anchor_side(*window, direction@, previous->0)
            };
            match measured {
                Some((found, found_side)) => found == monitor && side == Ok::<Seq<char>, Seq<char>>(
                    found_side@,
                ),
                None => side is Err,
            }
        }),
{
    let unfolded_from = if folded {
        None
    } else {
        previous
    };
    match unfolded_from {
        None => match orb_layout_side(window, direction) {
            Ok(side) => Some((own, side)),
            Err(_) => None,
        },
        Some(anchor) => {
            let monitor = match monitor_for_orb_anchor(window, anchor) {
                Ok(monitor) => monitor,
                Err(_) => own,
            };
            match orb_layout_side_for_anchor(window, direction, anchor) {
                Ok(side) => Some((monitor, side)),
                Err(_) => None,
            }
        },
    }
}

/// The anchor of the orb for a window at `position`.
pub fn orb_anchor_from_window(
    window: &WindowReadings,
    direction: &str,
    previous_anchor: Option<SavedPosition>,
    position: SavedPosition,
) -> (anchor: Option<SavedPosition>)
    requires
        window_anchor_fits(*window, direction@, previous_anchor, position),
    ensures
        anchor == window_anchor(*window, direction@, previous_anchor, position),
{
    let own = match window.find_own_monitor() {
        Ok(own) => own,
        Err(_) => {
            return None;
        },
    };
    let size = match &window.size {
        Ok(size) => *size,
        Err(_) => {
            return None;
        },
    };
    let folded = size.width <= own.get_orb_length() + own.scale.scaled_length(12);
    match measure(window, own, folded, direction, previous_anchor) {
        Some((monitor, side)) => {
            let margin: i32 = monitor.get_margin();
            let orb_width: i32 = monitor.scale.scaled(56);
            Some(
                SavedPosition {
                    x: orb_anchor_x_from_window(
                        position.x,
                        size.width,
                        orb_width + 2 * margin,
                        side,
                    ),
                    y: position.y,
                },
            )
        },
        None => None,
    }
}

/// Tells whether [`window_anchor_fits`] holds.
pub fn check_window_anchor(
    window: &WindowReadings,
    direction: &str,
    previous_anchor: Option<SavedPosition>,
    position: SavedPosition,
) -> (is: bool)
    ensures
        is == window_anchor_fits(*window, direction@, previous_anchor, position),
{
    let own = match window.find_own_monitor() {
        Ok(own) => own,
        Err(_) => {
            return true;
        },
    };
    let size = match &window.size {
        Ok(size) => *size,
        Err(_) => {
            return true;
        },
    };
    let widest: u64 = own.get_orb_length() as u64 + own.scale.scaled_length(12) as u64;
    if widest > 0xffff_ffff {
        return false;
    }
    let folded = size.width as u64 <= widest;
    if let Some(anchor) = previous_anchor {
        if !folded && !check_anchor(window, anchor) {
            return false;
        }
    }
    match measure(window, own, folded, direction, previous_anchor) {
        Some((monitor, side)) => {
            let margin: i64 = monitor.get_margin() as i64;
            let orb_size: i64 = monitor.scale.scaled(56) as i64 + 2 * margin;
            let end: i64 = position.x as i64 + as_coordinate(size.width) as i64;
            fits(2 * margin) && fits(orb_size) && (!same_text(side, "right") || (fits(end) && fits(
                end - orb_size,
            )))
        },
        None => true,
    }
}

/// The place at an edge to which the orb moves, on the monitor that holds it:
/// at the nearer edge, the left one where both are equally near, and as high as
/// before where it is on the monitor there.
pub open spec fn edge_place(monitor: Monitor, anchor: SavedPosition) -> SavedPosition {
    SavedPosition {
        x: if nearer_is_left(monitor, anchor) {
            monitor.left_place() as i32
        } else {
            monitor.right_place() as i32
        },
        y: vertical_place(
            anchor.y as int,
            monitor.orb_length(),
            monitor.y as int,
            monitor.height,
            monitor.margin(),
        ) as i32,
    }
}

/// Whether the place at the left edge is not further from the orb than the one
/// at the right edge.
pub open spec fn nearer_is_left(monitor: Monitor, anchor: SavedPosition) -> bool {
    distance(anchor.x as int, monitor.left_place()) <= distance(
        anchor.x as int,
        monitor.right_place(),
    )
}

/// The edge to which the orb moves.
pub open spec fn edge_side_of(monitor: Monitor, anchor: SavedPosition) -> Seq<char> {
    if nearer_is_left(monitor, anchor) {
        "left"@
    } else {
        "right"@
    }
}

/// Whether everything that [`edge_place`] is computed from fits.
pub open spec fn edge_place_fits(monitor: Monitor, anchor: SavedPosition) -> bool {
    &&& monitor.places_fit()
    &&& distance_fits(anchor.x as int, monitor.left_place())
    &&& distance_fits(anchor.x as int, monitor.right_place())
    &&& vertical_places_fit(
        monitor.orb_length(),
        monitor.y as int,
        monitor.height,
        monitor.margin(),
    )
}

/// The place at an edge to which the orb of a window at `position` moves, and
/// the edge: nothing where the desktop gives no answer.
pub open spec fn edge_anchor(
    window: WindowReadings,
    direction: Seq<char>,
    previous: Option<SavedPosition>,
    position: SavedPosition,
) -> Option<(SavedPosition, Seq<char>)> {
    match window_anchor(window, direction, previous, position) {
        Some(anchor) => match window.orb_monitor(anchor) {
            Ok(monitor) => Some((edge_place(monitor, anchor), edge_side_of(monitor, anchor))),
            Err(_) => None,
        },
        None => None,
    }
}

/// Whether everything that [`edge_anchor`] is computed from fits.
pub open spec fn edge_anchor_fits(
    window: WindowReadings,
    direction: Seq<char>,
    previous: Option<SavedPosition>,
    position: SavedPosition,
) -> bool {
    &&& window_anchor_fits(window, direction, previous, position)
    &&& window_anchor(window, direction, previous, position) matches Some(anchor) ==> {
        &&& window.search_fits(anchor)
        &&& window.orb_monitor(anchor) matches Ok(monitor) ==> edge_place_fits(monitor, anchor)
    }
}

/// The place at an edge to which the orb of a window at `position` moves, and
/// the edge.
pub fn orb_edge_anchor(
    window: &WindowReadings,
    direction: &str,
    previous_anchor: Option<SavedPosition>,
    position: SavedPosition,
) -> (found: Option<(SavedPosition, &'static str)>)
    requires
        edge_anchor_fits(*window, direction@, previous_anchor, position),
    ensures
        edge_anchor(*window, direction@, previous_anchor, position) == (match found {
            Some((anchor, side)) => Some((anchor, side@)),
            None => None,
        }),
{
    let anchor = orb_anchor_from_window(window, direction, previous_anchor, position)?;
    let monitor = match monitor_for_orb_anchor(window, anchor) {
        Ok(monitor) => monitor,
        Err(_) => {
            return None;
        },
    };
    let left_x: i32 = monitor.get_left_place();
    let right_x: i32 = monitor.get_right_place();
    let is_left = distance_of(anchor.x, left_x) <= distance_of(anchor.x, right_x);
    let y: i32 = clamp_vertical(
        anchor.y,
        monitor.get_orb_length(),
        monitor.y,
        monitor.height,
        monitor.get_margin(),
    );
    if is_left {
        Some((SavedPosition { x: left_x, y }, "left"))
    } else {
        Some((SavedPosition { x: right_x, y }, "right"))
    }
}

/// Tells whether [`vertical_places_fit`] holds.
pub(crate) fn check_vertical_places(
    height: u32,
    monitor_top: i32,
    monitor_height: u32,
    margin: i32,
) -> (is: bool)
    ensures
        is == vertical_places_fit(height, monitor_top as int, monitor_height, margin as int),
{
    let end: i64 = monitor_top as i64 + as_coordinate(monitor_height) as i64;
    let inner: i64 = end - as_coordinate(height) as i64;
    fits(monitor_top as i64 + margin as i64) && fits(end) && fits(inner) && fits(
        inner - margin as i64,
    )
}

/// Tells whether [`edge_anchor_fits`] holds.
pub fn check_edge_anchor(
    window: &WindowReadings,
    direction: &str,
    previous_anchor: Option<SavedPosition>,
    position: SavedPosition,
) -> (is: bool)
    ensures
        is == edge_anchor_fits(*window, direction@, previous_anchor, position),
{
    if !check_window_anchor(window, direction, previous_anchor, position) {
        return false;
    }
    match orb_anchor_from_window(window, direction, previous_anchor, position) {
        None => true,
        Some(anchor) => {
            if !window.check_search(anchor) {
                return false;
            }
            match monitor_for_orb_anchor(window, anchor) {
                Err(_) => true,
                Ok(monitor) => monitor.check_places() && check_distance(
                    anchor.x as i64,
                    monitor.get_left_place() as i64,
                ) && check_distance(anchor.x as i64, monitor.get_right_place() as i64)
                    && check_vertical_places(
                    monitor.get_orb_length(),
                    monitor.y,
                    monitor.height,
                    monitor.get_margin(),
                ),
            }
        },
    }
}

/// Whether the orb of a window at `position` sticks to an edge.
pub open spec fn window_is_at_edge(
    window: WindowReadings,
    direction: Seq<char>,
    previous: Option<SavedPosition>,
    position: SavedPosition,
) -> Result<bool, Seq<char>> {
    match window_anchor(window, direction, previous, position) {
        Some(anchor) => is_at_edge(window, anchor),
        None => Err("无法读取悬浮球位置"@),
    }
}

/// Whether everything that [`window_is_at_edge`] is computed from fits.
pub open spec fn window_is_at_edge_fits(
    window: WindowReadings,
    direction: Seq<char>,
    previous: Option<SavedPosition>,
    position: SavedPosition,
) -> bool {
    &&& window_anchor_fits(window, direction, previous, position)
    &&& window_anchor(window, direction, previous, position) matches Some(anchor) ==> anchor_fits(
        window,
        anchor,
    )
}

/// Whether the orb of a window at `position` sticks to an edge.
pub fn orb_is_near_edge(
    window: &WindowReadings,
    direction: &str,
    previous_anchor: Option<SavedPosition>,
    position: SavedPosition,
) -> (near: Result<bool, String>)
    requires
        window_is_at_edge_fits(*window, direction@, previous_anchor, position),
    ensures
        outcome(near) == window_is_at_edge(*window, direction@, previous_anchor, position),
{
    match orb_anchor_from_window(window, direction, previous_anchor, position) {
        Some(anchor) => orb_anchor_is_near_edge(window, anchor),
        None => Err("无法读取悬浮球位置".to_owned()),
    }
}

/// Tells whether [`window_is_at_edge_fits`] holds.
pub fn check_near_edge(
    window: &WindowReadings,
    direction: &str,
    previous_anchor: Option<SavedPosition>,
    position: SavedPosition,
) -> (is: bool)
    ensures
        is == window_is_at_edge_fits(*window, direction@, previous_anchor, position),
{
    if !check_window_anchor(window, direction, previous_anchor, position) {
        return false;
    }
    match orb_anchor_from_window(window, direction, previous_anchor, position) {
        Some(anchor) => check_anchor(window, anchor),
        None => true,
    }
}

/// The side of its window on which the orb stands: by its last place where that
/// is known, by the place of the window elsewhere.
pub open spec fn shown_side(
    window: WindowReadings,
    direction: Seq<char>,
    anchor: Option<SavedPosition>,
) -> Result<Seq<char>, Seq<char>> {
    match anchor {
        Some(anchor) => anchor_side(window, direction, anchor),
        None => window_side(window, direction),
    }
}

/// The side of its window on which the orb stands.
pub fn get_floating_orb_side(
    window: &WindowReadings,
    direction: &str,
    anchor: Option<SavedPosition>,
) -> (side: Result<&'static str, String>)
    requires
        anchor matches Some(anchor) ==> anchor_fits(*window, anchor),
    ensures
        side_outcome(side) == shown_side(*window, direction@, anchor),
{
    match anchor {
        Some(anchor) => orb_layout_side_for_anchor(window, direction, anchor),
        None => orb_layout_side(window, direction),
    }
}

/// Whether the orb of a window, as it stands, sticks to an edge.
pub fn get_floating_orb_edge_state(
    window: &WindowReadings,
    direction: &str,
    previous_anchor: Option<SavedPosition>,
) -> (near: Result<bool, String>)
    requires
        window.position matches Ok(position) ==> window_is_at_edge_fits(
            *window,
            direction@,
            previous_anchor,
            position,
        ),
    ensures
        outcome(near) == (match window.position {
            Ok(position) => window_is_at_edge(*window, direction@, previous_anchor, position),
            Err(message) => Err(message@),
        }),
{
    match &window.position {
        Ok(position) => orb_is_near_edge(window, direction, previous_anchor, *position),
        Err(message) => Err(message.clone()),
    }
}

/// The place at an edge to which the orb of a window, as it stands, moves.
pub fn snap_floating_to_edge(
    window: &WindowReadings,
    direction: &str,
    previous_anchor: Option<SavedPosition>,
) -> (anchor: Result<SavedPosition, String>)
    requires
        window.position matches Ok(position) ==> edge_anchor_fits(
            *window,
            direction@,
            previous_anchor,
            position,
        ),
    ensures
        outcome(anchor) == (match window.position {
            Ok(position) => match edge_anchor(*window, direction@, previous_anchor, position) {
                Some((anchor, _)) => Ok(anchor),
                None => Err("无法计算悬浮球吸附位置"@),
            },
            Err(message) => Err(message@),
        }),
{
    match &window.position {
        Ok(position) => match orb_edge_anchor(window, direction, previous_anchor, *position) {
            Some((anchor, _)) => Ok(anchor),
            None => Err("无法计算悬浮球吸附位置".to_owned()),
        },
        Err(message) => Err(message.clone()),
    }
}

/// An orb that moved to an edge sticks to it, on the monitor on which it moved,
/// wherever the reach of the edges is not negative; moving it again changes
/// nothing.
pub proof fn an_orb_at_an_edge_sticks_to_it(monitor: Monitor, anchor: SavedPosition)
    requires
        edge_place_fits(monitor, anchor),
    ensures
        monitor.reach() >= 0 ==> monitor.is_near_left(edge_place(monitor, anchor).x as int)
            || monitor.is_near_right(edge_place(monitor, anchor).x as int),
        edge_place(monitor, edge_place(monitor, anchor)) == edge_place(monitor, anchor),
{
}

/// What the first monitor of a list that holds the orb is.
proof fn lemma_first_holding(monitors: Seq<Monitor>, anchor: SavedPosition)
    ensures
        match first_holding(monitors, anchor) {
            Some(found) => found.holds(anchor) && exists|i: int|
                0 <= i < monitors.len() && #[trigger] monitors[i] == found && forall|j: int|
                    0 <= j < i ==> !(#[trigger] monitors[j]).holds(anchor),
            None => forall|j: int|
                0 <= j < monitors.len() ==> !(#[trigger] monitors[j]).holds(anchor),
        },
    decreases monitors.len(),
{
    if monitors.len() > 0 && !monitors[0].holds(anchor) {
        let rest = monitors.drop_first();
        lemma_first_holding(rest, anchor);
        assert forall|j: int|
            0 < j < monitors.len() && !rest[j - 1].holds(anchor) implies !(
        #[trigger] monitors[j]).holds(anchor) by {}
        if let Some(found) = first_holding(rest, anchor) {
            let i = choose|i: int|
                0 <= i < rest.len() && #[trigger] rest[i] == found && forall|j: int|
                    0 <= j < i ==> !(#[trigger] rest[j]).holds(anchor);
            assert(monitors[i + 1] == found);
            assert forall|j: int| 0 <= j < i + 1 implies !(#[trigger] monitors[j]).holds(
                anchor,
            ) by {
                if j > 0 {
                    assert(!rest[j - 1].holds(anchor));
                }
            }
        } else {
            assert forall|j: int| 0 <= j < monitors.len() implies !(#[trigger] monitors[j]).holds(
                anchor,
            ) by {
                if j > 0 {
                    assert(!rest[j - 1].holds(anchor));
                }
            }
        }
    }
}

/// An orb is on the first monitor of the list that has the orb's middle inside
/// it, across and down: on the only one, where there is just one. Where no
/// monitor has it inside, it is on the window's own monitor.
pub proof fn orbs_are_on_the_monitor_under_their_middle(
    window: WindowReadings,
    monitors: Vec<Monitor>,
    anchor: SavedPosition,
)
    requires
        window.monitors == Ok::<Vec<Monitor>, String>(monitors),
    ensures
        ({
            let inside = |monitor: Monitor|
                {
                    let x = anchor.x + signed_pixels(68, monitor.scale, 1);
                    let y = anchor.y + signed_pixels(68, monitor.scale, 1);
                    &&& monitor.x <= x < monitor.x + monitor.width
                    &&& monitor.y <= y < monitor.y + monitor.height
                };
            let list = monitors@;
            &&& (forall|i: int| 0 <= i < list.len() ==> !inside(#[trigger] list[i]))
                ==> window.orb_monitor(anchor) == window.own_monitor()
            &&& forall|i: int|
                {
                    &&& 0 <= i < list.len() && inside(#[trigger] list[i])
                    &&& list[i].width <= i32::MAX && list[i].height <= i32::MAX
                    &&& forall|j: int| 0 <= j < i ==> !inside(#[trigger] list[j])
                } ==> window.orb_monitor(anchor) == Ok::<Monitor, Seq<char>>(list[i])
            &&& window.orb_monitor(anchor) == window.own_monitor() || exists|i: int|
                {
                    &&& 0 <= i < list.len() && inside(#[trigger] list[i])
                    &&& window.orb_monitor(anchor) == Ok::<Monitor, Seq<char>>(list[i])
                }
        }),
{
    let inside = |monitor: Monitor|
        {
            let x = anchor.x + signed_pixels(68, monitor.scale, 1);
            let y = anchor.y + signed_pixels(68, monitor.scale, 1);
            &&& monitor.x <= x < monitor.x + monitor.width
            &&& monitor.y <= y < monitor.y + monitor.height
        };
    let list = monitors@;
    lemma_first_holding(list, anchor);
    assert forall|m: Monitor| #[trigger] m.holds(anchor) implies inside(m) by {}
    assert forall|m: Monitor|
        inside(m) && m.width <= i32::MAX && m.height <= i32::MAX implies #[trigger] m.holds(
        anchor,
    ) by {}
    assert forall|i: int|
        {
            &&& 0 <= i < list.len() && inside(#[trigger] list[i])
            &&& list[i].width <= i32::MAX && list[i].height <= i32::MAX
            &&& forall|j: int| 0 <= j < i ==> !inside(#[trigger] list[j])
        } implies window.orb_monitor(anchor) == Ok::<Monitor, Seq<char>>(list[i]) by {
        assert(list[i].holds(anchor));
        let found = first_holding(list, anchor)->0;
        let k = choose|k: int|
            0 <= k < list.len() && #[trigger] list[k] == found && forall|j: int|
                0 <= j < k ==> !(#[trigger] list[j]).holds(anchor);
        assert(inside(list[k]));
    }
}

/// The monitor that an orb is on is one of the list or the window's own one.
pub proof fn found_monitors_are_known(
    window: WindowReadings,
    monitors: Vec<Monitor>,
    anchor: SavedPosition,
)
    requires
        window.monitors == Ok::<Vec<Monitor>, String>(monitors),
    ensures
        window.orb_monitor(anchor) == window.own_monitor() || exists|i: int|
            0 <= i < monitors@.len() && window.orb_monitor(anchor) == Ok::<Monitor, Seq<char>>(
                #[trigger] monitors@[i],
            ),
{
    lemma_first_holding(monitors@, anchor);
}

/// A window's own monitor is the one that it is on, whatever the main monitor
/// is; the main monitor where it is on none; and none where there is neither.
/// An answer that did not come is reported in its place.
pub proof fn windows_are_on_their_current_monitor(window: WindowReadings, monitor: Monitor)
    ensures
        window.current_monitor matches Err(message) ==> window.own_monitor() == Err::<
            Monitor,
            Seq<char>,
        >(message@),
        window.current_monitor is Ok && window.primary_monitor is Err ==> window.own_monitor()
            == Err::<Monitor, Seq<char>>(window.primary_monitor->Err_0@),
        window.current_monitor == Ok::<Option<Monitor>, String>(Some(monitor))
            && window.primary_monitor is Ok ==> window.own_monitor() == Ok::<Monitor, Seq<char>>(
            monitor,
        ),
        window.current_monitor == Ok::<Option<Monitor>, String>(None) && window.primary_monitor
            == Ok::<Option<Monitor>, String>(Some(monitor)) ==> window.own_monitor() == Ok::<
            Monitor,
            Seq<char>,
        >(monitor),
        window.current_monitor == Ok::<Option<Monitor>, String>(None) && window.primary_monitor
            == Ok::<Option<Monitor>, String>(None) ==> window.own_monitor() == Err::<
            Monitor,
            Seq<char>,
        >("找不到当前显示器"@),
{
}

/// An orb within 28 logical units of its place at the left edge of the monitor
/// stands on the left side of its window, and one as near to its place at the
/// right edge on the right side, whatever direction is set: its panel opens into
/// the monitor. Elsewhere the panel opens in the direction that is set, and
/// without one away from the nearer edge. These places lie 6 logical units off
/// the edges.
pub proof fn panels_open_away_from_the_edge(
    monitor: Monitor,
    direction: Seq<char>,
    x: int,
)
    requires
        monitor.width <= i32::MAX,
        unsigned_pixels(68, monitor.scale) <= i32::MAX,
    ensures
        ({
            let gap = signed_pixels(6, monitor.scale, 0);
            let reach = signed_pixels(28, monitor.scale, 0);
            let length = unsigned_pixels(68, monitor.scale);
            let off_left = x - (monitor.x + gap);
            let off_right = (monitor.x + monitor.width - gap) - (x + length);
            let at_left = -reach <= off_left <= reach;
            let at_right = -reach <= off_right <= reach;
            let side = monitor.side_for(direction, x);
            &&& monitor.is_near_left(x) <==> at_left
            &&& monitor.is_near_right(x) <==> at_right
            &&& at_left ==> side == "left"@
            &&& !at_left && at_right ==> side == "right"@
            &&& !at_left && !at_right && direction == "left"@ ==> side == "right"@
            &&& !at_left && !at_right && direction == "right"@ ==> side == "left"@
            &&& !at_left && !at_right && direction != "left"@ && direction != "right"@ ==> (side
                == "left"@ <==> (x - monitor.x) + length / 2 <= monitor.width as int / 2)
            &&& side == "left"@ || side == "right"@
        }),
{
    reveal_strlit("left");
    reveal_strlit("right");
    assert("left"@.len() != "right"@.len());
}

/// The side on which an orb stands is decided on the monitor that it is on, by
/// its anchor where that is known; where it is not, by the place and the width
/// of the window on the window's own monitor, and no edge counts there.
pub proof fn sides_are_decided_on_the_monitor_of_the_orb(
    window: WindowReadings,
    direction: Seq<char>,
    anchor: SavedPosition,
    monitor: Monitor,
)
    ensures
        window.orb_monitor(anchor) == Ok::<Monitor, Seq<char>>(monitor) ==> {
            &&& shown_side(window, direction, Some(anchor)) == Ok::<Seq<char>, Seq<char>>(
                monitor.side_for(direction, anchor.x as int),
            )
            &&& is_at_edge(window, anchor) == Ok::<bool, Seq<char>>(
                monitor.is_near_left(anchor.x as int) || monitor.is_near_right(anchor.x as int),
            )
        },
        window.orb_monitor(anchor) matches Err(message) ==> {
            &&& shown_side(window, direction, Some(anchor)) == Err::<Seq<char>, Seq<char>>(message)
            &&& is_at_edge(window, anchor) == Err::<bool, Seq<char>>(message)
        },
        window.own_monitor() == Ok::<Monitor, Seq<char>>(monitor) ==> match (
            window.position,
            window.size,
        ) {
            (Ok(position), Ok(size)) => shown_side(window, direction, None) == Ok::<
                Seq<char>,
                Seq<char>,
            >(
                if direction == "left"@ {
                    "right"@
                } else if direction == "right"@ || (position.x - monitor.x) + size.width as int / 2
                    <= monitor.width as int / 2 {
                    "left"@
                } else {
                    "right"@
                },
            ),
            (Err(message), _) => shown_side(window, direction, None) == Err::<Seq<char>, Seq<char>>(
                message@,
            ),
            (_, Err(message)) => shown_side(window, direction, None) == Err::<Seq<char>, Seq<char>>(
                message@,
            ),
        },
{
}

/// An orb that moves to an edge stands 6 logical units off it, at the left edge
/// or at the right one, and it moves to the one from which it is not further
/// away. It stays between the upper and the lower margin, and as high as it was
/// where it was between them.
pub proof fn orbs_move_to_the_nearer_edge(monitor: Monitor, anchor: SavedPosition)
    requires
        edge_place_fits(monitor, anchor),
        monitor.width <= i32::MAX,
        monitor.height <= i32::MAX,
        unsigned_pixels(68, monitor.scale) <= i32::MAX,
    ensures
        ({
            let gap = signed_pixels(6, monitor.scale, 0);
            let length = unsigned_pixels(68, monitor.scale);
            let place = edge_place(monitor, anchor);
            let left = monitor.x + gap;
            let right = monitor.x + monitor.width - length - gap;
            let side = edge_side_of(monitor, anchor);
            &&& side == "left"@ ==> place.x == left
            &&& side == "right"@ ==> place.x == right
            &&& side == "left"@ || side == "right"@
            &&& side == "left"@ <==> distance(anchor.x as int, left) <= distance(
                anchor.x as int,
                right,
            )
            &&& place.y >= monitor.y + gap
            &&& length + 2 * gap <= monitor.height ==> place.y + length + gap <= monitor.y
                + monitor.height
            &&& monitor.y + gap <= anchor.y && anchor.y + length + gap <= monitor.y + monitor.height
                ==> place.y == anchor.y
        }),
{
    reveal_strlit("left");
    reveal_strlit("right");
    assert("left"@.len() != "right"@.len());
}

/// The distance of two coordinates is the same both ways, zero exactly where
/// they are equal, and what is added to the smaller one to get the larger one.
pub proof fn distances_are_differences(a: int, b: int)
    ensures
        distance(a, b) == distance(b, a),
        distance(a, b) == 0 <==> a == b,
        a <= b ==> a + distance(a, b) == b,
{
}

/// The anchor of a window is as high as the window. Where the orb stands on the
/// right side of its window, the folded window of 56 logical units and two gaps
/// of 6 ends where the window ends; elsewhere it begins where the window begins.
/// A window that is no more than 12 logical units wider than the folded one of
/// 68 counts as folded, and is measured on its own monitor by its own place; a
/// wider one is measured by the anchor that the orb had, where there is one.
pub proof fn anchors_are_measured_from_the_window(
    window: WindowReadings,
    direction: Seq<char>,
    previous: Option<SavedPosition>,
    position: SavedPosition,
    own: Monitor,
    size: WindowSize,
    monitor: Monitor,
    side: Seq<char>,
)
    requires
        window_anchor_fits(window, direction, previous, position),
        window.own_monitor() == Ok::<Monitor, Seq<char>>(own),
        window.size == Ok::<WindowSize, String>(size),
        size.width <= i32::MAX,
        ({
            let folded = size.width <= unsigned_pixels(68, own.scale) + unsigned_pixels(
                12,
                own.scale,
            );
            if folded || previous is None {
                monitor == own && shown_side(window, direction, None) == Ok::<
                    Seq<char>,
                    Seq<char>,
                >(side)
            } else {
                window.orb_monitor(previous->0) == Ok::<Monitor, Seq<char>>(monitor) && shown_side(
                    window,
                    direction,
                    previous,
                ) == Ok::<Seq<char>, Seq<char>>(side)
            }
        }),
    ensures
        window_anchor(window, direction, previous, position) matches Some(anchor) && {
            &&& anchor.y == position.y
            &&& side != "right"@ ==> anchor.x == position.x
            &&& side == "right"@ ==> anchor.x + signed_pixels(56, monitor.scale, 0) + 2
                * signed_pixels(6, monitor.scale, 0) == position.x + size.width
        },
{
}

/// An orb is moved to an edge, and said to be at one, by its anchor, on the
/// monitor that this anchor is on. Without an anchor, or a monitor, it is moved
/// nowhere, and what is missing is reported.
pub proof fn orbs_snap_on_the_monitor_under_them(
    window: WindowReadings,
    direction: Seq<char>,
    previous: Option<SavedPosition>,
    position: SavedPosition,
    anchor: SavedPosition,
    monitor: Monitor,
)
    ensures
        ({
            let found = window_anchor(window, direction, previous, position);
            let moved = edge_anchor(window, direction, previous, position);
            let at_edge = window_is_at_edge(window, direction, previous, position);
            &&& found == Some(anchor) && window.orb_monitor(anchor) == Ok::<Monitor, Seq<char>>(
                monitor,
            ) ==> {
                &&& moved == Some((edge_place(monitor, anchor), edge_side_of(monitor, anchor)))
                &&& at_edge == Ok::<bool, Seq<char>>(
                    monitor.is_near_left(anchor.x as int) || monitor.is_near_right(anchor.x as int),
                )
            }
            &&& found == Some(anchor) && window.orb_monitor(anchor) is Err ==> moved is None
                && at_edge is Err
            &&& found is None ==> moved is None && at_edge == Err::<bool, Seq<char>>(
                "无法读取悬浮球位置"@,
            )
            &&& window.own_monitor() is Err || window.size is Err ==> found is None
        }),
{
}

impl Monitor {
    /// Whether a monitor is one of those that desktops have: its edges lie
    /// within sixteen million pixels of the origin, and an orb of at most
    /// sixty-five thousand pixels finds room on it.
    pub open spec fn is_ordinary(self) -> bool {
        &&& -0x100_0000 <= self.x <= 0x100_0000
        &&& -0x100_0000 <= self.y <= 0x100_0000
        &&& self.width <= 0x100_0000
        &&& self.height <= 0x100_0000
        &&& 0 <= signed_pixels(6, self.scale, 0) <= 0x1_0000
        &&& 0 <= signed_pixels(28, self.scale, 0) <= 0x1_0000
        &&& 0 <= signed_pixels(56, self.scale, 0) <= 0x1_0000
        &&& 0 <= signed_pixels(68, self.scale, 0) <= 0x1_0000
        &&& 0 <= signed_pixels(68, self.scale, 1) <= 0x1_0000
        &&& unsigned_pixels(12, self.scale) <= 0x1_0000
        &&& unsigned_pixels(68, self.scale) <= 0x1_0000
        &&& unsigned_pixels(230, self.scale) <= 0x1_0000
        &&& signed_pixels(68, self.scale, 0) + 2 * signed_pixels(6, self.scale, 0) <= self.width
    }
}

/// Whether a position is within thirty-two million pixels of the origin.
pub open spec fn is_ordinary_position(position: SavedPosition) -> bool {
    -0x200_0000 <= position.x <= 0x200_0000 && -0x200_0000 <= position.y <= 0x200_0000
}

/// On an ordinary monitor all that is computed for an orb at an ordinary
/// position is a coordinate.
pub proof fn orbs_fit_on_ordinary_monitors(monitor: Monitor, anchor: SavedPosition)
    requires
        monitor.is_ordinary(),
        is_ordinary_position(anchor),
    ensures
        monitor.places_fit(),
        monitor.middle_fits(anchor),
        monitor.nearness_fits(anchor.x as int),
        edge_place_fits(monitor, anchor),
{
}

/// Where all monitors are ordinary, the orb can be looked up on them, and its
/// distances to the edges are coordinates.
pub proof fn orbs_are_found_on_ordinary_monitors(
    window: WindowReadings,
    monitors: Vec<Monitor>,
    anchor: SavedPosition,
)
    requires
        window.monitors == Ok::<Vec<Monitor>, String>(monitors),
        forall|i: int| 0 <= i < monitors@.len() ==> (#[trigger] monitors@[i]).is_ordinary(),
        window.own_monitor() matches Ok(own) ==> own.is_ordinary(),
        is_ordinary_position(anchor),
    ensures
        window.search_fits(anchor),
        anchor_fits(window, anchor),
{
    lemma_middles_fit(monitors@, anchor);
    lemma_first_holding(monitors@, anchor);
}

/// The middle of the orb can be looked up on ordinary monitors.
proof fn lemma_middles_fit(monitors: Seq<Monitor>, anchor: SavedPosition)
    requires
        forall|i: int| 0 <= i < monitors.len() ==> (#[trigger] monitors[i]).is_ordinary(),
        is_ordinary_position(anchor),
    ensures
        middles_fit(monitors, anchor),
    decreases monitors.len(),
{
    if monitors.len() > 0 {
        assert(monitors[0].is_ordinary());
        let rest = monitors.drop_first();
        assert forall|i: int| 0 <= i < rest.len() implies (#[trigger] rest[i]).is_ordinary() by {
            assert(monitors[i + 1].is_ordinary());
        }
        lemma_middles_fit(rest, anchor);
    }
}

/// A window of an ordinary size, at an ordinary position on ordinary monitors,
/// has an anchor that can be computed.
pub proof fn anchors_fit_on_ordinary_monitors(
    window: WindowReadings,
    monitors: Vec<Monitor>,
    direction: Seq<char>,
    previous: Option<SavedPosition>,
    position: SavedPosition,
)
    requires
        window.monitors == Ok::<Vec<Monitor>, String>(monitors),
        forall|i: int| 0 <= i < monitors@.len() ==> (#[trigger] monitors@[i]).is_ordinary(),
        window.own_monitor() matches Ok(own) ==> own.is_ordinary(),
        window.size matches Ok(size) ==> size.width <= 0x100_0000,
        previous matches Some(previous) ==> is_ordinary_position(previous),
        -0x100_0000 <= position.x <= 0x100_0000,
    ensures
        window_anchor_fits(window, direction, previous, position),
{
    if let Some(anchor) = previous {
        orbs_are_found_on_ordinary_monitors(window, monitors, anchor);
        lemma_first_holding(monitors@, anchor);
    }
}

} // verus!
