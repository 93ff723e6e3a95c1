//! When clicks go through the floating window, and how it is stacked.

use vstd::prelude::*;
use vstd::string::*;

use crate::pixels::{share_is_a_nearest_pixel, share_of_length, signed_share};
use crate::placement::is_coordinate;
use crate::text::{
    ascii_lowered, differ_in_case_only, file_name, last_segment,
    last_segments_follow_the_last_slash, lowered_texts_differ_in_case_only,
    same_text_ignoring_ascii_case,
};

verus! {

/// The left edge of the pin button on a window of a given width.
pub open spec fn pin_left(left: int, width: int) -> int {
    left + signed_share(210, 308, width)
}

/// The right edge of the pin button on a window of a given width.
pub open spec fn pin_right(left: int, width: int) -> int {
    left + signed_share(252, 308, width)
}

/// The lower edge of the pin button on a window of a given height.
pub open spec fn pin_bottom(top: int, height: int) -> int {
    top + signed_share(38, 174, height)
}

/// Whether the edges of the pin button are coordinates.
pub open spec fn pin_fits(left: int, top: int, width: int, height: int) -> bool {
    &&& is_coordinate(pin_left(left, width))
    &&& is_coordinate(pin_right(left, width))
    &&& is_coordinate(pin_bottom(top, height))
}

/// Whether the pointer is on the pin button of a window.
pub open spec fn on_pin(
    cursor_x: int,
    cursor_y: int,
    left: int,
    top: int,
    width: int,
    height: int,
) -> bool {
    pin_left(left, width) <= cursor_x <= pin_right(left, width) && top <= cursor_y <= pin_bottom(
        top,
        height,
    )
}

/// Whether the pointer is on the pin button of a window. The button is laid out
/// on a window of 308 by 174 and grows with it.
pub fn is_floating_pin_hit(
    cursor_x: i32,
    cursor_y: i32,
    left: i32,
    top: i32,
    width: i32,
    height: i32,
) -> (hit: bool)
    requires
        pin_fits(left as int, top as int, width as int, height as int),
    ensures
        hit == on_pin(
            cursor_x as int,
            cursor_y as int,
            left as int,
            top as int,
            width as int,
            height as int,
        ),
{
    let button_left: i32 = left + share_of_length(210, 308, width);
    let button_right: i32 = left + share_of_length(252, 308, width);
    let button_bottom: i32 = top + share_of_length(38, 174, height);
    cursor_x >= button_left && cursor_x <= button_right && cursor_y >= top && cursor_y
        <= button_bottom
}

/// The programs that take screenshots, in small letters.
pub open spec fn screenshot_programs() -> Seq<Seq<char>> {
    seq![
        "snippingtool.exe"@,
        "screenclippinghost.exe"@,
        "screensketch.exe"@,
        "sharex.exe"@,
        "greenshot.exe"@,
        "lightshot.exe"@,
        "snagit.exe"@,
        "snagitcapture.exe"@,
        "picpick.exe"@,
        "faststonecapture.exe"@,
        "winsnap.exe"@,
    ]
}

/// Whether the program at a path takes screenshots, by the name of its file in
/// any case of its letters.
pub open spec fn takes_screenshots(path: Seq<char>) -> bool {
    screenshot_programs().contains(ascii_lowered(last_segment(path)))
}

/// Whether the program at a path takes screenshots.
pub fn is_screenshot_program(path: &str) -> (is: bool)
    ensures
        is == takes_screenshots(path@),
{
    let name = file_name(path);
    let programs: [&str; 11] = [
        "snippingtool.exe",
        "screenclippinghost.exe",
        "screensketch.exe",
        "sharex.exe",
        "greenshot.exe",
        "lightshot.exe",
        "snagit.exe",
        "snagitcapture.exe",
        "picpick.exe",
        "faststonecapture.exe",
        "winsnap.exe",
    ];
    let mut i: usize = 0;
    while i < 11
        invariant
            i <= 11,
            name@ == last_segment(path@),
            programs@.len() == 11,
            forall|j: int| 0 <= j < 11 ==> (#[trigger] programs@[j])@ == screenshot_programs()[j],
            forall|j: int|
                0 <= j < i ==> ascii_lowered(name@) != #[trigger] screenshot_programs()[j],
        decreases 11 - i,
    {
        proof {
            lemma_small_letters(i as int);
        }
        if same_text_ignoring_ascii_case(name, programs[i]) {
            assert(screenshot_programs()[i as int] == ascii_lowered(name@));
            return true;
        }
        i = i + 1;
    }
    false
}

/// The listed programs have no capitals.
proof fn lemma_small_letters(i: int)
    requires
        0 <= i < 11,
    ensures
        ascii_lowered(screenshot_programs()[i]) == screenshot_programs()[i],
{
    reveal_strlit("snippingtool.exe");
    reveal_strlit("screenclippinghost.exe");
    reveal_strlit("screensketch.exe");
    reveal_strlit("sharex.exe");
    reveal_strlit("greenshot.exe");
    reveal_strlit("lightshot.exe");
    reveal_strlit("snagit.exe");
    reveal_strlit("snagitcapture.exe");
    reveal_strlit("picpick.exe");
    reveal_strlit("faststonecapture.exe");
    reveal_strlit("winsnap.exe");
    assert(ascii_lowered(screenshot_programs()[i]) =~= screenshot_programs()[i]);
}

/// Whether a window belongs to a program that takes screenshots. The program's
/// path is missing where the window or its process is gone.
pub fn is_screenshot_capture_window(program: Option<&str>) -> (is: bool)
    ensures
        is == (match program {
            Some(path) => takes_screenshots(path@),
            None => false,
        }),
{
    match program {
        Some(path) => is_screenshot_program(path),
        None => false,
    }
}

/// The edges of a window on the desktop.
#[derive(Debug, Clone, Copy, PartialEq, Eq, Structural)]
pub struct WindowEdges {
    /// The left edge.
    pub left: i32,
    /// The upper edge.
    pub top: i32,
    /// The right edge.
    pub right: i32,
    /// The lower edge.
    pub bottom: i32,
}

impl WindowEdges {
    /// Whether the window's size and the edges of its pin button are
    /// coordinates.
    pub open spec fn fit(self) -> bool {
        &&& is_coordinate(self.right - self.left)
        &&& is_coordinate(self.bottom - self.top)
        &&& pin_fits(
            self.left as int,
            self.top as int,
            self.right - self.left,
            self.bottom - self.top,
        )
    }

    /// Tells whether [`Self::fit`] holds.
    pub fn check_fit(&self) -> (fits: bool)
        ensures
            fits == self.fit(),
    {
        let width: i64 = self.right as i64 - self.left as i64;
        let height: i64 = self.bottom as i64 - self.top as i64;
        if width < -0x8000_0000 || width > 0x7fff_ffff || height < -0x8000_0000 || height
            > 0x7fff_ffff {
            return false;
        }
        let left: i64 = self.left as i64 + share_of_length(210, 308, width as i32) as i64;
        let right: i64 = self.left as i64 + share_of_length(252, 308, width as i32) as i64;
        let bottom: i64 = self.top as i64 + share_of_length(38, 174, height as i32) as i64;
        -0x8000_0000 <= left && left <= 0x7fff_ffff && -0x8000_0000 <= right && right
            <= 0x7fff_ffff && -0x8000_0000 <= bottom && bottom <= 0x7fff_ffff
    }
}

/// How the floating window is stacked.
#[derive(Debug, Clone, Copy, PartialEq, Eq, Structural)]
pub enum StackOrder {
    /// Above all other windows.
    Topmost,
    /// Among the other windows.
    NotTopmost,
}

/// Whether clicks go through the floating window: only through a pinned card,
/// and not where its pin button is.
pub open spec fn lets_clicks_through(
    pinned: bool,
    orb_mode: bool,
    cursor_x: int,
    cursor_y: int,
    window: WindowEdges,
) -> bool {
    pinned && !orb_mode && !on_pin(
        cursor_x,
        cursor_y,
        window.left as int,
        window.top as int,
        window.right - window.left,
        window.bottom - window.top,
    )
}

/// What is remembered from one look at the pointer and the windows to the next.
#[derive(Debug, Clone, Copy, PartialEq, Eq, Structural)]
pub struct ClickThrough {
    /// Whether clicks go through the floating window.
    pub passthrough: bool,
    /// The handle of the window that was in front; zero at first.
    pub foreground: isize,
    /// Whether that window belongs to a program that takes screenshots.
    pub screenshot_overlay_active: bool,
}

impl ClickThrough {
    /// The state before the first look.
    pub fn new() -> (state: Self)
        ensures
            state == (ClickThrough {
                passthrough: false,
                foreground: 0,
                screenshot_overlay_active: false,
            }),
    {
        ClickThrough { passthrough: false, foreground: 0, screenshot_overlay_active: false }
    }

    /// Notes which window is in front. Returns whether it is another one than
    /// before, whose program has to be looked at.
    pub fn notice_foreground(&mut self, foreground: isize) -> (changed: bool)
        ensures
            changed == (foreground != old(self).foreground),
            *final(self) == (ClickThrough { foreground, ..*old(self) }),
    {
        if foreground != self.foreground {
            self.foreground = foreground;
            true
        } else {
            false
        }
    }

    /// Notes whether the window in front takes screenshots. Returns how the
    /// floating window is stacked from now on, where that changes: below while
    /// a screenshot is taken, and on top again after it if it is kept on top.
    pub fn notice_capture(&mut self, capture_active: bool, always_on_top: bool) -> (order: Option<
        StackOrder,
    >)
        ensures
            order == (if capture_active == old(self).screenshot_overlay_active {
                None
            } else if capture_active {
                Some(StackOrder::NotTopmost)
            } else if always_on_top {
                Some(StackOrder::Topmost)
            } else {
                None
            }),
            order == restacked_for_capture(
                old(self).screenshot_overlay_active,
                capture_active,
                always_on_top,
            ),
            *final(self) == (ClickThrough {
                screenshot_overlay_active: capture_active,
                ..*old(self)
            }),
    {
        if capture_active != self.screenshot_overlay_active {
            self.screenshot_overlay_active = capture_active;
            if capture_active {
                Some(StackOrder::NotTopmost)
            } else if always_on_top {
                Some(StackOrder::Topmost)
            } else {
                None
            }
        } else {
            None
        }
    }

    /// Whether it is time to look if the floating window is still on top: once
    /// a second if it is kept on top, and never while a screenshot is taken.
    pub fn stacking_is_due(&self, elapsed_millis: u64, always_on_top: bool) -> (due: bool)
        ensures
            due == (always_on_top && !self.screenshot_overlay_active && elapsed_millis >= 1000),
            due == is_stacking_due(
                always_on_top,
                self.screenshot_overlay_active,
                elapsed_millis as int,
            ),
    {
        always_on_top && !self.screenshot_overlay_active && elapsed_millis >= 1000
    }

    /// How the floating window is stacked after a look at the windows above it:
    /// on top, if it is shown and another one is above it.
    pub fn restack(visible: bool, covered: bool) -> (order: Option<StackOrder>)
        ensures
            order == (if visible && covered {
                Some(StackOrder::Topmost)
            } else {
                None
            }),
    {
        if visible && covered {
            Some(StackOrder::Topmost)
        } else {
            None
        }
    }

    /// Notes where the pointer is. Returns whether clicks go through the
    /// floating window from now on, where that changes.
    pub fn notice_pointer(
        &mut self,
        pinned: bool,
        orb_mode: bool,
        cursor_x: i32,
        cursor_y: i32,
        window: WindowEdges,
    ) -> (change: Option<bool>)
        requires
            window.fit(),
        ensures
            final(self).passthrough == lets_clicks_through(
                pinned,
                orb_mode,
                cursor_x as int,
                cursor_y as int,
                window,
            ),
            *final(self) == (ClickThrough { passthrough: final(self).passthrough, ..*old(self) }),
            change == (if final(self).passthrough == old(self).passthrough {
                None
            } else {
                Some(final(self).passthrough)
            }),
    {
        let over_pin = is_floating_pin_hit(
            cursor_x,
            cursor_y,
            window.left,
            window.top,
            window.right - window.left,
            window.bottom - window.top,
        );
        let passthrough = pinned && !orb_mode && !over_pin;
        if passthrough != self.passthrough {
            self.passthrough = passthrough;
            Some(passthrough)
        } else {
            None
        }
    }
}

/// A window that is not pinned, the orb, and the pin button of a pinned card
/// take every click; a pinned card lets every click through beside its button.
pub proof fn only_the_pin_button_of_a_pinned_card_takes_clicks(
    pinned: bool,
    orb_mode: bool,
    cursor_x: int,
    cursor_y: int,
    window: WindowEdges,
)
    ensures
        !pinned || orb_mode ==> !lets_clicks_through(
            pinned,
            orb_mode,
            cursor_x,
            cursor_y,
            window,
        ),
        pinned && !orb_mode ==> lets_clicks_through(pinned, orb_mode, cursor_x, cursor_y, window)
            == !on_pin(
            cursor_x,
            cursor_y,
            window.left as int,
            window.top as int,
            window.right - window.left,
            window.bottom - window.top,
        ),
{
}

/// The pin button of a window takes the width from 210 to 252 parts in 308 of
/// it, and the height from its upper edge to 38 parts in 174: a pointer that is
/// half a pixel or more inside is on the button, and one that is more than half
/// a pixel outside is not.
pub proof fn the_pin_button_grows_with_the_window(
    cursor_x: int,
    cursor_y: int,
    left: int,
    top: int,
    width: int,
    height: int,
)
    requires
        0 <= width <= i32::MAX,
        0 <= height <= i32::MAX,
    ensures
        on_pin(cursor_x, cursor_y, left, top, width, height) ==> {
            &&& 210 * width - 154 <= 308 * (cursor_x - left) <= 252 * width + 154
            &&& 0 <= cursor_y - top
            &&& 174 * (cursor_y - top) <= 38 * height + 87
        },
        ({
            &&& 210 * width + 154 <= 308 * (cursor_x - left) <= 252 * width - 154
            &&& 0 <= cursor_y - top
            &&& 174 * (cursor_y - top) <= 38 * height - 87
        }) ==> on_pin(cursor_x, cursor_y, left, top, width, height),
{
    share_is_a_nearest_pixel(210, 308, width as nat);
    share_is_a_nearest_pixel(252, 308, width as nat);
    share_is_a_nearest_pixel(38, 174, height as nat);
}

/// A pinned card takes no click beside its pin button: in its left half, in
/// its lower half, and outside of it.
pub proof fn pinned_cards_let_clicks_through(
    cursor_x: int,
    cursor_y: int,
    window: WindowEdges,
)
    requires
        3 <= window.right - window.left <= i32::MAX,
        2 <= window.bottom - window.top <= i32::MAX,
        ({
            ||| 2 * (cursor_x - window.left) <= window.right - window.left
            ||| 2 * (cursor_y - window.top) >= window.bottom - window.top
            ||| cursor_x > window.right
            ||| cursor_y < window.top
        }),
    ensures
        lets_clicks_through(true, false, cursor_x, cursor_y, window),
{
    the_pin_button_grows_with_the_window(
        cursor_x,
        cursor_y,
        window.left as int,
        window.top as int,
        window.right - window.left,
        window.bottom - window.top,
    );
}

/// A program takes screenshots exactly where the name of its file is one of
/// eleven names, in any case of its letters and in any directory.
pub proof fn screenshots_are_taken_by_known_programs(directory: Seq<char>, name: Seq<char>)
    requires
        !name.contains('/'),
        !name.contains('\\'),
    ensures
        takes_screenshots(directory.push('/') + name) == takes_screenshots(name),
        takes_screenshots(directory.push('\\') + name) == takes_screenshots(name),
        takes_screenshots(name) <==> {
            ||| differ_in_case_only(name, "snippingtool.exe"@)
            ||| differ_in_case_only(name, "screenclippinghost.exe"@)
            ||| differ_in_case_only(name, "screensketch.exe"@)
            ||| differ_in_case_only(name, "sharex.exe"@)
            ||| differ_in_case_only(name, "greenshot.exe"@)
            ||| differ_in_case_only(name, "lightshot.exe"@)
            ||| differ_in_case_only(name, "snagit.exe"@)
            ||| differ_in_case_only(name, "snagitcapture.exe"@)
            ||| differ_in_case_only(name, "picpick.exe"@)
            ||| differ_in_case_only(name, "faststonecapture.exe"@)
            ||| differ_in_case_only(name, "winsnap.exe"@)
        },
{
    last_segments_follow_the_last_slash(directory, name);
    let programs = screenshot_programs();
    assert forall|i: int| 0 <= i < 11 implies (ascii_lowered(name) == #[trigger] programs[i]
        <==> differ_in_case_only(name, programs[i])) by {
        lemma_small_letters(i);
        lowered_texts_differ_in_case_only(name, programs[i]);
    }
    assert(programs[0] == "snippingtool.exe"@);
    assert(programs[1] == "screenclippinghost.exe"@);
    assert(programs[2] == "screensketch.exe"@);
    assert(programs[3] == "sharex.exe"@);
    assert(programs[4] == "greenshot.exe"@);
    assert(programs[5] == "lightshot.exe"@);
    assert(programs[6] == "snagit.exe"@);
    assert(programs[7] == "snagitcapture.exe"@);
    assert(programs[8] == "picpick.exe"@);
    assert(programs[9] == "faststonecapture.exe"@);
    assert(programs[10] == "winsnap.exe"@);
    if takes_screenshots(name) {
        let i = choose|i: int| 0 <= i < programs.len() && programs[i] == ascii_lowered(name);
        assert(differ_in_case_only(name, programs[i]));
    }
}

/// How the floating window is stacked after a look at whether a screenshot is
/// taken, where that changes.
pub open spec fn restacked_for_capture(
    was_active: bool,
    is_active: bool,
    always_on_top: bool,
) -> Option<StackOrder> {
    match (was_active, is_active) {
        (false, true) => Some(StackOrder::NotTopmost),
        (true, false) if always_on_top => Some(StackOrder::Topmost),
        _ => None,
    }
}

/// Whether it is time to look if the floating window is still on top.
pub open spec fn is_stacking_due(always_on_top: bool, capturing: bool, elapsed_millis: int) -> bool {
    &&& always_on_top
    &&& !capturing
    &&& elapsed_millis >= 1000
}

/// While a screenshot is taken the floating window is not on top, however it is
/// kept. After it the window is on top again exactly where it is kept on top.
/// Nothing is changed as long as it goes on, or as long as there is none.
pub proof fn screenshots_are_not_covered(always_on_top: bool)
    ensures
        restacked_for_capture(false, true, always_on_top) == Some(StackOrder::NotTopmost),
        restacked_for_capture(true, false, always_on_top) == Some(StackOrder::Topmost)
            <==> always_on_top,
        restacked_for_capture(true, false, always_on_top) != Some(StackOrder::NotTopmost),
        restacked_for_capture(true, true, always_on_top) is None,
        restacked_for_capture(false, false, always_on_top) is None,
{
}

/// The place on top is looked after once a second has passed, and from then on;
/// never earlier, never while a screenshot is taken, and never for a window that
/// is not kept on top.
pub proof fn the_place_on_top_is_looked_after_each_second(
    always_on_top: bool,
    capturing: bool,
    elapsed_millis: int,
)
    ensures
        is_stacking_due(true, false, 1000),
        elapsed_millis < 1000 ==> !is_stacking_due(always_on_top, capturing, elapsed_millis),
        !is_stacking_due(always_on_top, true, elapsed_millis),
        !is_stacking_due(false, capturing, elapsed_millis),
        is_stacking_due(always_on_top, capturing, elapsed_millis) ==> is_stacking_due(
            always_on_top,
            capturing,
            elapsed_millis + 1,
        ),
{
}

} // verus!
