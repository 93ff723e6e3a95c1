//! What happens to the windows: when they are shown, moved, closed, and put
//! back where they were.

use vstd::prelude::*;
use vstd::string::*;

use crate::desk::{
    center_main_window, check_corner, check_middle, check_snap, check_visible, corner, corner_fits,
    is_visible, is_visible_fits, main_monitor_and_size, middle, middle_fits, position_floating,
    position_is_visible, seen_on, snap_orb_to_edge, snapped, snapped_fits,
};
use crate::orb::{
    check_window_anchor, orb_anchor_from_window, window_anchor, window_anchor_fits, Monitor,
    WindowReadings, WindowSize,
};
use crate::placement::{smaller, visible_part, SavedPosition};
use crate::state::{
    is_style, remember_floating_position, remembered, saved_floating_position, saved_place,
    PersistedState,
};
use crate::text::same_text;

verus! {

/// One thing that is done to the floating window.
#[derive(Debug, Clone, Copy, PartialEq, Eq, Structural)]
pub enum WindowStep {
    /// Keep it above all others, or not.
    KeepOnTop(bool),
    /// Show it.
    Show,
    /// Give it the keyboard.
    Focus,
    /// Hide it.
    Hide,
}

/// What is done to the floating window to show or hide it: a pinned one is not
/// given the keyboard.
pub open spec fn showing(visible: bool, pinned: bool, always_on_top: bool) -> Seq<WindowStep> {
    if !visible {
        seq![WindowStep::Hide]
    } else if pinned {
        seq![WindowStep::KeepOnTop(always_on_top), WindowStep::Show]
    } else {
        seq![WindowStep::KeepOnTop(always_on_top), WindowStep::Show, WindowStep::Focus]
    }
}

/// What is done to the floating window to show or hide it.
pub fn visibility_steps(data: &PersistedState, visible: bool) -> (steps: Vec<WindowStep>)
    ensures
        steps@ == showing(visible, data.floating_pinned, data.floating_always_on_top),
{
    let mut steps: Vec<WindowStep> = Vec::new();
    if visible {
        steps.push(WindowStep::KeepOnTop(data.floating_always_on_top));
        steps.push(WindowStep::Show);
        if !data.floating_pinned {
            steps.push(WindowStep::Focus);
        }
    } else {
        steps.push(WindowStep::Hide);
    }
    assert(steps@ =~= showing(visible, data.floating_pinned, data.floating_always_on_top));
    steps
}

/// What is done to the floating window at the start, once it is in its place.
pub fn restore_steps(data: &PersistedState) -> (steps: Vec<WindowStep>)
    ensures
        steps@ == (if data.floating_visible {
            seq![WindowStep::KeepOnTop(data.floating_always_on_top), WindowStep::Show]
        } else {
            seq![WindowStep::KeepOnTop(data.floating_always_on_top)]
        }),
        steps@ == restoring(data.floating_visible, data.floating_always_on_top),
{
    let mut steps: Vec<WindowStep> = Vec::new();
    steps.push(WindowStep::KeepOnTop(data.floating_always_on_top));
    if data.floating_visible {
        steps.push(WindowStep::Show);
    }
    steps
}

/// The place that is noted for a floating window at a position: that of the orb
/// itself in its style, as far as the desktop gives an answer.
pub open spec fn noted_place(
    data: PersistedState,
    window: WindowReadings,
    position: SavedPosition,
) -> SavedPosition {
    if data.floating_style@ == "orb"@ {
        match window_anchor(
            window,
            data.floating_orb_expand_direction@,
            data.floating_orb_position,
            position,
        ) {
            Some(anchor) => anchor,
            None => position,
        }
    } else {
        position
    }
}

/// Whether everything that [`noted_place`] is computed from fits.
pub open spec fn noted_place_fits(
    data: PersistedState,
    window: WindowReadings,
    position: SavedPosition,
) -> bool {
    data.floating_style@ == "orb"@ ==> window_anchor_fits(
        window,
        data.floating_orb_expand_direction@,
        data.floating_orb_position,
        position,
    )
}

/// The place that is noted for a floating window at a position.
fn place_to_note(data: &PersistedState, window: &WindowReadings, position: SavedPosition) -> (place:
    SavedPosition)
    requires
        noted_place_fits(*data, *window, position),
    ensures
        place == noted_place(*data, *window, position),
{
    if same_text(data.floating_style.as_str(), "orb") {
        match orb_anchor_from_window(
            window,
            data.floating_orb_expand_direction.as_str(),
            data.floating_orb_position,
            position,
        ) {
            Some(anchor) => anchor,
            None => position,
        }
    } else {
        position
    }
}

/// Tells whether [`noted_place_fits`] holds.
pub fn check_noted_place(
    data: &PersistedState,
    window: &WindowReadings,
    position: SavedPosition,
) -> (is: bool)
    ensures
        is == noted_place_fits(*data, *window, position),
{
    !same_text(data.floating_style.as_str(), "orb") || check_window_anchor(
        window,
        data.floating_orb_expand_direction.as_str(),
        data.floating_orb_position,
        position,
    )
}

/// Whether the place of the floating window is looked at after a window was
/// moved: as long as the orb is neither shown nor dragged.
pub open spec fn looks_at_floating(label: Seq<char>, orb_mode: bool, dragging: bool) -> bool {
    label == "floating"@ && !orb_mode && !dragging
}

/// What is remembered after a window was moved: the place of the main window,
/// and that of the floating one as long as the orb is neither shown nor
/// dragged.
pub open spec fn after_move(
    data: PersistedState,
    label: Seq<char>,
    window: WindowReadings,
    position: SavedPosition,
    orb_mode: bool,
    dragging: bool,
) -> PersistedState {
    if label == "main"@ {
        PersistedState { main_position: Some(position), ..data }
    } else if looks_at_floating(label, orb_mode, dragging) {
        remembered(data, noted_place(data, window, position))
    } else {
        data
    }
}

/// Whether the place of the floating window is looked at after a window was
/// moved.
pub fn notes_floating_move(label: &str, orb_mode: bool, dragging: bool) -> (looks: bool)
    ensures
        looks == looks_at_floating(label@, orb_mode, dragging),
{
    same_text(label, "floating") && !orb_mode && !dragging
}

/// Notes that a window was moved. Returns whether there is anything new to
/// keep.
pub fn note_moved(
    data: &mut PersistedState,
    label: &str,
    window: &WindowReadings,
    position: SavedPosition,
    orb_mode: bool,
    dragging: bool,
) -> (noted: bool)
    requires
        looks_at_floating(label@, orb_mode, dragging) ==> noted_place_fits(
            *old(data),
            *window,
            position,
        ),
    ensures
        *final(data) == after_move(*old(data), label@, *window, position, orb_mode, dragging),
        noted == (label@ == "main"@ || looks_at_floating(label@, orb_mode, dragging)),
        old(data).has_known_settings() ==> final(data).has_known_settings(),
{
    proof {
        reveal_strlit("main");
        reveal_strlit("floating");
        assert("main"@.len() != "floating"@.len());
    }
    if same_text(label, "main") {
        data.main_position = Some(position);
        return true;
    }
    if !notes_floating_move(label, orb_mode, dragging) {
        return false;
    }
    let place = place_to_note(data, window, position);
    remember_floating_position(data, place);
    true
}

/// What is remembered when the floating window gives up its style for another
/// one: where it stood.
pub open spec fn after_leaving(
    data: PersistedState,
    style: Seq<char>,
    window: WindowReadings,
) -> PersistedState {
    if data.floating_style@ == style {
        data
    } else {
        match window.position {
            Ok(position) => remembered(data, noted_place(data, window, position)),
            Err(_) => data,
        }
    }
}

/// Whether everything that [`after_leaving`] is computed from fits.
pub open spec fn leaving_fits(
    data: PersistedState,
    style: Seq<char>,
    window: WindowReadings,
) -> bool {
    data.floating_style@ != style && window.position is Ok ==> noted_place_fits(
        data,
        window,
        window.position->Ok_0,
    )
}

/// Notes where the floating window stands before it takes on a style. Returns
/// whether there is anything new to keep.
pub fn leave_floating_style(data: &mut PersistedState, style: &str, window: &WindowReadings) -> (noted:
    bool)
    requires
        leaving_fits(*old(data), style@, *window),
    ensures
        *final(data) == after_leaving(*old(data), style@, *window),
        noted == (old(data).floating_style@ != style@ && window.position is Ok),
        old(data).has_known_settings() ==> final(data).has_known_settings(),
{
    if same_text(data.floating_style.as_str(), style) {
        return false;
    }
    match &window.position {
        Ok(position) => {
            let place = place_to_note(data, window, *position);
            remember_floating_position(data, place);
            true
        },
        Err(_) => false,
    }
}

/// Tells whether [`leaving_fits`] holds.
pub fn check_leaving(data: &PersistedState, style: &str, window: &WindowReadings) -> (is: bool)
    ensures
        is == leaving_fits(*data, style@, *window),
{
    if same_text(data.floating_style.as_str(), style) {
        return true;
    }
    match &window.position {
        Ok(position) => check_noted_place(data, window, *position),
        Err(_) => true,
    }
}

/// A change of style keeps the place of the style that is left, where the
/// desktop names it, and leaves the place of the new style as it was.
pub proof fn changing_the_style_keeps_both_places(
    data: PersistedState,
    style: Seq<char>,
    window: WindowReadings,
)
    requires
        is_style(data.floating_style@),
        is_style(style),
        style != data.floating_style@,
    ensures
        ({
            let left = after_leaving(data, style, window);
            &&& saved_place(left, style) == saved_place(data, style)
            &&& window.position matches Ok(position) ==> saved_place(left, data.floating_style@)
                == Some(noted_place(data, window, position))
            &&& window.position is Err ==> left == data
        }),
{
    if let Ok(position) = window.position {
        let place = noted_place(data, window, position);
        crate::state::places_of_the_styles_are_kept_apart(data, place, style);
        crate::state::places_of_the_styles_are_kept_apart(data, place, data.floating_style@);
    }
}

/// Where the floating window goes in a style: where it was, and if it never was
/// anywhere, the orb to the nearer edge and the card to the corner of the main
/// monitor. It stays where it is where the desktop gives no answer.
pub open spec fn floating_place(
    data: PersistedState,
    style: Seq<char>,
    window: WindowReadings,
) -> Option<SavedPosition> {
    match saved_place(data, style) {
        Some(position) => Some(position),
        None => if style == "orb"@ {
            match snapped(window) {
                Ok((position, _)) => Some(position),
                Err(_) => None,
            }
        } else {
            match main_monitor_and_size(window) {
                Some((monitor, size)) => Some(corner(monitor, size)),
                None => None,
            }
        },
    }
}

/// Whether everything that [`floating_place`] is computed from fits.
pub open spec fn floating_place_fits(
    data: PersistedState,
    style: Seq<char>,
    window: WindowReadings,
) -> bool {
    saved_place(data, style) is None ==> {
        &&& style == "orb"@ ==> snapped_fits(window)
        &&& style != "orb"@ ==> (main_monitor_and_size(window) matches Some((monitor, size))
            ==> corner_fits(monitor, size))
    }
}

/// Where the floating window goes in a style.
pub fn floating_window_place(data: &PersistedState, style: &str, window: &WindowReadings) -> (place:
    Option<SavedPosition>)
    requires
        floating_place_fits(*data, style@, *window),
    ensures
        place == floating_place(*data, style@, *window),
{
    match saved_floating_position(data, style) {
        Some(position) => Some(position),
        None => {
            if same_text(style, "orb") {
                match snap_orb_to_edge(window) {
                    Ok((position, _)) => Some(position),
                    Err(_) => None,
                }
            } else {
                position_floating(window)
            }
        },
    }
}

/// Tells whether [`floating_place_fits`] holds.
pub fn check_floating_place(data: &PersistedState, style: &str, window: &WindowReadings) -> (is: bool)
    ensures
        is == floating_place_fits(*data, style@, *window),
{
    match saved_floating_position(data, style) {
        Some(_) => true,
        None => {
            if same_text(style, "orb") {
                check_snap(window)
            } else {
                check_corner(window)
            }
        },
    }
}

/// What is done to the orb's window after the orb was given another direction.
#[derive(Debug, Clone, Copy, PartialEq, Eq, Structural)]
pub enum OrbRefresh {
    /// Nothing: the floating window is a card.
    Nothing,
    /// It is laid out around the orb's last place.
    Display { anchor: SavedPosition },
    /// It is laid out around the orb as it stands.
    Relayout,
}

/// What is done to the orb's window after the orb was given another direction.
pub fn orb_refresh(data: &PersistedState) -> (refresh: OrbRefresh)
    ensures
        refresh == (if data.floating_style@ != "orb"@ {
            OrbRefresh::Nothing
        } else {
            match data.floating_orb_position {
                Some(anchor) => OrbRefresh::Display { anchor },
                None => OrbRefresh::Relayout,
            }
        }),
        refresh == refreshing(data.floating_style@, data.floating_orb_position),
{
    if !same_text(data.floating_style.as_str(), "orb") {
        return OrbRefresh::Nothing;
    }
    match data.floating_orb_position {
        Some(anchor) => OrbRefresh::Display { anchor },
        None => OrbRefresh::Relayout,
    }
}

/// Where the main window goes at the start: where it was, if enough of it is
/// seen there, and else to the middle of the main monitor. The window toolkit
/// has to choose where the desktop gives no answer.
pub open spec fn main_place(data: PersistedState, window: WindowReadings) -> Option<SavedPosition> {
    match data.main_position {
        Some(position) if is_visible(window, position) => Some(position),
        _ => match main_monitor_and_size(window) {
            Some((monitor, size)) => Some(middle(monitor, size)),
            None => None,
        },
    }
}

/// Whether everything that [`main_place`] is computed from fits.
pub open spec fn main_place_fits(data: PersistedState, window: WindowReadings) -> bool {
    &&& data.main_position matches Some(position) ==> is_visible_fits(window, position)
    &&& (data.main_position matches Some(position) && is_visible(window, position)) || (
    main_monitor_and_size(window) matches Some((monitor, size)) ==> middle_fits(monitor, size))
}

/// Where the main window goes at the start.
pub fn main_window_place(data: &PersistedState, window: &WindowReadings) -> (place: Option<
    SavedPosition,
>)
    requires
        main_place_fits(*data, *window),
    ensures
        place == main_place(*data, *window),
{
    if let Some(position) = data.main_position {
        if position_is_visible(window, position) {
            return Some(position);
        }
    }
    center_main_window(window)
}

/// Tells whether [`main_place_fits`] holds.
pub fn check_main_place(data: &PersistedState, window: &WindowReadings) -> (is: bool)
    ensures
        is == main_place_fits(*data, *window),
{
    if let Some(position) = data.main_position {
        if !check_visible(window, position) {
            return false;
        }
        if position_is_visible(window, position) {
            return true;
        }
    }
    check_middle(window)
}

/// A main window that is put back is seen, also where its old place lies beside
/// all monitors: at its old place, or in the middle of the main monitor. This
/// holds of each window that is large enough to be seen, on a main monitor that
/// has room for as much of it as has to be seen.
pub proof fn main_windows_that_are_put_back_are_seen(
    data: PersistedState,
    window: WindowReadings,
    monitor: Monitor,
    size: WindowSize,
)
    requires
        main_place_fits(data, window),
        main_monitor_and_size(window) == Some((monitor, size)),
        smaller(size.width as int, monitor.width as int) >= visible_part(size.width, 180, 80),
        smaller(size.height as int, monitor.height as int) >= visible_part(size.height, 140, 70),
        size.width <= i32::MAX,
        size.height <= i32::MAX,
        monitor.width <= i32::MAX,
        monitor.height <= i32::MAX,
    ensures
        main_place(data, window) matches Some(place) && (is_visible(window, place) || (place
            == middle(monitor, size) && seen_on(monitor, size, place))),
        window.monitors matches Ok(monitors) && monitors@.contains(monitor) ==> (main_place(
            data,
            window,
        ) matches Some(place) && is_visible(window, place)),
{
    let put_back = !(data.main_position matches Some(position) && is_visible(window, position));
    if put_back {
        crate::desk::centered_windows_are_seen(monitor, size);
    }
}

/// Whether a window is hidden after its size was changed: the main one, once it
/// is minimized.
pub fn hides_when_resized(label: &str, minimized: bool) -> (hides: bool)
    ensures
        hides == (label@ == "main"@ && minimized),
{
    same_text(label, "main") && minimized
}

/// What closing a window comes to.
#[derive(Debug, Clone, Copy, PartialEq, Eq, Structural)]
pub enum CloseAction {
    /// The application ends.
    Quit,
    /// The floating window is hidden.
    HideFloating,
    /// The window is closed.
    Close,
}

/// What closing a window comes to.
pub fn close_action(label: &str) -> (action: CloseAction)
    ensures
        action == (if label@ == "main"@ {
            CloseAction::Quit
        } else if label@ == "floating"@ {
            CloseAction::HideFloating
        } else {
            CloseAction::Close
        }),
        action == closing(label@),
{
    if same_text(label, "main") {
        CloseAction::Quit
    } else if same_text(label, "floating") {
        CloseAction::HideFloating
    } else {
        CloseAction::Close
    }
}

/// Hiding the floating window is all that is done to hide it. To show it, it is
/// first stacked as it is set and then shown, it is never hidden, and it is
/// given the keyboard, last of all, exactly where it is not pinned.
pub proof fn pinned_windows_do_not_take_the_keyboard(
    pinned: bool,
    always_on_top: bool,
)
    ensures
        showing(false, pinned, always_on_top) == seq![WindowStep::Hide],
        ({
            let steps = showing(true, pinned, always_on_top);
            &&& steps.len() >= 2
            &&& steps[0] == WindowStep::KeepOnTop(always_on_top)
            &&& steps[1] == WindowStep::Show
            &&& !steps.contains(WindowStep::Hide)
            &&& steps.contains(WindowStep::Focus) <==> !pinned
            &&& !pinned ==> steps.last() == WindowStep::Focus
        }),
{
    let steps = showing(true, pinned, always_on_top);
    if !pinned {
        assert(steps[2] == WindowStep::Focus);
    }
}

/// The place of a card is where its window is. The place of an orb is its
/// anchor, and where its window is only where the desktop does not tell.
pub proof fn the_place_of_an_orb_is_its_anchor(
    data: PersistedState,
    window: WindowReadings,
    position: SavedPosition,
    anchor: SavedPosition,
)
    ensures
        data.floating_style@ != "orb"@ ==> noted_place(data, window, position) == position,
        data.floating_style@ == "orb"@ ==> {
            let found = window_anchor(
                window,
                data.floating_orb_expand_direction@,
                data.floating_orb_position,
                position,
            );
            &&& found == Some(anchor) ==> noted_place(data, window, position) == anchor
            &&& found is None ==> noted_place(data, window, position) == position
        },
{
}

/// A main window that was moved is remembered where it is now, and nothing else
/// changes. A floating window that was moved is remembered for its style, unless
/// the orb is shown or dragged; then, and for any other window, nothing changes.
pub proof fn moved_windows_are_remembered(
    data: PersistedState,
    label: Seq<char>,
    window: WindowReadings,
    position: SavedPosition,
    orb_mode: bool,
    dragging: bool,
)
    ensures
        ({
            let after = after_move(data, label, window, position, orb_mode, dragging);
            &&& label == "main"@ ==> after.main_position == Some(position) && after == (
            PersistedState { main_position: Some(position), ..data })
            &&& label != "main"@ ==> after.main_position == data.main_position
            &&& label == "floating"@ && !orb_mode && !dragging ==> {
                let place = Some(noted_place(data, window, position));
                if data.floating_style@ == "orb"@ {
                    after == (PersistedState { floating_orb_position: place, ..data })
                } else {
                    after == (PersistedState { floating_card_position: place, ..data })
                }
            }
            &&& label == "floating"@ && (orb_mode || dragging) ==> after == data
            &&& label != "main"@ && label != "floating"@ ==> after == data
        }),
{
    reveal_strlit("main");
    reveal_strlit("floating");
    assert("main"@.len() != "floating"@.len());
}

/// A floating window that keeps its style is not noted.
pub proof fn keeping_the_style_changes_nothing(data: PersistedState, window: WindowReadings)
    ensures
        after_leaving(data, data.floating_style@, window) == data,
{
}

/// A floating window goes back to where it was in its style, wherever that is.
/// An orb that never was anywhere goes to the nearer edge, and a card to the
/// corner of the main monitor.
pub proof fn floating_windows_go_back(
    data: PersistedState,
    style: Seq<char>,
    window: WindowReadings,
    position: SavedPosition,
    side: Seq<char>,
)
    ensures
        data.floating_orb_position is Some ==> floating_place(data, "orb"@, window)
            == data.floating_orb_position,
        style != "orb"@ && data.floating_card_position is Some ==> floating_place(
            data,
            style,
            window,
        ) == data.floating_card_position,
        style != "orb"@ && data.floating_card_position is None && data.floating_position is Some
            ==> floating_place(data, style, window) == data.floating_position,
        data.floating_orb_position is None ==> {
            &&& snapped(window) == Ok::<(SavedPosition, Seq<char>), Seq<char>>((position, side))
                ==> floating_place(data, "orb"@, window) == Some(position)
            &&& snapped(window) is Err ==> floating_place(data, "orb"@, window) is None
        },
        style != "orb"@ && data.floating_card_position is None && data.floating_position is None
            ==> match (window.primary_monitor, window.size) {
            (Ok(Some(monitor)), Ok(size)) => floating_place(data, style, window) == Some(
                corner(monitor, size),
            ),
            _ => floating_place(data, style, window) is None,
        },
{
}

/// A main window goes back to exactly where it was, if it is visible there. If
/// it is not, or never was anywhere, it goes to the middle of the main monitor;
/// nothing is chosen where the desktop does not name that monitor or the size of
/// the window.
pub proof fn main_windows_go_back_where_they_are_visible(
    data: PersistedState,
    window: WindowReadings,
    position: SavedPosition,
)
    ensures
        data.main_position == Some(position) && is_visible(window, position) ==> main_place(
            data,
            window,
        ) == Some(position),
        data.main_position is None || (data.main_position == Some(position) && !is_visible(
            window,
            position,
        )) ==> match (window.primary_monitor, window.size) {
            (Ok(Some(monitor)), Ok(size)) => main_place(data, window) == Some(
                middle(monitor, size),
            ),
            _ => main_place(data, window) is None,
        },
{
}

/// What is done to the floating window at the start.
pub open spec fn restoring(visible: bool, always_on_top: bool) -> Seq<WindowStep> {
    if visible {
        seq![WindowStep::KeepOnTop(always_on_top), WindowStep::Show]
    } else {
        seq![WindowStep::KeepOnTop(always_on_top)]
    }
}

/// What closing a window with a label comes to.
pub open spec fn closing(label: Seq<char>) -> CloseAction {
    if label == "main"@ {
        CloseAction::Quit
    } else if label == "floating"@ {
        CloseAction::HideFloating
    } else {
        CloseAction::Close
    }
}

/// What is done to the orb's window after the orb was given another direction.
pub open spec fn refreshing(style: Seq<char>, anchor: Option<SavedPosition>) -> OrbRefresh {
    if style == "orb"@ {
        match anchor {
            Some(anchor) => OrbRefresh::Display { anchor },
            None => OrbRefresh::Relayout,
        }
    } else {
        OrbRefresh::Nothing
    }
}

/// At the start the floating window is stacked as it was, before anything else.
/// It is shown exactly where it was shown, and it is never given the keyboard
/// nor hidden.
pub proof fn floating_windows_start_as_they_were(visible: bool, always_on_top: bool)
    ensures
        ({
            let steps = restoring(visible, always_on_top);
            &&& steps[0] == WindowStep::KeepOnTop(always_on_top)
            &&& steps.contains(WindowStep::Show) <==> visible
            &&& !steps.contains(WindowStep::Focus)
            &&& !steps.contains(WindowStep::Hide)
            &&& steps.len() == if visible {
                2int
            } else {
                1
            }
        }),
{
    if visible {
        assert(restoring(visible, always_on_top)[1] == WindowStep::Show);
    }
}

/// Closing the main window ends the application, and closing no other window
/// does. The floating window is hidden in place of being closed, and no other
/// window is.
pub proof fn closing_the_main_window_ends_the_application(label: Seq<char>)
    ensures
        closing(label) == CloseAction::Quit <==> label == "main"@,
        closing(label) == CloseAction::HideFloating <==> label == "floating"@,
        closing(label) == CloseAction::Close <==> label != "main"@ && label != "floating"@,
{
    reveal_strlit("main");
    reveal_strlit("floating");
    assert("main"@.len() != "floating"@.len());
}

/// Another direction changes nothing of a card. An orb is laid out around its
/// last place, and as it stands where it has none.
pub proof fn only_orbs_are_laid_out_anew(
    style: Seq<char>,
    anchor: Option<SavedPosition>,
)
    ensures
        refreshing(style, anchor) == OrbRefresh::Nothing <==> style != "orb"@,
        refreshing("orb"@, anchor) == OrbRefresh::Relayout <==> anchor is None,
        anchor matches Some(place) ==> refreshing("orb"@, anchor) == (OrbRefresh::Display {
            anchor: place,
        }),
{
}

} // verus!
