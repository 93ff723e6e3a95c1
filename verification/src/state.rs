//! What is remembered from one start of the application to the next.

use vstd::prelude::*;
use vstd::string::*;

use crate::launcher::{place, Lookup};
use crate::placement::{is_expand_direction, normalize_orb_expand_direction, SavedPosition};
use crate::proxy::{
    completed_addresses_are_complete, normalize_proxy_address, proxy_address, proxy_changes,
    NetworkSettings,
};
use crate::text::{same_text, texts, trim, trimmed};
use crate::usage::UsageSnapshot;

verus! {

/// What is remembered.
#[derive(Debug)]
pub struct PersistedState {
    /// Where Codex was found last.
    pub codex_path: Option<String>,
    /// The rate limits that were read last.
    pub last_usage: Option<UsageSnapshot>,
    /// Where the main window was.
    pub main_position: Option<SavedPosition>,
    /// Where the floating window was, when it had one style only.
    pub floating_position: Option<SavedPosition>,
    /// Where the card was.
    pub floating_card_position: Option<SavedPosition>,
    /// Where the orb was.
    pub floating_orb_position: Option<SavedPosition>,
    /// Whether the floating window is shown.
    pub floating_visible: bool,
    /// Whether the floating window is pinned.
    pub floating_pinned: bool,
    /// The bits, in double precision, of the share of the background's opacity.
    pub floating_opacity_bits: u64,
    /// Whether the floating window is kept above all others.
    pub floating_always_on_top: bool,
    /// `card` or `orb`.
    pub floating_style: String,
    /// The direction in which the orb unfolds.
    pub floating_orb_expand_direction: String,
    /// Which share of a limit is shown: `available` or `used`.
    pub display_mode: String,
    /// The colours.
    pub theme: String,
    /// How Codex reaches the network.
    pub proxy_mode: String,
    /// The proxy of the mode `custom`.
    pub proxy_address: String,
}

/// The bits of 0.92 in double precision.
pub const DEFAULT_OPACITY_BITS: u64 = 0x3FED_70A3_D70A_3D71;

/// The bits of 1 in double precision.
pub const FULL_OPACITY_BITS: u64 = 0x3FF0_0000_0000_0000;

/// The bits of negative zero in double precision.
pub const NEGATIVE_ZERO_BITS: u64 = 0x8000_0000_0000_0000;

/// The bits of infinity in double precision; larger ones below the sign bit
/// stand for no number.
pub const INFINITY_BITS: u64 = 0x7FF0_0000_0000_0000;

impl Default for PersistedState {
    /// What is remembered before anything happened.
    fn default() -> (state: Self)
        ensures
            state.codex_path is None,
            state.last_usage is None,
            state.main_position is None,
            state.floating_position is None,
            state.floating_card_position is None,
            state.floating_orb_position is None,
            !state.floating_visible,
            !state.floating_pinned,
            state.floating_opacity_bits == DEFAULT_OPACITY_BITS,
            state.floating_always_on_top,
            state.floating_style@ == "card"@,
            state.floating_orb_expand_direction@ == "auto"@,
            state.display_mode@ == "available"@,
            state.theme@ == "lime"@,
            state.proxy_mode@ == "system"@,
            state.proxy_address@ == ""@,
            state.has_known_settings(),
    {
        PersistedState {
            codex_path: None,
            last_usage: None,
            main_position: None,
            floating_position: None,
            floating_card_position: None,
            floating_orb_position: None,
            floating_visible: false,
            floating_pinned: false,
            floating_opacity_bits: DEFAULT_OPACITY_BITS,
            floating_always_on_top: true,
            floating_style: "card".to_owned(),
            floating_orb_expand_direction: "auto".to_owned(),
            display_mode: "available".to_owned(),
            theme: "lime".to_owned(),
            proxy_mode: "system".to_owned(),
            proxy_address: "".to_owned(),
        }
    }
}

impl Clone for PersistedState {
    fn clone(&self) -> (copy: Self)
        ensures
            copy == *self,
    {
        PersistedState {
            codex_path: self.codex_path.clone(),
            last_usage: match &self.last_usage {
                Some(usage) => Some(usage.clone()),
                None => None,
            },
            main_position: self.main_position,
            floating_position: self.floating_position,
            floating_card_position: self.floating_card_position,
            floating_orb_position: self.floating_orb_position,
            floating_visible: self.floating_visible,
            floating_pinned: self.floating_pinned,
            floating_opacity_bits: self.floating_opacity_bits,
            floating_always_on_top: self.floating_always_on_top,
            floating_style: self.floating_style.clone(),
            floating_orb_expand_direction: self.floating_orb_expand_direction.clone(),
            display_mode: self.display_mode.clone(),
            theme: self.theme.clone(),
            proxy_mode: self.proxy_mode.clone(),
            proxy_address: self.proxy_address.clone(),
        }
    }
}

/// Whether the floating window can have a style.
pub open spec fn is_style(style: Seq<char>) -> bool {
    style == "card"@ || style == "orb"@
}

/// Whether a share of a limit can be shown.
pub open spec fn is_display_mode(mode: Seq<char>) -> bool {
    mode == "available"@ || mode == "used"@
}

/// Whether there are such colours.
pub open spec fn is_theme(theme: Seq<char>) -> bool {
    ||| theme == "lime"@
    ||| theme == "cyan"@
    ||| theme == "violet"@
    ||| theme == "amber"@
    ||| theme == "rose"@
}

/// Whether the network can be reached in such a way.
pub open spec fn is_proxy_mode(mode: Seq<char>) -> bool {
    mode == "system"@ || mode == "none"@ || mode == "custom"@
}

impl PersistedState {
    /// Whether each setting is one that there is, and the settings of the
    /// network are ones that Codex can be started with.
    pub open spec fn has_known_settings(self) -> bool {
        &&& is_style(self.floating_style@)
        &&& is_expand_direction(self.floating_orb_expand_direction@)
        &&& is_display_mode(self.display_mode@)
        &&& is_theme(self.theme@)
        &&& proxy_changes(self.proxy_mode@, self.proxy_address@) is Ok
    }

    /// How Codex reaches the network.
    pub fn network_settings(&self) -> (network: NetworkSettings)
        ensures
            network.mode@ == self.proxy_mode@,
            network.address@ == self.proxy_address@,
    {
        NetworkSettings { mode: self.proxy_mode.clone(), address: self.proxy_address.clone() }
    }

    /// Notes the rate limits that were read, and the Codex that gave them.
    pub fn record_usage(&mut self, usage: UsageSnapshot, path: String)
        ensures
            *final(self) == (PersistedState {
                codex_path: Some(path),
                last_usage: Some(usage),
                ..*old(self)
            }),
    {
        self.codex_path = Some(path);
        self.last_usage = Some(usage);
    }

    /// The rate limits that were read last.
    pub fn get_cached_usage(&self) -> (usage: Option<UsageSnapshot>)
        ensures
            usage == self.last_usage,
    {
        match &self.last_usage {
            Some(usage) => Some(usage.clone()),
            None => None,
        }
    }
}

/// The settings that the windows show.
#[derive(Debug)]
pub struct FloatingSettings {
    /// Whether the floating window is shown.
    pub visible: bool,
    /// Whether it is pinned.
    pub pinned: bool,
    /// The bits, in double precision, of the share of the background's opacity.
    pub opacity_bits: u64,
    /// Whether it is kept above all others.
    pub always_on_top: bool,
    /// `card` or `orb`.
    pub style: String,
    /// The direction in which the orb unfolds.
    pub orb_expand_direction: String,
    /// Which share of a limit is shown.
    pub display_mode: String,
    /// The colours.
    pub theme: String,
    /// How Codex reaches the network.
    pub proxy_mode: String,
    /// The proxy of the mode `custom`.
    pub proxy_address: String,
    /// The directory in which the settings are kept.
    pub data_directory: String,
}

/// The settings that the windows show, kept in the given directory; in `data`
/// where the directory is not known.
pub fn get_floating_settings(data: &PersistedState, directory: Option<&str>) -> (settings:
    FloatingSettings)
    ensures
        settings.visible == data.floating_visible,
        settings.pinned == data.floating_pinned,
        settings.opacity_bits == data.floating_opacity_bits,
        settings.always_on_top == data.floating_always_on_top,
        settings.style == data.floating_style,
        settings.orb_expand_direction == data.floating_orb_expand_direction,
        settings.display_mode == data.display_mode,
        settings.theme == data.theme,
        settings.proxy_mode == data.proxy_mode,
        settings.proxy_address == data.proxy_address,
        settings.data_directory@ == (match directory {
            Some(directory) => directory@,
            None => "data"@,
        }),
{
    FloatingSettings {
        visible: data.floating_visible,
        pinned: data.floating_pinned,
        opacity_bits: data.floating_opacity_bits,
        always_on_top: data.floating_always_on_top,
        style: data.floating_style.clone(),
        orb_expand_direction: data.floating_orb_expand_direction.clone(),
        display_mode: data.display_mode.clone(),
        theme: data.theme.clone(),
        proxy_mode: data.proxy_mode.clone(),
        proxy_address: data.proxy_address.clone(),
        data_directory: match directory {
            Some(directory) => directory.to_owned(),
            None => "data".to_owned(),
        },
    }
}

/// Where the floating window was in a style. The card stands where the floating
/// window was when it had one style only, if it never was anywhere else.
pub open spec fn saved_place(data: PersistedState, style: Seq<char>) -> Option<SavedPosition> {
    if style == "orb"@ {
        data.floating_orb_position
    } else if data.floating_card_position is Some {
        data.floating_card_position
    } else {
        data.floating_position
    }
}

/// Where the floating window was in a style.
pub fn saved_floating_position(data: &PersistedState, style: &str) -> (position: Option<
    SavedPosition,
>)
    ensures
        position == saved_place(*data, style@),
{
    if same_text(style, "orb") {
        data.floating_orb_position
    } else {
        match data.floating_card_position {
            Some(position) => Some(position),
            None => data.floating_position,
        }
    }
}

/// What is remembered after the floating window came to stand at a position in
/// its style.
pub open spec fn remembered(data: PersistedState, position: SavedPosition) -> PersistedState {
    if data.floating_style@ == "orb"@ {
        PersistedState { floating_orb_position: Some(position), ..data }
    } else {
        PersistedState { floating_card_position: Some(position), ..data }
    }
}

/// Notes where the floating window stands in its style.
pub fn remember_floating_position(data: &mut PersistedState, position: SavedPosition)
    ensures
        *final(data) == remembered(*old(data), position),
        old(data).has_known_settings() ==> final(data).has_known_settings(),
{
    if same_text(data.floating_style.as_str(), "orb") {
        data.floating_orb_position = Some(position);
    } else {
        data.floating_card_position = Some(position);
    }
}

/// The card and the orb keep their places apart: noting the place of the one
/// gives that place back and leaves the place of the other as it was.
pub proof fn places_of_the_styles_are_kept_apart(
    data: PersistedState,
    position: SavedPosition,
    style: Seq<char>,
)
    requires
        is_style(data.floating_style@),
        is_style(style),
    ensures
        saved_place(remembered(data, position), style) == (if style == data.floating_style@ {
            Some(position)
        } else {
            saved_place(data, style)
        }),
{
    reveal_strlit("card");
    reveal_strlit("orb");
    assert("card"@.len() == 4 && "orb"@.len() == 3);
}

/// Shows or hides the floating window.
pub fn set_floating_visible(data: &mut PersistedState, visible: bool) -> (shown: bool)
    ensures
        shown == visible,
        *final(data) == (PersistedState { floating_visible: visible, ..*old(data) }),
        old(data).has_known_settings() ==> final(data).has_known_settings(),
{
    data.floating_visible = visible;
    visible
}

/// Pins or unpins the floating window.
pub fn set_floating_pinned(data: &mut PersistedState, pinned: bool) -> (now: bool)
    ensures
        now == pinned,
        *final(data) == (PersistedState { floating_pinned: pinned, ..*old(data) }),
        old(data).has_known_settings() ==> final(data).has_known_settings(),
{
    data.floating_pinned = pinned;
    pinned
}

/// Pins the floating window if it is not pinned, and unpins it if it is.
pub fn toggle_pin(data: &mut PersistedState) -> (now: bool)
    ensures
        now == !old(data).floating_pinned,
        *final(data) == (PersistedState { floating_pinned: now, ..*old(data) }),
        *final(data) == with_other_pin(*old(data)),
        old(data).has_known_settings() ==> final(data).has_known_settings(),
{
    let next = !data.floating_pinned;
    set_floating_pinned(data, next)
}

/// Keeps the floating window above all others, or not.
pub fn set_floating_always_on_top(data: &mut PersistedState, always_on_top: bool) -> (now: bool)
    ensures
        now == always_on_top,
        *final(data) == (PersistedState { floating_always_on_top: always_on_top, ..*old(data) }),
        old(data).has_known_settings() ==> final(data).has_known_settings(),
{
    data.floating_always_on_top = always_on_top;
    always_on_top
}

/// Whether bits in double precision stand for no number.
pub open spec fn is_no_number(bits: u64) -> bool {
    bits % NEGATIVE_ZERO_BITS > INFINITY_BITS
}

/// A share between none and all, in bits of double precision: a negative one as
/// zero, and one that is larger than one as one. What is no number stays so,
/// and zero keeps its sign.
pub open spec fn share_of_opacity(bits: u64) -> u64 {
    if is_no_number(bits) {
        bits
    } else if bits > NEGATIVE_ZERO_BITS {
        0
    } else if bits < NEGATIVE_ZERO_BITS && bits > FULL_OPACITY_BITS {
        FULL_OPACITY_BITS
    } else {
        bits
    }
}

/// Sets how much of the background is seen, from nothing to all of it.
pub fn set_floating_opacity(data: &mut PersistedState, opacity_bits: u64) -> (now: u64)
    ensures
        now == share_of_opacity(opacity_bits),
        *final(data) == (PersistedState { floating_opacity_bits: now, ..*old(data) }),
        old(data).has_known_settings() ==> final(data).has_known_settings(),
{
    let now: u64 = if opacity_bits % NEGATIVE_ZERO_BITS > INFINITY_BITS {
        opacity_bits
    } else if opacity_bits > NEGATIVE_ZERO_BITS {
        0
    } else if opacity_bits < NEGATIVE_ZERO_BITS && opacity_bits > FULL_OPACITY_BITS {
        FULL_OPACITY_BITS
    } else {
        opacity_bits
    };
    data.floating_opacity_bits = now;
    now
}

/// A number that was set as the opacity lies between zero and one, and setting
/// it again changes nothing; one that lay there before is kept as it is.
pub proof fn opacities_lie_between_zero_and_one(bits: u64)
    requires
        !is_no_number(bits),
    ensures
        share_of_opacity(bits) <= FULL_OPACITY_BITS || share_of_opacity(bits)
            == NEGATIVE_ZERO_BITS,
        share_of_opacity(share_of_opacity(bits)) == share_of_opacity(bits),
        bits <= FULL_OPACITY_BITS ==> share_of_opacity(bits) == bits,
{
}

/// What comes of setting a text: the text where it is known, a message
/// elsewhere.
pub open spec fn set_outcome(
    known: bool,
    wanted: Seq<char>,
    message: Seq<char>,
) -> Result<Seq<char>, Seq<char>> {
    if known {
        Ok(wanted)
    } else {
        Err(message)
    }
}

/// Chooses which share of a limit is shown.
pub fn set_display_mode(data: &mut PersistedState, mode: String) -> (result: Result<String, String>)
    ensures
        crate::proxy::text_outcome(result) == set_outcome(
            is_display_mode(mode@),
            mode@,
            "显示形式无效"@,
        ),
        *final(data) == (if is_display_mode(mode@) {
            PersistedState { display_mode: mode, ..*old(data) }
        } else {
            *old(data)
        }),
        old(data).has_known_settings() ==> final(data).has_known_settings(),
{
    if !same_text(mode.as_str(), "available") && !same_text(mode.as_str(), "used") {
        return Err("显示形式无效".to_owned());
    }
    data.display_mode = mode.clone();
    Ok(mode)
}

/// Chooses the colours.
pub fn set_theme(data: &mut PersistedState, theme: String) -> (result: Result<String, String>)
    ensures
        crate::proxy::text_outcome(result) == set_outcome(
            is_theme(theme@),
            theme@,
            "主题配色无效"@,
        ),
        *final(data) == (if is_theme(theme@) {
            PersistedState { theme, ..*old(data) }
        } else {
            *old(data)
        }),
        old(data).has_known_settings() ==> final(data).has_known_settings(),
{
    if !(same_text(theme.as_str(), "lime") || same_text(theme.as_str(), "cyan") || same_text(
        theme.as_str(),
        "violet",
    ) || same_text(theme.as_str(), "amber") || same_text(theme.as_str(), "rose")) {
        return Err("主题配色无效".to_owned());
    }
    data.theme = theme.clone();
    Ok(theme)
}

/// The address that is kept for a way to reach the network, or a message that
/// says what is wrong with the settings.
pub open spec fn kept_address(mode: Seq<char>, address: Seq<char>) -> Result<Seq<char>, Seq<char>> {
    if !is_proxy_mode(mode) {
        Err("代理模式无效"@)
    } else if mode == "custom"@ {
        proxy_address(address)
    } else {
        Ok(trimmed(address))
    }
}

/// Chooses how Codex reaches the network.
pub fn set_proxy_settings(data: &mut PersistedState, mode: String, address: String) -> (result:
    Result<(), String>)
    ensures
        match (kept_address(mode@, address@), result) {
            (Ok(kept), Ok(_)) => {
                &&& final(data).proxy_address@ == kept
                &&& *final(data) == (PersistedState {
                    proxy_mode: mode,
                    proxy_address: final(data).proxy_address,
                    ..*old(data)
                })
            },
            (Err(expected), Err(message)) => message@ == expected && *final(data) == *old(data),
            _ => false,
        },
        old(data).has_known_settings() ==> final(data).has_known_settings(),
{
    if !(same_text(mode.as_str(), "system") || same_text(mode.as_str(), "none") || same_text(
        mode.as_str(),
        "custom",
    )) {
        return Err("代理模式无效".to_owned());
    }
    let kept = if same_text(mode.as_str(), "custom") {
        match normalize_proxy_address(address.as_str()) {
            Ok(kept) => kept,
            Err(message) => {
                return Err(message);
            },
        }
    } else {
        trim(address.as_str()).to_owned()
    };
    proof {
        settings_that_are_kept_can_be_used(mode@, address@);
    }
    data.proxy_mode = mode;
    data.proxy_address = kept;
    Ok(())
}

/// Settings of the network that are kept are ones that Codex can be started
/// with.
pub proof fn settings_that_are_kept_can_be_used(mode: Seq<char>, address: Seq<char>)
    ensures
        kept_address(mode, address) matches Ok(kept) ==> proxy_changes(mode, kept) is Ok,
{
    completed_addresses_are_complete(address);
}

/// Tells whether the orb can unfold in a direction.
pub fn check_orb_expand_direction(direction: &str) -> (result: Result<(), String>)
    ensures
        result is Ok == is_expand_direction(direction@),
        result matches Err(message) ==> message@ == "小球展开方向无效"@,
{
    match normalize_orb_expand_direction(direction) {
        Some(_) => Ok(()),
        None => Err("小球展开方向无效".to_owned()),
    }
}

/// Chooses the direction in which the orb unfolds.
pub fn set_floating_orb_expand_direction(data: &mut PersistedState, direction: &str) -> (result:
    Result<(), String>)
    ensures
        match result {
            Ok(_) => {
                &&& is_expand_direction(direction@)
                &&& final(data).floating_orb_expand_direction@ == direction@
                &&& *final(data) == (PersistedState {
                    floating_orb_expand_direction: final(data).floating_orb_expand_direction,
                    ..*old(data)
                })
            },
            Err(message) => {
                &&& !is_expand_direction(direction@)
                &&& message@ == "小球展开方向无效"@
                &&& *final(data) == *old(data)
            },
        },
        old(data).has_known_settings() ==> final(data).has_known_settings(),
{
    match normalize_orb_expand_direction(direction) {
        Some(known) => {
            data.floating_orb_expand_direction = known.to_owned();
            Ok(())
        },
        None => Err("小球展开方向无效".to_owned()),
    }
}

/// Tells whether the floating window can have a style.
pub fn check_floating_style(style: &str) -> (result: Result<(), String>)
    ensures
        result is Ok == is_style(style@),
        result matches Err(message) ==> message@ == "悬浮窗样式无效"@,
{
    if !same_text(style, "card") && !same_text(style, "orb") {
        return Err("悬浮窗样式无效".to_owned());
    }
    Ok(())
}

/// Chooses the style of the floating window.
pub fn set_floating_style(data: &mut PersistedState, style: String) -> (result: Result<(), String>)
    ensures
        result is Ok == is_style(style@),
        result matches Err(message) ==> message@ == "悬浮窗样式无效"@,
        *final(data) == (if is_style(style@) {
            PersistedState { floating_style: style, ..*old(data) }
        } else {
            *old(data)
        }),
        old(data).has_known_settings() ==> final(data).has_known_settings(),
{
    check_floating_style(style.as_str())?;
    data.floating_style = style;
    Ok(())
}

/// A result with a place or a message, seen as their characters.
pub open spec fn place_outcome(result: Result<Lookup, String>) -> Result<
    (Seq<char>, Seq<Seq<char>>),
    Seq<char>,
> {
    match result {
        Ok(lookup) => Ok(place(lookup.base@, texts(lookup.steps@))),
        Err(message) => Err(message@),
    }
}

/// The directory in which the state is kept: `data` beside the program, whose
/// own directory is `parent`.
pub fn data_directory(parent: Option<String>) -> (directory: Result<Lookup, String>)
    ensures
        place_outcome(directory) == (match parent {
            Some(parent) => Ok(place(parent@, seq!["data"@])),
            None => Err("无法定位应用程序目录"@),
        }),
{
    match parent {
        Some(parent) => {
            let mut steps: Vec<String> = Vec::new();
            steps.push("data".to_owned());
            assert(texts(steps@) =~= seq!["data"@]);
            Ok(Lookup { base: parent, steps })
        },
        None => Err("无法定位应用程序目录".to_owned()),
    }
}

/// Whether the state of an earlier version is taken over: once, as long as
/// there is none of this version.
pub fn migrate_legacy_state(legacy_is_file: bool, target_exists: bool) -> (migrates: bool)
    ensures
        migrates == (!target_exists && legacy_is_file),
        migrates == takes_over(legacy_is_file, target_exists),
{
    !target_exists && legacy_is_file
}

/// The orb goes back to where the orb was, and nowhere else. The card goes back
/// to where the card was; only where it never was anywhere, to where the
/// floating window was when it had one style.
pub proof fn styles_go_back_to_their_own_places(data: PersistedState, style: Seq<char>)
    ensures
        saved_place(data, "orb"@) == data.floating_orb_position,
        style != "orb"@ && data.floating_card_position is Some ==> saved_place(data, style)
            == data.floating_card_position,
        style != "orb"@ && data.floating_card_position is None ==> saved_place(data, style)
            == data.floating_position,
{
}

/// Noting the place of the floating window changes that place of its style and
/// nothing else of what is remembered.
pub proof fn noting_a_place_changes_nothing_else(data: PersistedState, position: SavedPosition)
    ensures
        ({
            let after = remembered(data, position);
            let orb = data.floating_style@ == "orb"@;
            &&& after.floating_orb_position == if orb {
                Some(position)
            } else {
                data.floating_orb_position
            }
            &&& after.floating_card_position == if orb {
                data.floating_card_position
            } else {
                Some(position)
            }
            &&& after.main_position == data.main_position
            &&& after.floating_position == data.floating_position
            &&& after.codex_path == data.codex_path
            &&& after.last_usage == data.last_usage
            &&& after.floating_visible == data.floating_visible
            &&& after.floating_pinned == data.floating_pinned
            &&& after.floating_opacity_bits == data.floating_opacity_bits
            &&& after.floating_always_on_top == data.floating_always_on_top
            &&& after.floating_style == data.floating_style
            &&& after.floating_orb_expand_direction == data.floating_orb_expand_direction
            &&& after.display_mode == data.display_mode
            &&& after.theme == data.theme
            &&& after.proxy_mode == data.proxy_mode
            &&& after.proxy_address == data.proxy_address
        }),
{
}

/// Two styles, two ways to show a limit, five themes, three ways to reach the
/// network and three directions can be chosen, by these names and no others.
pub proof fn settings_have_known_names(name: Seq<char>)
    ensures
        is_style(name) <==> seq!["card"@, "orb"@].contains(name),
        is_display_mode(name) <==> seq!["available"@, "used"@].contains(name),
        is_theme(name) <==> seq!["lime"@, "cyan"@, "violet"@, "amber"@, "rose"@].contains(name),
        is_proxy_mode(name) <==> seq!["system"@, "none"@, "custom"@].contains(name),
        is_expand_direction(name) <==> seq!["auto"@, "left"@, "right"@].contains(name),
{
    let styles = seq!["card"@, "orb"@];
    let modes = seq!["available"@, "used"@];
    let themes = seq!["lime"@, "cyan"@, "violet"@, "amber"@, "rose"@];
    let networks = seq!["system"@, "none"@, "custom"@];
    let directions = seq!["auto"@, "left"@, "right"@];
    assert(styles[0] == "card"@ && styles[1] == "orb"@);
    assert(modes[0] == "available"@ && modes[1] == "used"@);
    assert(themes[0] == "lime"@ && themes[1] == "cyan"@ && themes[2] == "violet"@ && themes[3]
        == "amber"@ && themes[4] == "rose"@);
    assert(networks[0] == "system"@ && networks[1] == "none"@ && networks[2] == "custom"@);
    assert(directions[0] == "auto"@ && directions[1] == "left"@ && directions[2] == "right"@);
}

/// A text that is set comes back, and a message in its place only where the
/// text is not known.
pub proof fn known_texts_come_back(known: bool, wanted: Seq<char>, message: Seq<char>)
    ensures
        set_outcome(known, wanted, message) is Ok <==> known,
        set_outcome(true, wanted, message) == Ok::<Seq<char>, Seq<char>>(wanted),
        set_outcome(false, wanted, message) == Err::<Seq<char>, Seq<char>>(message),
{
}

/// An opacity above one, and an infinite one, is set as one; one below zero is
/// set as zero; what is no number is kept. Of two opacities that are not
/// negative, the larger one is not set as the smaller one.
pub proof fn opacities_are_set_as_the_nearest_share(bits: u64, other: u64)
    ensures
        0x3FF0_0000_0000_0000 <= bits <= 0x7FF0_0000_0000_0000 ==> share_of_opacity(bits)
            == 0x3FF0_0000_0000_0000,
        0x8000_0000_0000_0000 < bits <= 0xFFF0_0000_0000_0000 ==> share_of_opacity(bits) == 0,
        0x7FF0_0000_0000_0000 < bits < 0x8000_0000_0000_0000 ==> share_of_opacity(bits) == bits,
        0xFFF0_0000_0000_0000 < bits ==> share_of_opacity(bits) == bits,
        bits == 0x8000_0000_0000_0000 ==> share_of_opacity(bits) == bits,
        bits <= other <= 0x7FF0_0000_0000_0000 ==> share_of_opacity(bits) <= share_of_opacity(
            other,
        ),
{
}

/// The opacity that is set at first is the number in double precision that is
/// nearest to 0.92: with its significand over two to the power of 53, less than
/// half a unit of the significand away from it.
pub proof fn the_first_opacity_is_ninety_two_percent()
    ensures
        ({
            let significand = 0x10_0000_0000_0000 + DEFAULT_OPACITY_BITS % 0x10_0000_0000_0000;
            let exact = 92 * 0x20_0000_0000_0000;
            &&& DEFAULT_OPACITY_BITS / 0x10_0000_0000_0000 == 1022
            &&& -50 < 100 * significand - exact < 50
        }),
        FULL_OPACITY_BITS / 0x10_0000_0000_0000 == 1023,
        FULL_OPACITY_BITS % 0x10_0000_0000_0000 == 0,
{
}

/// The settings of the network are kept exactly where the way is one that there
/// is and, where it is a proxy of the user's own, its address is one that can be
/// completed; that address is then kept complete, and any other as it was
/// given, without the white space around it.
pub proof fn addresses_are_kept_without_white_space(mode: Seq<char>, address: Seq<char>)
    ensures
        mode == "custom"@ ==> kept_address(mode, address) == proxy_address(address),
        mode == "system"@ || mode == "none"@ ==> kept_address(mode, address) == Ok::<
            Seq<char>,
            Seq<char>,
        >(trimmed(address)),
        mode != "custom"@ && mode != "system"@ && mode != "none"@ ==> kept_address(mode, address)
            == Err::<Seq<char>, Seq<char>>("代理模式无效"@),
{
    reveal_strlit("custom");
    reveal_strlit("system");
    reveal_strlit("none");
    assert("custom"@[0] == 'c' && "system"@[0] == 's' && "none"@[0] == 'n');
}

/// Whether the state of an earlier version is taken over.
pub open spec fn takes_over(legacy_is_file: bool, target_exists: bool) -> bool {
    legacy_is_file && !target_exists
}

/// A state that there is is never replaced by that of an earlier version, and
/// what is not there is not taken over.
pub proof fn a_state_of_this_version_is_kept(legacy_is_file: bool, target_exists: bool)
    ensures
        target_exists ==> !takes_over(legacy_is_file, target_exists),
        !legacy_is_file ==> !takes_over(legacy_is_file, target_exists),
        takes_over(true, false),
{
}

/// What is remembered after the floating window was pinned or unpinned.
pub open spec fn with_other_pin(data: PersistedState) -> PersistedState {
    PersistedState { floating_pinned: !data.floating_pinned, ..data }
}

/// Pinning and unpinning undo each other, and each changes the pin.
pub proof fn pinning_twice_changes_nothing(data: PersistedState)
    ensures
        with_other_pin(data).floating_pinned != data.floating_pinned,
        with_other_pin(with_other_pin(data)) == data,
{
}

} // verus!
