//! What the application is asked to do when it is started, from its jump list
//! or from its tray menu.

use vstd::prelude::*;
use vstd::string::*;

use crate::text::same_text;

verus! {

/// What the application is asked to do.
#[derive(Debug, Clone, Copy, PartialEq, Eq, Structural)]
pub enum LaunchAction {
    /// Show the main window.
    ShowMain,
    /// Show or hide the floating window.
    ToggleFloating,
    /// Pin or unpin the floating window.
    TogglePin,
    /// Quit.
    Quit,
}

/// Whether an argument is among those given.
pub open spec fn is_given(args: Seq<Seq<char>>, wanted: Seq<char>) -> bool {
    args.contains(wanted)
}

/// What the arguments ask for. Of several requests the floating window's comes
/// first, then the pin, then quitting.
pub open spec fn requested(args: Seq<Seq<char>>) -> LaunchAction {
    if is_given(args, "--toggle-floating"@) {
        LaunchAction::ToggleFloating
    } else if is_given(args, "--toggle-pin"@) {
        LaunchAction::TogglePin
    } else if is_given(args, "--quit"@) {
        LaunchAction::Quit
    } else {
        LaunchAction::ShowMain
    }
}

/// Whether an argument is among those given.
fn has_argument(args: &[String], wanted: &str) -> (has: bool)
    ensures
        has == is_given(crate::text::texts(args@), wanted@),
{
    let ghost all = crate::text::texts(args@);
    let mut i: usize = 0;
    while i < args.len()
        invariant
            i <= args@.len(),
            all == crate::text::texts(args@),
            forall|j: int| 0 <= j < i ==> all[j] != wanted@,
        decreases args@.len() - i,
    {
        assert(all[i as int] == args@[i as int]@);
        if same_text(args[i].as_str(), wanted) {
            return true;
        }
        i = i + 1;
    }
    false
}

/// What the arguments ask for.
pub fn launch_action(args: &[String]) -> (action: LaunchAction)
    ensures
        action == requested(crate::text::texts(args@)),
{
    if has_argument(args, "--toggle-floating") {
        LaunchAction::ToggleFloating
    } else if has_argument(args, "--toggle-pin") {
        LaunchAction::TogglePin
    } else if has_argument(args, "--quit") {
        LaunchAction::Quit
    } else {
        LaunchAction::ShowMain
    }
}

/// An entry of the jump list or of the tray menu.
#[derive(Debug, Clone, Copy)]
pub struct Entry {
    /// The argument, or the identifier, that stands for the entry.
    pub key: &'static str,
    /// What the user reads.
    pub title: &'static str,
}

/// The entries of a list, seen as their characters.
pub open spec fn entries(list: Seq<Entry>) -> Seq<(Seq<char>, Seq<char>)> {
    Seq::new(list.len(), |i: int| (list[i].key@, list[i].title@))
}

/// The entries of the jump list: an argument and a title each.
pub open spec fn jump_list_entries() -> Seq<(Seq<char>, Seq<char>)> {
    seq![
        ("--show-main"@, "显示主窗口"@),
        ("--toggle-floating"@, "显示 / 隐藏悬浮窗"@),
        ("--toggle-pin"@, "固定 / 取消固定悬浮窗"@),
        ("--quit"@, "完全退出"@),
    ]
}

/// The entries of the tray menu: an identifier and a title each.
pub open spec fn menu_entries() -> Seq<(Seq<char>, Seq<char>)> {
    seq![
        ("show-main"@, "显示主窗口"@),
        ("toggle-floating"@, "显示 / 隐藏悬浮窗"@),
        ("toggle-pin"@, "固定 / 取消固定悬浮窗"@),
        ("quit"@, "完全退出"@),
    ]
}

/// The four things that the application can be asked to do, in the order in
/// which they are offered.
pub open spec fn offered() -> Seq<LaunchAction> {
    seq![
        LaunchAction::ShowMain,
        LaunchAction::ToggleFloating,
        LaunchAction::TogglePin,
        LaunchAction::Quit,
    ]
}

/// The entries of the jump list.
pub fn jump_list() -> (list: Vec<Entry>)
    ensures
        entries(list@) == jump_list_entries(),
{
    let mut list: Vec<Entry> = Vec::new();
    list.push(Entry { key: "--show-main", title: "显示主窗口" });
    list.push(Entry { key: "--toggle-floating", title: "显示 / 隐藏悬浮窗" });
    list.push(Entry { key: "--toggle-pin", title: "固定 / 取消固定悬浮窗" });
    list.push(Entry { key: "--quit", title: "完全退出" });
    assert(entries(list@) =~= jump_list_entries());
    list
}

/// The entries of the tray menu.
pub fn tray_menu() -> (list: Vec<Entry>)
    ensures
        entries(list@) == menu_entries(),
{
    let mut list: Vec<Entry> = Vec::new();
    list.push(Entry { key: "show-main", title: "显示主窗口" });
    list.push(Entry { key: "toggle-floating", title: "显示 / 隐藏悬浮窗" });
    list.push(Entry { key: "toggle-pin", title: "固定 / 取消固定悬浮窗" });
    list.push(Entry { key: "quit", title: "完全退出" });
    assert(entries(list@) =~= menu_entries());
    list
}

/// What an entry of the tray menu asks for.
pub open spec fn chosen(id: Seq<char>) -> Option<LaunchAction> {
    if id == "show-main"@ {
        Some(LaunchAction::ShowMain)
    } else if id == "toggle-floating"@ {
        Some(LaunchAction::ToggleFloating)
    } else if id == "toggle-pin"@ {
        Some(LaunchAction::TogglePin)
    } else if id == "quit"@ {
        Some(LaunchAction::Quit)
    } else {
        None
    }
}

/// What an entry of the tray menu asks for.
pub fn menu_action(id: &str) -> (action: Option<LaunchAction>)
    ensures
        action == chosen(id@),
{
    if same_text(id, "show-main") {
        Some(LaunchAction::ShowMain)
    } else if same_text(id, "toggle-floating") {
        Some(LaunchAction::ToggleFloating)
    } else if same_text(id, "toggle-pin") {
        Some(LaunchAction::TogglePin)
    } else if same_text(id, "quit") {
        Some(LaunchAction::Quit)
    } else {
        None
    }
}

/// The jump list and the tray menu offer the same four actions under the same
/// titles: an entry of the jump list, given to the application as its only
/// request, and the entry of the menu at the same place ask for the same thing.
pub proof fn both_menus_offer_the_same(program: Seq<char>, i: int)
    requires
        0 <= i < 4,
        program != "--toggle-floating"@,
        program != "--toggle-pin"@,
        program != "--quit"@,
    ensures
        jump_list_entries()[i].1 == menu_entries()[i].1,
        requested(seq![program, jump_list_entries()[i].0]) == offered()[i],
        chosen(menu_entries()[i].0) == Some(offered()[i]),
{
    reveal_strlit("--show-main");
    reveal_strlit("--toggle-floating");
    reveal_strlit("--toggle-pin");
    reveal_strlit("--quit");
    reveal_strlit("show-main");
    reveal_strlit("toggle-floating");
    reveal_strlit("toggle-pin");
    reveal_strlit("quit");
    let args = seq![program, jump_list_entries()[i].0];
    assert(args[1] == jump_list_entries()[i].0);
    assert("--show-main"@.len() == 11 && "--toggle-floating"@.len() == 17 && "--toggle-pin"@.len()
        == 12 && "--quit"@.len() == 6);
    assert("show-main"@.len() == 9 && "toggle-floating"@.len() == 15 && "toggle-pin"@.len() == 10
        && "quit"@.len() == 4);
    if i == 1 {
        assert(args.contains("--toggle-floating"@));
    } else if i == 2 {
        assert(args.contains("--toggle-pin"@));
    } else if i == 3 {
        assert(args.contains("--quit"@));
    }
}

/// How long is waited before each attempt to register the jump list, in
/// milliseconds. The taskbar may not know the application at once.
pub open spec fn registration_delays() -> Seq<u64> {
    seq![0u64, 200, 500, 1000, 2000, 4000]
}

/// How long is waited before an attempt to register the jump list, counted from
/// zero; none where no more attempt is made.
pub fn registration_delay(attempt: usize) -> (delay: Option<u64>)
    ensures
        delay == (if attempt < registration_delays().len() {
            Some(registration_delays()[attempt as int])
        } else {
            None
        }),
{
    let delays: [u64; 6] = [0, 200, 500, 1000, 2000, 4000];
    if attempt < 6 {
        assert(delays@ =~= registration_delays());
        Some(delays[attempt])
    } else {
        None
    }
}

/// Each of three arguments asks for its own action, wherever it stands among
/// the others: the floating window before the pin, and the pin before quitting.
/// Without any of them the main window is shown.
pub proof fn arguments_ask_for_their_actions(args: Seq<Seq<char>>, i: int)
    ensures
        0 <= i < args.len() && args[i] == "--toggle-floating"@ ==> requested(args)
            == LaunchAction::ToggleFloating,
        0 <= i < args.len() && args[i] == "--toggle-pin"@ && !args.contains("--toggle-floating"@)
            ==> requested(args) == LaunchAction::TogglePin,
        0 <= i < args.len() && args[i] == "--quit"@ && !args.contains("--toggle-floating"@)
            && !args.contains("--toggle-pin"@) ==> requested(args) == LaunchAction::Quit,
        !args.contains("--toggle-floating"@) && !args.contains("--toggle-pin"@) && !args.contains(
            "--quit"@,
        ) ==> requested(args) == LaunchAction::ShowMain,
{
}

/// Each of four identifiers asks for its own action, and no other does.
pub proof fn identifiers_ask_for_their_actions(id: Seq<char>)
    ensures
        chosen("show-main"@) == Some(LaunchAction::ShowMain),
        chosen("toggle-floating"@) == Some(LaunchAction::ToggleFloating),
        chosen("toggle-pin"@) == Some(LaunchAction::TogglePin),
        chosen("quit"@) == Some(LaunchAction::Quit),
        chosen(id) is Some <==> id == "show-main"@ || id == "toggle-floating"@ || id
            == "toggle-pin"@ || id == "quit"@,
{
    reveal_strlit("show-main");
    reveal_strlit("toggle-floating");
    reveal_strlit("toggle-pin");
    reveal_strlit("quit");
    assert("show-main"@.len() == 9 && "toggle-floating"@.len() == 15 && "toggle-pin"@.len() == 10
        && "quit"@.len() == 4);
}

/// The entry that asks for an action bears the title of that action.
pub proof fn entries_bear_the_titles_of_their_actions(i: int)
    requires
        0 <= i < menu_entries().len(),
    ensures
        menu_entries().len() == 4,
        jump_list_entries().len() == 4,
        chosen(menu_entries()[i].0) == Some(LaunchAction::ShowMain) ==> menu_entries()[i].1
            == "显示主窗口"@,
        chosen(menu_entries()[i].0) == Some(LaunchAction::ToggleFloating) ==> menu_entries()[i].1
            == "显示 / 隐藏悬浮窗"@,
        chosen(menu_entries()[i].0) == Some(LaunchAction::TogglePin) ==> menu_entries()[i].1
            == "固定 / 取消固定悬浮窗"@,
        chosen(menu_entries()[i].0) == Some(LaunchAction::Quit) ==> menu_entries()[i].1
            == "完全退出"@,
        jump_list_entries()[i].0 == "--"@ + menu_entries()[i].0,
{
    identifiers_ask_for_their_actions(menu_entries()[i].0);
    reveal_strlit("--");
    reveal_strlit("--show-main");
    reveal_strlit("--toggle-floating");
    reveal_strlit("--toggle-pin");
    reveal_strlit("--quit");
    reveal_strlit("show-main");
    reveal_strlit("toggle-floating");
    reveal_strlit("toggle-pin");
    reveal_strlit("quit");
    assert("--show-main"@ =~= "--"@ + "show-main"@);
    assert("--toggle-floating"@ =~= "--"@ + "toggle-floating"@);
    assert("--toggle-pin"@ =~= "--"@ + "toggle-pin"@);
    assert("--quit"@ =~= "--"@ + "quit"@);
}

/// The jump list is registered at once, and where that fails again after 200,
/// 700, 1700, 3700 and 7700 milliseconds in all.
pub proof fn registrations_are_tried_ever_later()
    ensures
        registration_delays().len() == 6,
        ({
            let delays = registration_delays();
            &&& delays[0] == 0
            &&& delays[0] + delays[1] == 200
            &&& delays[0] + delays[1] + delays[2] == 700
            &&& delays[0] + delays[1] + delays[2] + delays[3] == 1700
            &&& delays[0] + delays[1] + delays[2] + delays[3] + delays[4] == 3700
            &&& delays[0] + delays[1] + delays[2] + delays[3] + delays[4] + delays[5] == 7700
        }),
{
}

/// The entries of a list are seen one by one, each with its key and its title.
pub proof fn entries_are_seen_as_they_are(list: Seq<Entry>, i: int)
    requires
        0 <= i < list.len(),
    ensures
        entries(list).len() == list.len(),
        entries(list)[i].0 == list[i].key@,
        entries(list)[i].1 == list[i].title@,
{
}

} // verus!
