use codex_quota::launch::{
    jump_list, launch_action, menu_action, registration_delay, tray_menu, LaunchAction,
};
use codex_quota::placement::SavedPosition;
use codex_quota::proxy::{configure_proxy, normalize_proxy_address, NetworkSettings};
use codex_quota::state::{
    check_floating_style, check_orb_expand_direction, data_directory, get_floating_settings,
    migrate_legacy_state, remember_floating_position, saved_floating_position, set_display_mode,
    set_floating_always_on_top, set_floating_opacity, set_floating_orb_expand_direction,
    set_floating_pinned, set_floating_style, set_floating_visible, set_proxy_settings, set_theme,
    toggle_pin, PersistedState,
};
use codex_quota::usage::UsageSnapshot;
use codex_quota::writer::{writer_step, WriterEvent, WriterStep};

const HERE: SavedPosition = SavedPosition { x: 10, y: 20 };
const THERE: SavedPosition = SavedPosition { x: 1800, y: 400 };

#[test]
fn the_first_state_has_the_documented_settings() {
    let state = PersistedState::default();
    assert_eq!(f64::from_bits(state.floating_opacity_bits), 0.92);
    assert!(!state.floating_pinned);
    assert!(!state.floating_visible);
    assert!(state.floating_always_on_top);
    assert_eq!(state.floating_style, "card");
    assert!(state.floating_card_position.is_none());
    assert!(state.floating_orb_position.is_none());
    assert_eq!(state.floating_orb_expand_direction, "auto");
    assert_eq!(state.display_mode, "available");
    assert_eq!(state.theme, "lime");
    assert_eq!(state.proxy_mode, "system");
    assert_eq!(state.proxy_address, "");
    assert!(state.codex_path.is_none() && state.last_usage.is_none());
}

#[test]
fn the_card_and_the_orb_have_places_of_their_own() {
    let mut state = PersistedState::default();
    remember_floating_position(&mut state, HERE);
    set_floating_style(&mut state, "orb".to_owned()).unwrap();
    remember_floating_position(&mut state, THERE);
    assert_eq!(state.floating_card_position, Some(HERE));
    assert_eq!(state.floating_orb_position, Some(THERE));
    assert_eq!(saved_floating_position(&state, "card"), Some(HERE));
    assert_eq!(saved_floating_position(&state, "orb"), Some(THERE));
}

#[test]
fn the_card_takes_over_the_place_of_the_only_style() {
    let mut state = PersistedState::default();
    state.floating_position = Some(THERE);
    assert_eq!(saved_floating_position(&state, "card"), Some(THERE));
    assert_eq!(saved_floating_position(&state, "orb"), None);
    remember_floating_position(&mut state, HERE);
    assert_eq!(saved_floating_position(&state, "card"), Some(HERE));
    assert_eq!(state.floating_position, Some(THERE));
}

#[test]
fn settings_are_shown_as_they_are_set() {
    let mut state = PersistedState::default();
    assert!(set_floating_visible(&mut state, true));
    assert!(set_floating_pinned(&mut state, true));
    assert!(!set_floating_always_on_top(&mut state, false));
    assert_eq!(set_display_mode(&mut state, "used".to_owned()).unwrap(), "used");
    assert_eq!(set_theme(&mut state, "rose".to_owned()).unwrap(), "rose");
    set_floating_orb_expand_direction(&mut state, "left").unwrap();
    set_proxy_settings(&mut state, "custom".to_owned(), " 127.0.0.1:7890 ".to_owned()).unwrap();
    let settings = get_floating_settings(&state, Some("C:/data"));
    assert!(settings.visible && settings.pinned && !settings.always_on_top);
    assert_eq!(settings.display_mode, "used");
    assert_eq!(settings.theme, "rose");
    assert_eq!(settings.orb_expand_direction, "left");
    assert_eq!(settings.style, "card");
    assert_eq!(settings.proxy_mode, "custom");
    assert_eq!(settings.proxy_address, "http://127.0.0.1:7890");
    assert_eq!(settings.data_directory, "C:/data");
    assert_eq!(f64::from_bits(settings.opacity_bits), 0.92);
    assert_eq!(get_floating_settings(&state, None).data_directory, "data");
    assert!(!toggle_pin(&mut state));
    assert!(toggle_pin(&mut state));
}

#[test]
fn unknown_settings_are_refused_and_change_nothing() {
    let mut state = PersistedState::default();
    assert_eq!(
        set_display_mode(&mut state, "both".to_owned()).unwrap_err(),
        "显示形式无效"
    );
    assert_eq!(set_theme(&mut state, "LIME".to_owned()).unwrap_err(), "主题配色无效");
    assert_eq!(
        set_floating_orb_expand_direction(&mut state, "bottom").unwrap_err(),
        "小球展开方向无效"
    );
    assert_eq!(
        set_floating_style(&mut state, "cube".to_owned()).unwrap_err(),
        "悬浮窗样式无效"
    );
    assert_eq!(check_floating_style("").unwrap_err(), "悬浮窗样式无效");
    assert_eq!(check_orb_expand_direction("up").unwrap_err(), "小球展开方向无效");
    assert!(check_orb_expand_direction("auto").is_ok());
    assert!(check_floating_style("card").is_ok() && check_floating_style("orb").is_ok());
    assert_eq!(
        set_proxy_settings(&mut state, "auto".to_owned(), String::new()).unwrap_err(),
        "代理模式无效"
    );
    assert_eq!(
        set_proxy_settings(&mut state, "custom".to_owned(), "  ".to_owned()).unwrap_err(),
        "请填写本地代理地址，例如 http://127.0.0.1:7890"
    );
    assert_eq!(state.display_mode, "available");
    assert_eq!(state.theme, "lime");
    assert_eq!(state.floating_orb_expand_direction, "auto");
    assert_eq!(state.floating_style, "card");
    assert_eq!(state.proxy_mode, "system");
}

#[test]
fn every_theme_of_the_list_is_known() {
    let mut state = PersistedState::default();
    for theme in ["lime", "cyan", "violet", "amber", "rose"] {
        assert_eq!(set_theme(&mut state, theme.to_owned()).unwrap(), theme);
        assert_eq!(state.theme, theme);
    }
}

#[test]
fn opacities_are_kept_between_zero_and_one() {
    let mut state = PersistedState::default();
    for opacity in [
        0.0,
        -0.0,
        0.5,
        0.92,
        1.0,
        1.0 + f64::EPSILON,
        7.0,
        -1.0,
        -f64::MIN_POSITIVE,
        f64::INFINITY,
        f64::NEG_INFINITY,
        f64::NAN,
        -f64::NAN,
        5e-324,
    ] {
        let now = set_floating_opacity(&mut state, opacity.to_bits());
        assert_eq!(now, opacity.clamp(0.0, 1.0).to_bits(), "{opacity}");
        assert_eq!(state.floating_opacity_bits, now);
    }
}

#[test]
fn usage_is_recorded_with_the_codex_that_gave_it() {
    let mut state = PersistedState::default();
    assert!(state.get_cached_usage().is_none());
    let usage = UsageSnapshot {
        email: Some("a@b.c".to_owned()),
        plan_type: None,
        primary: None,
        secondary: None,
        credit_balance: None,
        has_credits: true,
        unlimited: false,
        reset_credits: 3,
        fetched_at: 9,
    };
    state.record_usage(usage, "/bin/codex".to_owned());
    assert_eq!(state.codex_path.as_deref(), Some("/bin/codex"));
    let cached = state.get_cached_usage().unwrap();
    assert_eq!(cached.email.as_deref(), Some("a@b.c"));
    assert_eq!(cached.reset_credits, 3);
    let copy = state.clone();
    assert_eq!(copy.codex_path, state.codex_path);
    assert_eq!(copy.last_usage.unwrap().fetched_at, 9);
}

#[test]
fn the_state_is_kept_beside_the_program() {
    let place = data_directory(Some("C:/app".to_owned())).unwrap();
    assert_eq!(place.base, "C:/app");
    assert_eq!(place.steps, vec!["data"]);
    assert_eq!(data_directory(None).unwrap_err(), "无法定位应用程序目录");
}

#[test]
fn an_earlier_state_is_taken_over_once() {
    assert!(migrate_legacy_state(true, false));
    assert!(!migrate_legacy_state(true, true));
    assert!(!migrate_legacy_state(false, false));
}

fn changes(mode: &str, address: &str) -> Vec<(String, Option<String>)> {
    configure_proxy(&NetworkSettings {
        mode: mode.to_owned(),
        address: address.to_owned(),
    })
    .unwrap()
    .into_iter()
    .map(|change| (change.name, change.value))
    .collect()
}

const PROXY_VARIABLES: [&str; 6] = [
    "HTTP_PROXY",
    "HTTPS_PROXY",
    "ALL_PROXY",
    "http_proxy",
    "https_proxy",
    "all_proxy",
];

#[test]
fn each_network_mode_changes_the_environment_in_its_way() {
    assert!(changes("system", "anything").is_empty());
    let mut expected: Vec<(String, Option<String>)> = PROXY_VARIABLES
        .iter()
        .map(|name| (name.to_string(), None))
        .collect();
    expected.push(("NO_PROXY".to_owned(), Some("*".to_owned())));
    expected.push(("no_proxy".to_owned(), Some("*".to_owned())));
    assert_eq!(changes("none", ""), expected);
    let mut expected: Vec<(String, Option<String>)> = PROXY_VARIABLES
        .iter()
        .map(|name| (name.to_string(), Some("socks5://h:1".to_owned())))
        .collect();
    expected.push((
        "NO_PROXY".to_owned(),
        Some("localhost,127.0.0.1,::1".to_owned()),
    ));
    assert_eq!(changes("custom", "socks5://h:1"), expected);
}

#[test]
fn bad_network_settings_stop_the_start() {
    let bad = |mode: &str, address: &str| {
        configure_proxy(&NetworkSettings {
            mode: mode.to_owned(),
            address: address.to_owned(),
        })
        .unwrap_err()
    };
    assert_eq!(bad("other", ""), "代理模式无效");
    assert_eq!(
        bad("custom", "ftp://h"),
        "代理地址仅支持 http、https 或 socks5"
    );
    assert_eq!(
        bad("custom", ""),
        "请填写本地代理地址，例如 http://127.0.0.1:7890"
    );
}

#[test]
fn kept_network_settings_can_be_used() {
    let mut state = PersistedState::default();
    set_proxy_settings(&mut state, "custom".to_owned(), "\thost:1\u{3000}".to_owned()).unwrap();
    assert_eq!(state.proxy_address, "http://host:1");
    let network = state.network_settings();
    assert_eq!(configure_proxy(&network).unwrap().len(), 7);
    set_proxy_settings(&mut state, "none".to_owned(), " x ".to_owned()).unwrap();
    assert_eq!(state.proxy_address, "x");
    assert_eq!(configure_proxy(&state.network_settings()).unwrap().len(), 8);
}

#[test]
fn addresses_are_completed_like_the_standard_library_would() {
    for address in [
        " a", "a ", "\u{a0}a\u{2003}", "http://a", "https://a", "socks5://a", "HTTP://a", "a://b",
        "x http://", "://", "  ", "a:b@c://d", "\u{200b}a",
    ] {
        let bare = address.trim();
        let full = if bare.contains("://") {
            bare.to_owned()
        } else {
            format!("http://{bare}")
        };
        let good = !bare.is_empty()
            && (full.starts_with("http://")
                || full.starts_with("https://")
                || full.starts_with("socks5://"));
        let result = normalize_proxy_address(address);
        assert_eq!(result.is_ok(), good, "{address:?}");
        if let Ok(completed) = result {
            assert_eq!(completed, full);
            assert_eq!(normalize_proxy_address(&completed).unwrap(), completed);
        }
    }
}

#[test]
fn both_menus_offer_the_same_actions() {
    let expected = [
        LaunchAction::ShowMain,
        LaunchAction::ToggleFloating,
        LaunchAction::TogglePin,
        LaunchAction::Quit,
    ];
    let tasks = jump_list();
    let items = tray_menu();
    assert_eq!((tasks.len(), items.len()), (4, 4));
    for i in 0..4 {
        assert_eq!(tasks[i].title, items[i].title);
        let args = ["codex-quota.exe".to_owned(), tasks[i].key.to_owned()];
        assert_eq!(launch_action(&args), expected[i]);
        assert_eq!(menu_action(items[i].key), Some(expected[i]));
    }
    assert_eq!(tasks[1].title, "显示 / 隐藏悬浮窗");
    assert_eq!(menu_action("--quit"), None);
}

#[test]
fn the_first_of_several_requests_counts() {
    let args: Vec<String> = ["--quit", "--toggle-pin", "--toggle-floating"]
        .iter()
        .map(|arg| arg.to_string())
        .collect();
    assert_eq!(launch_action(&args), LaunchAction::ToggleFloating);
    assert_eq!(launch_action(&args[..2]), LaunchAction::TogglePin);
    assert_eq!(launch_action(&args[..1]), LaunchAction::Quit);
    assert_eq!(launch_action(&[]), LaunchAction::ShowMain);
}

#[test]
fn the_jump_list_is_registered_in_six_attempts() {
    let mut delays = Vec::new();
    while let Some(delay) = registration_delay(delays.len()) {
        delays.push(delay);
    }
    assert_eq!(delays, vec![0, 200, 500, 1000, 2000, 4000]);
}

fn themed(theme: &str) -> PersistedState {
    let mut state = PersistedState::default();
    state.theme = theme.to_owned();
    state
}

#[test]
fn of_several_waiting_states_the_last_is_written() {
    let mut written = Vec::new();
    let mut latest = None;
    let mut ended = false;
    for event in [
        WriterEvent::Sent(themed("lime")),
        WriterEvent::Sent(themed("cyan")),
        WriterEvent::NothingWaits,
        WriterEvent::NothingWaits,
        WriterEvent::Sent(themed("rose")),
        WriterEvent::Sent(themed("amber")),
        WriterEvent::Closed,
        WriterEvent::Closed,
    ] {
        assert!(!ended);
        match writer_step(latest.take(), event) {
            WriterStep::Look(state) => latest = Some(state),
            WriterStep::Write(state) => written.push(state.theme),
            WriterStep::Wait => {}
            WriterStep::End => ended = true,
        }
    }
    assert!(ended);
    assert_eq!(written, vec!["cyan", "amber"]);
}
