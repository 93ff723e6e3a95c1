use codex_quota::launcher::{
    add_candidate, add_unlisted_candidate, codex_lookups, collect_candidates, find_codex_launcher,
    find_installed_codex, launcher_from_path, launcher_with_extension, order_newest_first,
    CodexLauncher, InstalledVersion, ProbedPath, SearchRoots,
};
use codex_quota::reading::{Reading, ReadingStep};
use codex_quota::usage::UsageSnapshot;

fn path(text: &str) -> String {
    text.to_owned()
}

fn probe(text: &str, is_file: bool) -> ProbedPath {
    ProbedPath {
        path: path(text),
        is_file,
    }
}

fn version(path: &str, modified: Option<i128>) -> InstalledVersion {
    InstalledVersion {
        path: path.to_owned(),
        modified,
    }
}

fn usage(plan: &str) -> UsageSnapshot {
    UsageSnapshot {
        email: None,
        plan_type: Some(plan.to_owned()),
        primary: None,
        secondary: None,
        credit_balance: None,
        has_credits: false,
        unlimited: false,
        reset_credits: 0,
        fetched_at: 0,
    }
}

#[test]
fn finds_an_installed_codex_binary() {
    assert!(!find_codex_launcher(None).unwrap().program.is_empty());
}

#[test]
fn the_system_looks_for_codex_by_its_name() {
    let launcher = find_codex_launcher(None).unwrap();
    assert_eq!(launcher.program, "codex");
    assert_eq!(launcher.args, vec!["app-server", "--listen", "stdio://"]);
    let launcher = find_codex_launcher(Some(path("/opt/codex"))).unwrap();
    assert_eq!(launcher.program, "/opt/codex");
    assert_eq!(launcher.source_path, "/opt/codex");
}

#[test]
fn scripts_are_started_by_the_shell() {
    for name in ["/npm/codex.cmd", "/npm/codex.CMD", "/npm/codex.Bat"] {
        let launcher = launcher_from_path(path(name));
        assert_eq!(launcher.program, "cmd.exe");
        assert_eq!(
            launcher.args,
            vec![
                "/D".to_owned(),
                "/S".to_owned(),
                "/C".to_owned(),
                format!("\"{name}\" app-server --listen stdio://"),
            ]
        );
        assert_eq!(launcher.source_path, name);
    }
    for name in ["/bin/codex.exe", "/bin/codex", "/codex.cmd/codex", "/bin/.cmd"] {
        let launcher = launcher_from_path(path(name));
        assert_eq!(launcher.program, name);
        assert_eq!(launcher.args, vec!["app-server", "--listen", "stdio://"]);
    }
}

#[test]
fn the_extension_decides_how_codex_is_started() {
    let program = |extension| launcher_with_extension(path("/x"), extension).program;
    assert_eq!(program(Some("cmd")), "cmd.exe");
    assert_eq!(program(Some("BAT")), "cmd.exe");
    assert_eq!(program(Some("exe")), "/x");
    assert_eq!(program(Some("")), "/x");
    assert_eq!(program(None), "/x");
    for name in [
        "C:/npm/codex.CMD",
        "C:\\npm\\codex.cmd",
        "\\\\server\\share\\npm\\codex.cmd",
        "\\\\?\\C:\\npm\\codex.cmd",
        "\\\\?\\UNC\\server\\share\\codex.cmd",
        "/a.b/c.d.cmd",
        "/a/..cmd",
        "codex.bat",
        "/npm/codex.cmd/",
        "/npm/codex.cmd//.",
    ] {
        assert_eq!(launcher_from_path(path(name)).program, "cmd.exe", "{name}");
    }
    for name in [
        "codex.",
        "/my.cmd/codex",
        "C:\\tools.cmd\\codex",
        "codex.cmd.exe",
        ".cmd",
        "/npm/.cmd/",
        "/npm/codex.cmd/..",
        "..",
        "",
    ] {
        assert_eq!(launcher_from_path(path(name)).program, name);
    }
}

fn are_same(a: &str, b: &str) -> bool {
    let mut candidates = vec![path(a)];
    add_candidate(&mut candidates, path(b), true);
    candidates.len() == 1
}

#[test]
fn paths_are_told_apart_by_their_names() {
    assert!(are_same("/a/b", "/a/b"));
    assert!(are_same("/a/b", "/a//b/"));
    assert!(are_same("/a/./b", "/a/b"));
    assert!(are_same("a/b/.", "a/b"));
    assert!(!are_same("/a/b", "/a/c"));
    assert!(!are_same("/a", "/a/b"));
    assert!(!are_same("a/b", "/a/b"));
    assert!(!are_same("./a", "a"));
    assert!(!are_same("/a/c", "/a/b/../c"));
    assert!(are_same("./a", "././a/"));
    assert!(are_same("C:/a", "C://a/."));
    assert!(!are_same("/a/B", "/a/b"));
    assert!(!are_same("/A", "/a"));
    assert!(!are_same("", "."));
}

#[test]
fn candidates_are_files_and_named_once() {
    let mut candidates = Vec::new();
    add_candidate(&mut candidates, path("/a"), false);
    assert!(candidates.is_empty());
    add_candidate(&mut candidates, path("/a"), true);
    add_candidate(&mut candidates, path("/a/"), true);
    add_candidate(&mut candidates, path("/b"), true);
    assert_eq!(candidates, vec!["/a", "/b"]);
    add_unlisted_candidate(&mut candidates, path("/b"), true, false);
    add_unlisted_candidate(&mut candidates, path("/c"), true, true);
    add_unlisted_candidate(&mut candidates, path("/d"), false, false);
    assert_eq!(candidates, vec!["/a", "/b", "/b"]);
    let candidates = collect_candidates(vec![
        probe("/x", false),
        probe("/b", true),
        probe("/a", true),
        probe("/b", true),
    ]);
    assert_eq!(candidates, vec!["/b", "/a"]);
}

#[test]
fn the_first_file_is_started() {
    let launcher = find_installed_codex(vec![
        probe("/gone/codex.exe", false),
        probe("/npm/codex.cmd", true),
        probe("/bin/codex.exe", true),
    ])
    .unwrap();
    assert_eq!(launcher.source_path, "/npm/codex.cmd");
    assert_eq!(launcher.program, "cmd.exe");
    let error = find_installed_codex(vec![probe("/gone/codex.exe", false)]).unwrap_err();
    assert_eq!(
        error,
        "未找到 Codex。请先安装 Codex 桌面应用或 Codex CLI，并登录 ChatGPT 账号；也可以通过 CODEX_QUOTA_CODEX_PATH 指定 codex.exe。"
    );
}

#[test]
fn the_latest_version_comes_first() {
    let sorted = order_newest_first(vec![
        version("unknown-a", None),
        version("old", Some(-5)),
        version("tie-a", Some(10)),
        version("new", Some(20)),
        version("tie-b", Some(10)),
        version("unknown-b", None),
    ]);
    let paths: Vec<&str> = sorted.iter().map(|version| version.path.as_str()).collect();
    assert_eq!(
        paths,
        vec!["new", "tie-b", "tie-a", "old", "unknown-b", "unknown-a"]
    );
}

#[test]
fn versions_are_ordered_like_a_stable_sort_read_backwards() {
    let times = [Some(3), None, Some(1), Some(3), Some(2), None, Some(1), Some(9)];
    let list = |()| -> Vec<InstalledVersion> {
        times
            .iter()
            .enumerate()
            .map(|(index, time)| version(&index.to_string(), *time))
            .collect()
    };
    let mut expected = list(());
    expected.sort_by_key(|version| version.modified);
    expected.reverse();
    let sorted = order_newest_first(list(()));
    assert_eq!(sorted.len(), expected.len());
    for (a, b) in sorted.iter().zip(&expected) {
        assert_eq!(a.path, b.path);
    }
}

#[test]
fn codex_is_looked_for_in_a_fixed_order() {
    let lookups = codex_lookups(SearchRoots {
        cached: Some("cached".to_owned()),
        configured: Some("configured".to_owned()),
        local_app_data: Some("local".to_owned()),
        versions: vec![version("v1", Some(1)), version("v2", Some(2))],
        path_directories: vec!["p".to_owned(), "q".to_owned()],
        app_data: Some("roaming".to_owned()),
    });
    let places: Vec<(&str, Vec<&str>)> = lookups
        .iter()
        .map(|lookup| {
            let steps = lookup.steps.iter().map(|step| step.as_str()).collect();
            (lookup.base.as_str(), steps)
        })
        .collect();
    assert_eq!(
        places,
        vec![
            ("cached", vec![]),
            ("configured", vec![]),
            ("local", vec!["OpenAI/Codex/bin", "codex.exe"]),
            ("v2", vec![]),
            ("v1", vec![]),
            ("p", vec!["codex.exe"]),
            ("p", vec!["codex.cmd"]),
            ("p", vec!["codex.bat"]),
            ("q", vec!["codex.exe"]),
            ("q", vec!["codex.cmd"]),
            ("q", vec!["codex.bat"]),
            ("roaming", vec!["npm/codex.cmd"]),
        ]
    );
}

#[test]
fn unknown_roots_are_left_out() {
    let lookups = codex_lookups(SearchRoots {
        cached: None,
        configured: None,
        local_app_data: None,
        versions: vec![version("v1", Some(1))],
        path_directories: Vec::new(),
        app_data: None,
    });
    assert!(lookups.is_empty());
}

fn launcher(text: &str) -> CodexLauncher {
    launcher_from_path(path(text))
}

fn asked(step: ReadingStep) -> (Reading, CodexLauncher) {
    match step {
        ReadingStep::Ask { reading, launcher } => (reading, launcher),
        other => panic!("Codex was to be asked: {other:?}"),
    }
}

fn looked_again(step: ReadingStep) -> Reading {
    match step {
        ReadingStep::LookAgain { reading } => reading,
        other => panic!("Codex was to be looked for again: {other:?}"),
    }
}

fn done(step: ReadingStep) -> Result<(UsageSnapshot, String), String> {
    match step {
        ReadingStep::Done { result } => result,
        other => panic!("the reading was to be over: {other:?}"),
    }
}

#[test]
fn a_first_answer_ends_the_reading() {
    let (reading, asked_launcher) = asked(Reading::new(None).found(Ok(launcher("/a"))));
    assert_eq!(asked_launcher.program, "/a");
    let (snapshot, found) = done(reading.answered(Ok(usage("pro")))).unwrap();
    assert_eq!(snapshot.plan_type.as_deref(), Some("pro"));
    assert_eq!(found, "/a");
    let error = done(Reading::new(None).found(Err("none".to_owned()))).unwrap_err();
    assert_eq!(error, "none");
}

#[test]
fn a_codex_that_was_not_remembered_is_not_looked_for_again() {
    let (reading, _) = asked(Reading::new(None).found(Ok(launcher("/a"))));
    assert_eq!(done(reading.answered(Err("no".to_owned()))).unwrap_err(), "no");
    let (reading, _) = asked(Reading::new(Some(path("/b"))).found(Ok(launcher("/a"))));
    assert_eq!(done(reading.answered(Err("no".to_owned()))).unwrap_err(), "no");
}

#[test]
fn a_remembered_codex_without_an_answer_is_replaced() {
    let start = |()| {
        let (reading, _) = asked(Reading::new(Some(path("/a"))).found(Ok(launcher("/a"))));
        looked_again(reading.answered(Err("stale".to_owned())))
    };
    let (reading, asked_launcher) = asked(start(()).found(Ok(launcher("/b"))));
    assert_eq!(asked_launcher.program, "/b");
    let (snapshot, found) = done(reading.answered(Ok(usage("new")))).unwrap();
    assert_eq!(snapshot.plan_type.as_deref(), Some("new"));
    assert_eq!(found, "/b");

    let (reading, _) = asked(start(()).found(Ok(launcher("/b"))));
    assert_eq!(
        done(reading.answered(Err("broken".to_owned()))).unwrap_err(),
        "缓存的 Codex 路径已失效，自动重新检索后仍无法读取额度：broken"
    );
    assert_eq!(done(start(()).found(Ok(launcher("/a/")))).unwrap_err(), "stale");
    assert_eq!(done(start(()).found(Err("gone".to_owned()))).unwrap_err(), "gone");
}

#[test]
fn what_a_comparison_says_decides_the_step() {
    let again = |()| Reading::LookingAgain {
        attempted: path("/a"),
        error: "stale".to_owned(),
    };
    assert_eq!(done(again(()).found_same(Ok(launcher("/b")), true)).unwrap_err(), "stale");
    let (_, asked_launcher) = asked(again(()).found_same(Ok(launcher("/a")), false));
    assert_eq!(asked_launcher.source_path, "/a");
    let asking = |cached: Option<&str>| Reading::Asking {
        cached: cached.map(path),
        attempted: path("/a"),
    };
    looked_again(asking(Some("/b")).answered_same(Err("no".to_owned()), true));
    assert_eq!(done(asking(None).answered_same(Err("no".to_owned()), true)).unwrap_err(), "no");
    assert_eq!(
        done(asking(Some("/a")).answered_same(Err("no".to_owned()), false)).unwrap_err(),
        "no"
    );
}

#[test]
fn a_remembered_codex_is_known_again_in_another_writing() {
    let (reading, _) = asked(Reading::new(Some(path("/a/./b"))).found(Ok(launcher("/a/b/"))));
    looked_again(reading.answered(Err("stale".to_owned())));
}
