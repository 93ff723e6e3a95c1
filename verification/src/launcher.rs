//! Where Codex is looked for, and how it is started.

use vstd::prelude::*;
use vstd::string::*;

use crate::paths::{
    are_surely_same, ends_in, ends_undotted, is_extension, may_be_same, path_extension,
    same_path, stands_last,
};
use crate::text::{
    ascii_lowered, differ_in_case_only, lowered_texts_differ_in_case_only,
    same_text_ignoring_ascii_case, texts,
};

verus! {

/// Whether a path can be said to be listed, or not: it is where a path of the
/// list is surely the same, and it is not where none can be.
pub open spec fn can_be_listed(list: Seq<Seq<char>>, path: Seq<char>, listed: bool) -> bool {
    &&& (exists|i: int| 0 <= i < list.len() && are_surely_same(#[trigger] list[i], path)) ==> listed
    &&& listed ==> exists|i: int|
        0 <= i < list.len() && may_be_same(#[trigger] list[i], path)
}

/// Whether a list holds a path.
fn is_listed(list: &Vec<String>, path: &str) -> (listed: bool)
    ensures
        can_be_listed(texts(list@), path@, listed),
{
    let ghost all = texts(list@);
    let mut i: usize = 0;
    while i < list.len()
        invariant
            i <= list@.len(),
            all == texts(list@),
            forall|j: int| 0 <= j < i ==> !are_surely_same(#[trigger] all[j], path@),
        decreases list@.len() - i,
    {
        assert(all[i as int] == list@[i as int]@);
        if same_path(list[i].as_str(), path) {
            assert(may_be_same(all[i as int], path@));
            return true;
        }
        i = i + 1;
    }
    false
}

/// A list of candidates and one more: added where it is a file and not listed.
pub open spec fn with_candidate(
    list: Seq<Seq<char>>,
    path: Seq<char>,
    is_file: bool,
    listed: bool,
) -> Seq<Seq<char>> {
    if is_file && !listed {
        list.push(path)
    } else {
        list
    }
}

/// Adds a path to the candidates where it is a file and not listed.
pub fn add_unlisted_candidate(
    candidates: &mut Vec<String>,
    path: String,
    is_file: bool,
    listed: bool,
)
    ensures
        texts(final(candidates)@) == with_candidate(
            texts(old(candidates)@),
            path@,
            is_file,
            listed,
        ),
{
    let ghost before = texts(candidates@);
    if is_file && !listed {
        candidates.push(path);
        assert(texts(candidates@) =~= before.push(path@));
    }
}

/// Adds a path to the candidates where it is a file and not among them.
pub fn add_candidate(candidates: &mut Vec<String>, path: String, is_file: bool)
    ensures
        exists|listed: bool|
            can_be_listed(texts(old(candidates)@), path@, listed) && texts(final(candidates)@)
                == #[trigger] with_candidate(texts(old(candidates)@), path@, is_file, listed),
{
    let listed = is_listed(candidates, path.as_str());
    add_unlisted_candidate(candidates, path, is_file, listed);
}

/// A path, and whether there is a file.
#[derive(Debug)]
pub struct ProbedPath {
    /// The path.
    pub path: String,
    /// Whether there is a file.
    pub is_file: bool,
}

/// The candidates among the paths that were looked at, in their order, if
/// `listed` says of each whether it was listed before.
pub open spec fn candidates_of(probes: Seq<ProbedPath>, listed: Seq<bool>) -> Seq<Seq<char>>
    decreases probes.len(),
{
    if probes.len() == 0 {
        Seq::empty()
    } else {
        with_candidate(
            candidates_of(probes.drop_last(), listed.drop_last()),
            probes.last().path@,
            probes.last().is_file,
            listed.last(),
        )
    }
}

/// Whether `listed` can say of each path whether it was listed before.
pub open spec fn can_all_be_listed(probes: Seq<ProbedPath>, listed: Seq<bool>) -> bool
    decreases probes.len(),
{
    &&& probes.len() == listed.len()
    &&& probes.len() > 0 ==> can_all_be_listed(probes.drop_last(), listed.drop_last())
        && can_be_listed(
        candidates_of(probes.drop_last(), listed.drop_last()),
        probes.last().path@,
        listed.last(),
    )
}

/// The candidates among the paths that were looked at.
pub fn collect_candidates(probes: Vec<ProbedPath>) -> (candidates: Vec<String>)
    ensures
        exists|listed: Seq<bool>|
            can_all_be_listed(probes@, listed) && texts(candidates@) == #[trigger] candidates_of(
                probes@,
                listed,
            ),
{
    let ghost all = probes@;
    let ghost mut verdicts: Seq<bool> = Seq::empty();
    let mut candidates: Vec<String> = Vec::new();
    assert(texts(candidates@) =~= candidates_of(all.take(0), verdicts));
    for probe in it: probes
        invariant
            it.seq() == all,
            can_all_be_listed(all.take(it.index()), verdicts),
            texts(candidates@) == candidates_of(all.take(it.index()), verdicts),
    {
        let listed = is_listed(&candidates, probe.path.as_str());
        proof {
            assert(all.take(it.index() + 1).drop_last() =~= all.take(it.index()));
            assert(verdicts.push(listed).drop_last() =~= verdicts);
            verdicts = verdicts.push(listed);
        }
        add_unlisted_candidate(&mut candidates, probe.path, probe.is_file, listed);
    }
    assert(all.take(all.len() as int) =~= all);
    assert(texts(candidates@) == candidates_of(all, verdicts));
    candidates
}

/// The first path of a list that is a file.
pub open spec fn first_file(probes: Seq<ProbedPath>) -> Option<Seq<char>>
    decreases probes.len(),
{
    if probes.len() == 0 {
        None
    } else if probes[0].is_file {
        Some(probes[0].path@)
    } else {
        first_file(probes.drop_first())
    }
}

/// The first file stays the first one when a path is added.
proof fn lemma_first_file(probes: Seq<ProbedPath>)
    requires
        probes.len() > 0,
    ensures
        first_file(probes) == (match first_file(probes.drop_last()) {
            Some(path) => Some(path),
            None => if probes.last().is_file {
                Some(probes.last().path@)
            } else {
                None
            },
        }),
    decreases probes.len(),
{
    reveal_with_fuel(first_file, 2);
    if probes.len() > 1 && !probes[0].is_file {
        lemma_first_file(probes.drop_first());
        assert(probes.drop_first().drop_last() =~= probes.drop_last().drop_first());
    }
}

/// Whether no two paths of a list are surely the same.
pub open spec fn are_apart(list: Seq<Seq<char>>) -> bool {
    forall|i: int, j: int|
        0 <= i < j < list.len() ==> !are_surely_same(#[trigger] list[i], #[trigger] list[j])
}

/// Whether a path is a file that was looked at.
pub open spec fn is_probed_file(probes: Seq<ProbedPath>, path: Seq<char>) -> bool {
    exists|k: int|
        0 <= k < probes.len() && (#[trigger] probes[k]).is_file && probes[k].path@ == path
}

/// Whether a path may be the same as one of a list.
pub open spec fn may_be_listed(list: Seq<Seq<char>>, path: Seq<char>) -> bool {
    exists|i: int| 0 <= i < list.len() && may_be_same(#[trigger] list[i], path)
}

/// Candidates are apart.
proof fn lemma_candidates_are_apart(probes: Seq<ProbedPath>, listed: Seq<bool>)
    requires
        can_all_be_listed(probes, listed),
    ensures
        are_apart(candidates_of(probes, listed)),
    decreases probes.len(),
{
    if probes.len() > 0 {
        let before = candidates_of(probes.drop_last(), listed.drop_last());
        let list = candidates_of(probes, listed);
        lemma_candidates_are_apart(probes.drop_last(), listed.drop_last());
        assert forall|i: int, j: int| 0 <= i < j < list.len() implies !are_surely_same(
            #[trigger] list[i],
            #[trigger] list[j],
        ) by {
            assert(list[i] == before[i]);
            if j < before.len() {
                assert(list[j] == before[j]);
            }
        }
    }
}

/// Candidates are files that were looked at.
proof fn lemma_candidates_are_files(probes: Seq<ProbedPath>, listed: Seq<bool>)
    ensures
        forall|i: int|
            0 <= i < candidates_of(probes, listed).len() ==> is_probed_file(
                probes,
                #[trigger] candidates_of(probes, listed)[i],
            ),
    decreases probes.len(),
{
    if probes.len() > 0 {
        let front = probes.drop_last();
        let before = candidates_of(front, listed.drop_last());
        let list = candidates_of(probes, listed);
        lemma_candidates_are_files(front, listed.drop_last());
        assert forall|i: int| 0 <= i < list.len() implies is_probed_file(
            probes,
            #[trigger] list[i],
        ) by {
            if i < before.len() {
                assert(list[i] == before[i]);
                let k = choose|k: int|
                    0 <= k < front.len() && (#[trigger] front[k]).is_file && front[k].path@
                        == before[i];
                assert(probes[k] == front[k]);
            } else {
                assert(probes[probes.len() - 1] == probes.last());
            }
        }
    }
}

/// Files that were looked at may be the same as candidates.
proof fn lemma_files_are_listed(probes: Seq<ProbedPath>, listed: Seq<bool>, path: Seq<char>)
    requires
        can_all_be_listed(probes, listed),
        is_probed_file(probes, path),
    ensures
        may_be_listed(candidates_of(probes, listed), path),
    decreases probes.len(),
{
    let front = probes.drop_last();
    let before = candidates_of(front, listed.drop_last());
    let list = candidates_of(probes, listed);
    let k = choose|k: int|
        0 <= k < probes.len() && (#[trigger] probes[k]).is_file && probes[k].path@ == path;
    if k < front.len() {
        assert(front[k] == probes[k]);
        lemma_files_are_listed(front, listed.drop_last(), path);
        let i = choose|i: int|
            0 <= i < before.len() && may_be_same(#[trigger] before[i], path);
        assert(list[i] == before[i]);
    } else if listed.last() {
        assert(list == before);
    } else {
        assert(list[list.len() - 1] == path);
    }
}

/// The first candidate is the first file.
proof fn lemma_first_candidate(probes: Seq<ProbedPath>, listed: Seq<bool>)
    requires
        can_all_be_listed(probes, listed),
    ensures
        first_file(probes) == (if candidates_of(probes, listed).len() > 0 {
            Some(candidates_of(probes, listed)[0])
        } else {
            None
        }),
    decreases probes.len(),
{
    if probes.len() > 0 {
        lemma_first_candidate(probes.drop_last(), listed.drop_last());
        lemma_first_file(probes);
    }
}

/// The candidates are files that were looked at, and no two of them are surely
/// the same; every file that was looked at may be the same as one of them; and
/// the first one is the first file.
pub proof fn candidates_are_different_files(probes: Seq<ProbedPath>, listed: Seq<bool>)
    requires
        can_all_be_listed(probes, listed),
    ensures
        ({
            let list = candidates_of(probes, listed);
            &&& are_apart(list)
            &&& forall|i: int| 0 <= i < list.len() ==> is_probed_file(probes, #[trigger] list[i])
            &&& forall|path: Seq<char>| #[trigger]
                is_probed_file(probes, path) ==> may_be_listed(list, path)
            &&& first_file(probes) == (if list.len() > 0 {
                Some(list[0])
            } else {
                None
            })
        }),
{
    lemma_candidates_are_apart(probes, listed);
    lemma_candidates_are_files(probes, listed);
    lemma_first_candidate(probes, listed);
    assert forall|path: Seq<char>| #[trigger] is_probed_file(probes, path) implies may_be_listed(
        candidates_of(probes, listed),
        path,
    ) by {
        lemma_files_are_listed(probes, listed, path);
    }
}

/// How Codex is started.
#[derive(Debug)]
pub struct CodexLauncher {
    /// Where Codex was found.
    pub source_path: String,
    /// The program that is run.
    pub program: String,
    /// What it is run with.
    pub args: Vec<String>,
}

/// What a [`CodexLauncher`] holds.
pub struct LauncherView {
    pub source_path: Seq<char>,
    pub program: Seq<char>,
    pub args: Seq<Seq<char>>,
}

impl View for CodexLauncher {
    type V = LauncherView;

    open spec fn view(&self) -> LauncherView {
        LauncherView {
            source_path: self.source_path@,
            program: self.program@,
            args: texts(self.args@),
        }
    }
}

/// Whether an extension is that of a script of the command shell, in any case
/// of its letters.
pub open spec fn is_script(extension: Option<Seq<char>>) -> bool {
    match extension {
        Some(extension) => ascii_lowered(extension) == ascii_lowered("cmd"@) || ascii_lowered(
            extension,
        ) == ascii_lowered("bat"@),
        None => false,
    }
}

/// The command line by which the shell starts a script.
pub open spec fn script_command(path: Seq<char>) -> Seq<char> {
    "\""@ + path + "\" app-server --listen stdio://"@
}

/// How the Codex at a path with an extension is started: a script by the
/// command shell, anything else by itself.
pub open spec fn launcher_of(path: Seq<char>, extension: Option<Seq<char>>) -> LauncherView {
    if is_script(extension) {
        LauncherView {
            source_path: path,
            program: "cmd.exe"@,
            args: seq!["/D"@, "/S"@, "/C"@, script_command(path)],
        }
    } else {
        LauncherView {
            source_path: path,
            program: path,
            args: seq!["app-server"@, "--listen"@, "stdio://"@],
        }
    }
}

/// Whether the Codex at a path can be started in a way: by the extension that
/// the path has.
pub open spec fn can_be_launched(path: Seq<char>, launcher: LauncherView) -> bool {
    exists|extension: Option<Seq<char>>|
        is_extension(path, extension) && launcher == #[trigger] launcher_of(path, extension)
}

/// How the Codex at a path with an extension is started.
pub fn launcher_with_extension(path: String, extension: Option<&str>) -> (launcher: CodexLauncher)
    ensures
        launcher@ == launcher_of(
            path@,
            match extension {
                Some(extension) => Some(extension@),
                None => None,
            },
        ),
{
    let script = match extension {
        Some(extension) => same_text_ignoring_ascii_case(extension, "cmd")
            || same_text_ignoring_ascii_case(extension, "bat"),
        None => false,
    };
    let mut args: Vec<String> = Vec::new();
    if script {
        let command = "\"".to_owned().concat(path.as_str()).concat(
            "\" app-server --listen stdio://",
        );
        args.push("/D".to_owned());
        args.push("/S".to_owned());
        args.push("/C".to_owned());
        args.push(command);
        assert(texts(args@) =~= seq!["/D"@, "/S"@, "/C"@, script_command(path@)]);
        CodexLauncher { source_path: path, program: "cmd.exe".to_owned(), args }
    } else {
        args.push("app-server".to_owned());
        args.push("--listen".to_owned());
        args.push("stdio://".to_owned());
        assert(texts(args@) =~= seq!["app-server"@, "--listen"@, "stdio://"@]);
        let program = path.clone();
        CodexLauncher { source_path: path, program, args }
    }
}

/// How the Codex at a path is started.
pub fn launcher_from_path(path: String) -> (launcher: CodexLauncher)
    ensures
        can_be_launched(path@, launcher@),
        forall|extension: Seq<char>| #[trigger]
            ends_in(path@, extension) ==> launcher@ == launcher_of(path@, Some(extension)),
        ends_undotted(path@) ==> launcher@ == launcher_of(path@, None),
{
    let extension = path_extension(path.as_str());
    match extension {
        Some(extension) => launcher_with_extension(path, Some(extension.as_str())),
        None => launcher_with_extension(path, None),
    }
}

/// A path that ends in `.cmd` or `.bat` on each platform, in any case of the
/// letters, is started by the shell; one that ends in something else, or has no
/// extension, is started by itself. None is started by the shell in which no
/// such ending stands last.
pub proof fn only_scripts_are_started_by_the_shell(
    path: Seq<char>,
    extension: Seq<char>,
    launcher: LauncherView,
)
    requires
        can_be_launched(path, launcher),
    ensures
        ends_in(path, extension) && is_script(Some(extension)) ==> launcher == (LauncherView {
            source_path: path,
            program: "cmd.exe"@,
            args: seq!["/D"@, "/S"@, "/C"@, script_command(path)],
        }),
        (ends_in(path, extension) && !is_script(Some(extension))) || ends_undotted(path) || (
        forall|last: Seq<char>, end: int| #[trigger]
            stands_last(path, last, end) ==> !is_script(Some(last))) ==> launcher == (
        LauncherView {
            source_path: path,
            program: path,
            args: seq!["app-server"@, "--listen"@, "stdio://"@],
        }),
{
}

/// The message for a machine on which Codex was not found.
pub open spec fn not_found_message() -> Seq<char> {
    "未找到 Codex。请先安装 Codex 桌面应用或 Codex CLI，并登录 ChatGPT 账号；也可以通过 CODEX_QUOTA_CODEX_PATH 指定 codex.exe。"@
}

/// A result with a launcher or a message, seen as what they hold.
pub open spec fn launcher_outcome(result: Result<CodexLauncher, String>) -> Result<
    LauncherView,
    Seq<char>,
> {
    match result {
        Ok(launcher) => Ok(launcher@),
        Err(message) => Err(message@),
    }
}

/// How Codex is started where it has to be looked for: the first of the paths
/// that is a file.
pub fn find_installed_codex(probes: Vec<ProbedPath>) -> (result: Result<CodexLauncher, String>)
    ensures
        match first_file(probes@) {
            Some(path) => result matches Ok(launcher) && can_be_launched(path, launcher@),
            None => result matches Err(message) && message@ == not_found_message(),
        },
{
    let ghost all = probes@;
    let mut candidates = collect_candidates(probes);
    proof {
        let listed = choose|listed: Seq<bool>|
            can_all_be_listed(all, listed) && texts(candidates@) == #[trigger] candidates_of(
                all,
                listed,
            );
        candidates_are_different_files(all, listed);
    }
    if candidates.len() == 0 {
        return Err(
            "未找到 Codex。请先安装 Codex 桌面应用或 Codex CLI，并登录 ChatGPT 账号；也可以通过 CODEX_QUOTA_CODEX_PATH 指定 codex.exe。".to_owned(),
        );
    }
    assert(texts(candidates@)[0] == candidates@[0]@);
    Ok(launcher_from_path(candidates.remove(0)))
}

/// How Codex is started where the system looks for it: at its last place, or
/// else as the program `codex`.
pub fn find_codex_launcher(cached: Option<String>) -> (result: Result<CodexLauncher, String>)
    ensures
        result matches Ok(launcher) && (match cached {
            Some(path) => can_be_launched(path@, launcher@),
            None => launcher@ == launcher_of("codex"@, None),
        }),
{
    match cached {
        Some(path) => Ok(launcher_from_path(path)),
        None => {
            proof {
                reveal_strlit("codex");
            }
            Ok(launcher_from_path("codex".to_owned()))
        },
    }
}

/// A version of Codex, and when its program was last changed.
#[derive(Debug)]
pub struct InstalledVersion {
    /// The program.
    pub path: String,
    /// When it was changed, in nanoseconds from the epoch; none where that is
    /// not known.
    pub modified: Option<i128>,
}

/// Whether one time is later than another; an unknown one is earlier than any.
pub open spec fn is_later(a: Option<i128>, b: Option<i128>) -> bool {
    match (a, b) {
        (Some(a), Some(b)) => a > b,
        (Some(_), None) => true,
        (None, _) => false,
    }
}

/// How many versions at the front of a list are later than a time.
pub open spec fn later_versions(list: Seq<InstalledVersion>, modified: Option<i128>) -> nat
    decreases list.len(),
{
    if list.len() > 0 && is_later(list[0].modified, modified) {
        1 + later_versions(list.drop_first(), modified)
    } else {
        0
    }
}

/// The versions of a list from the latest to the earliest. Of two versions of
/// the same time the one that was listed later comes first.
pub open spec fn newest_first(list: Seq<InstalledVersion>) -> Seq<InstalledVersion>
    decreases list.len(),
{
    if list.len() == 0 {
        list
    } else {
        let sorted = newest_first(list.drop_last());
        sorted.insert(later_versions(sorted, list.last().modified) as int, list.last())
    }
}

/// Whether one time is later than another.
fn check_later(a: Option<i128>, b: Option<i128>) -> (later: bool)
    ensures
        later == is_later(a, b),
{
    match a {
        Some(a) => match b {
            Some(b) => a > b,
            None => true,
        },
        None => false,
    }
}

/// Bounds and meaning of [`later_versions`].
proof fn lemma_later_versions(list: Seq<InstalledVersion>, modified: Option<i128>)
    ensures
        later_versions(list, modified) <= list.len(),
        forall|i: int|
            0 <= i < later_versions(list, modified) ==> is_later(
                (#[trigger] list[i]).modified,
                modified,
            ),
        later_versions(list, modified) < list.len() ==> !is_later(
            list[later_versions(list, modified) as int].modified,
            modified,
        ),
    decreases list.len(),
{
    if list.len() > 0 && is_later(list[0].modified, modified) {
        let rest = list.drop_first();
        lemma_later_versions(rest, modified);
        assert forall|i: int| 0 <= i < later_versions(list, modified) implies is_later(
            (#[trigger] list[i]).modified,
            modified,
        ) by {
            if i > 0 {
                assert(list[i] == rest[i - 1]);
            }
        }
    }
}

/// [`later_versions`] is the first place at which a version is not later.
proof fn lemma_later_versions_is(list: Seq<InstalledVersion>, modified: Option<i128>, n: int)
    requires
        0 <= n <= list.len(),
        forall|i: int| 0 <= i < n ==> is_later((#[trigger] list[i]).modified, modified),
        n < list.len() ==> !is_later(list[n].modified, modified),
    ensures
        later_versions(list, modified) == n,
{
    lemma_later_versions(list, modified);
}

/// Orders versions from the latest to the earliest.
pub fn order_newest_first(versions: Vec<InstalledVersion>) -> (sorted: Vec<InstalledVersion>)
    ensures
        sorted@ == newest_first(versions@),
{
    let ghost all = versions@;
    let mut sorted: Vec<InstalledVersion> = Vec::new();
    assert(newest_first(all.take(0)) =~= sorted@);
    for version in it: versions
        invariant
            it.seq() == all,
            sorted@ == newest_first(all.take(it.index())),
    {
        let mut at: usize = 0;
        while at < sorted.len() && check_later(sorted[at].modified, version.modified)
            invariant
                at <= sorted@.len(),
                forall|i: int|
                    0 <= i < at ==> is_later((#[trigger] sorted@[i]).modified, version.modified),
            decreases sorted@.len() - at,
        {
            at = at + 1;
        }
        proof {
            lemma_later_versions_is(sorted@, version.modified, at as int);
        }
        assert(all.take(it.index() + 1).drop_last() =~= all.take(it.index()));
        sorted.insert(at, version);
    }
    assert(all.take(all.len() as int) =~= all);
    sorted
}

/// Ordering versions loses none and adds none, and leaves no version behind one
/// that is earlier.
pub proof fn ordered_versions_are_the_same_versions(list: Seq<InstalledVersion>)
    ensures
        newest_first(list).len() == list.len(),
        newest_first(list).to_multiset() == list.to_multiset(),
        forall|i: int, j: int|
            0 <= i < j < list.len() ==> !is_later(
                (#[trigger] newest_first(list)[j]).modified,
                (#[trigger] newest_first(list)[i]).modified,
            ),
    decreases list.len(),
{
    if list.len() > 0 {
        let front = list.drop_last();
        let last = list.last();
        ordered_versions_are_the_same_versions(front);
        let sorted = newest_first(front);
        let at = later_versions(sorted, last.modified) as int;
        lemma_later_versions(sorted, last.modified);
        vstd::seq_lib::to_multiset_insert(sorted, at, last);
        assert(list =~= front.push(last));
        broadcast use vstd::seq_lib::group_to_multiset_ensures;

        assert(list.to_multiset() =~= front.to_multiset().insert(last));
        let all = newest_first(list);
        assert forall|i: int, j: int| 0 <= i < j < list.len() implies !is_later(
            (#[trigger] all[j]).modified,
            (#[trigger] all[i]).modified,
        ) by {
            if i < at && j < at {
                assert(all[i] == sorted[i] && all[j] == sorted[j]);
            } else if i < at && j == at {
                assert(all[i] == sorted[i] && all[j] == last);
            } else if i < at {
                assert(all[i] == sorted[i] && all[j] == sorted[j - 1]);
            } else if i == at {
                assert(all[i] == last && all[j] == sorted[j - 1]);
                assert(!is_later(sorted[at].modified, last.modified));
                if j - 1 > at {
                    assert(!is_later(sorted[j - 1].modified, sorted[at].modified));
                }
            } else {
                assert(all[i] == sorted[i - 1] && all[j] == sorted[j - 1]);
            }
        }
    }
}

/// Of versions of the same time the one that was listed later comes first.
pub proof fn versions_of_one_time_are_reversed(list: Seq<InstalledVersion>, time: Option<i128>)
    requires
        forall|i: int| 0 <= i < list.len() ==> (#[trigger] list[i]).modified == time,
    ensures
        newest_first(list) == list.reverse(),
    decreases list.len(),
{
    if list.len() > 0 {
        let front = list.drop_last();
        assert forall|i: int| 0 <= i < front.len() implies (#[trigger] front[i]).modified
            == time by {
            assert(front[i] == list[i]);
        }
        versions_of_one_time_are_reversed(front, time);
        let sorted = newest_first(front);
        if front.len() > 0 {
            assert(sorted[0] == front[front.len() - 1]);
        }
        assert(later_versions(sorted, list.last().modified) == 0);
        assert(newest_first(list) =~= list.reverse());
    } else {
        assert(newest_first(list) =~= list.reverse());
    }
}

/// What is known of a machine before Codex is looked for on it.
#[derive(Debug)]
pub struct SearchRoots {
    /// Where Codex was found last.
    pub cached: Option<String>,
    /// The path that the user set.
    pub configured: Option<String>,
    /// The directory for the user's programs on this machine.
    pub local_app_data: Option<String>,
    /// The versions of the Codex desktop application in that directory.
    pub versions: Vec<InstalledVersion>,
    /// The directories in which the system looks for programs.
    pub path_directories: Vec<String>,
    /// The directory for the user's programs on all machines.
    pub app_data: Option<String>,
}

/// A place in the file system.
#[derive(Debug)]
pub struct Lookup {
    /// A path.
    pub base: String,
    /// What is joined to it, one after the other; nothing where the path itself
    /// is meant.
    pub steps: Vec<String>,
}

/// A place, seen as its characters.
pub open spec fn place(base: Seq<char>, steps: Seq<Seq<char>>) -> (
    Seq<char>,
    Seq<Seq<char>>,
) {
    (base, steps)
}

/// The places of a list, seen as their characters.
pub open spec fn places(list: Seq<Lookup>) -> Seq<(Seq<char>, Seq<Seq<char>>)> {
    Seq::new(
        list.len(),
        |i: int| place(list[i].base@, texts(list[i].steps@)),
    )
}

/// A place below a directory, where the directory is known.
pub open spec fn below(base: Option<String>, steps: Seq<Seq<char>>) -> Seq<
    (Seq<char>, Seq<Seq<char>>),
> {
    match base {
        Some(base) => seq![place(base@, steps)],
        None => Seq::empty(),
    }
}

/// The programs of a list of versions.
pub open spec fn version_places(versions: Seq<InstalledVersion>) -> Seq<
    (Seq<char>, Seq<Seq<char>>),
> {
    Seq::new(versions.len(), |i: int| place(versions[i].path@, Seq::empty()))
}

/// The three names of Codex in each directory of a list.
pub open spec fn directory_places(directories: Seq<String>) -> Seq<
    (Seq<char>, Seq<Seq<char>>),
>
    decreases directories.len(),
{
    if directories.len() == 0 {
        Seq::empty()
    } else {
        let directory = directories.last()@;
        directory_places(directories.drop_last()) + seq![
            place(directory, seq!["codex.exe"@]),
            place(directory, seq!["codex.cmd"@]),
            place(directory, seq!["codex.bat"@]),
        ]
    }
}

/// The places at which Codex is looked for, in their order: where it was found
/// last, where the user says, the desktop application and its versions from the
/// latest on, the directories in which the system looks for programs, and the
/// packages of npm.
pub open spec fn search_order(roots: SearchRoots) -> Seq<(Seq<char>, Seq<Seq<char>>)> {
    below(roots.cached, Seq::empty()) + below(roots.configured, Seq::empty()) + below(
        roots.local_app_data,
        seq!["OpenAI/Codex/bin"@, "codex.exe"@],
    ) + (if roots.local_app_data is Some {
        version_places(newest_first(roots.versions@))
    } else {
        Seq::empty()
    }) + directory_places(roots.path_directories@) + below(
        roots.app_data,
        seq!["npm/codex.cmd"@],
    )
}

/// One thing to join.
fn one_step(step: &str) -> (steps: Vec<String>)
    ensures
        texts(steps@) == seq![step@],
{
    let mut steps: Vec<String> = Vec::new();
    steps.push(step.to_owned());
    assert(texts(steps@) =~= seq![step@]);
    steps
}

/// Two things to join one after the other.
fn two_steps(first: &str, second: &str) -> (steps: Vec<String>)
    ensures
        texts(steps@) == seq![first@, second@],
{
    let mut steps = one_step(first);
    let ghost before = texts(steps@);
    steps.push(second.to_owned());
    assert(texts(steps@) =~= before.push(second@));
    assert(texts(steps@) =~= seq![first@, second@]);
    steps
}

/// Adds a place below a directory, where the directory is known.
fn push_below(list: &mut Vec<Lookup>, base: Option<String>, steps: Vec<String>)
    ensures
        places(final(list)@) == places(old(list)@) + below(base, texts(steps@)),
{
    let ghost before = places(list@);
    if let Some(base) = base {
        let ghost last = place(base@, texts(steps@));
        list.push(Lookup { base, steps });
        assert(places(list@) =~= before + seq![last]);
    } else {
        assert(places(list@) =~= before + Seq::<(Seq<char>, Seq<Seq<char>>)>::empty());
    }
}

/// The places at which Codex is looked for.
pub fn codex_lookups(roots: SearchRoots) -> (list: Vec<Lookup>)
    ensures
        places(list@) == search_order(roots),
{
    let mut list: Vec<Lookup> = Vec::new();
    assert(places(list@) =~= Seq::empty());
    let none: Vec<String> = Vec::new();
    assert(texts(none@) =~= Seq::empty());
    let has_desktop = roots.local_app_data.is_some();
    push_below(&mut list, roots.cached, none);
    let none: Vec<String> = Vec::new();
    assert(texts(none@) =~= Seq::empty());
    push_below(&mut list, roots.configured, none);
    push_below(&mut list, roots.local_app_data, two_steps("OpenAI/Codex/bin", "codex.exe"));
    let ghost desktop = places(list@);
    assert(desktop =~= below(roots.cached, Seq::empty()) + below(roots.configured, Seq::empty())
        + below(roots.local_app_data, seq!["OpenAI/Codex/bin"@, "codex.exe"@]));
    let ghost versions = newest_first(roots.versions@);
    if has_desktop {
        let sorted = order_newest_first(roots.versions);
        for version in it: sorted
            invariant
                it.seq() == versions,
                places(list@) == desktop + version_places(versions.take(it.index())),
        {
            let ghost before = list@;
            let steps: Vec<String> = Vec::new();
            assert(texts(steps@) =~= Seq::empty());
            list.push(Lookup { base: version.path, steps });
            assert(places(list@) =~= places(before).push(place(version.path@, Seq::empty())));
            assert(version_places(versions.take(it.index() + 1)) =~= version_places(
                versions.take(it.index()),
            ).push(place(version.path@, Seq::empty())));
            assert(places(list@) =~= desktop + version_places(versions.take(it.index() + 1)));
        }
        assert(versions.take(versions.len() as int) =~= versions);
    } else {
        assert(places(list@) =~= desktop + Seq::<(Seq<char>, Seq<Seq<char>>)>::empty());
    }
    let ghost before = places(list@);
    let ghost directories = roots.path_directories@;
    assert(before =~= before + directory_places(directories.take(0)));
    for directory in it: roots.path_directories
        invariant
            it.seq() == directories,
            places(list@) == before + directory_places(directories.take(it.index())),
    {
        let ghost so_far = places(list@);
        assert(directories.take(it.index() + 1).drop_last() =~= directories.take(it.index()));
        push_below(&mut list, Some(directory.clone()), one_step("codex.exe"));
        push_below(&mut list, Some(directory.clone()), one_step("codex.cmd"));
        push_below(&mut list, Some(directory), one_step("codex.bat"));
        assert(places(list@) =~= so_far + seq![
            place(directory@, seq!["codex.exe"@]),
            place(directory@, seq!["codex.cmd"@]),
            place(directory@, seq!["codex.bat"@]),
        ]);
        assert(places(list@) =~= before + directory_places(directories.take(it.index() + 1)));
    }
    assert(directories.take(directories.len() as int) =~= directories);
    push_below(&mut list, roots.app_data, one_step("npm/codex.cmd"));
    assert(places(list@) =~= search_order(roots));
    list
}

/// A file with the extension `cmd` or `bat`, in any case of the letters, is
/// started by the command shell, with the path in quotation marks; a file with
/// any other extension, or none, is started by itself. Either way it is told to
/// be a server that listens on its standard input, and the path is kept.
pub proof fn scripts_are_quoted(path: Seq<char>, extension: Option<Seq<char>>)
    ensures
        ({
            let launcher = launcher_of(path, extension);
            let script = extension matches Some(extension) && (differ_in_case_only(
                extension,
                "cmd"@,
            ) || differ_in_case_only(extension, "bat"@));
            &&& launcher.source_path == path
            &&& script ==> launcher.program == "cmd.exe"@ && launcher.args == seq![
                "/D"@,
                "/S"@,
                "/C"@,
                seq!['"'] + path + seq!['"', ' '] + "app-server"@ + seq![' '] + "--listen"@ + seq![
                    ' ',
                ] + "stdio://"@,
            ]
            &&& !script ==> launcher.program == path && launcher.args == seq![
                "app-server"@,
                "--listen"@,
                "stdio://"@,
            ]
        }),
{
    if let Some(extension) = extension {
        lowered_texts_differ_in_case_only(extension, "cmd"@);
        lowered_texts_differ_in_case_only(extension, "bat"@);
    }
    reveal_strlit("\"");
    reveal_strlit("\" app-server --listen stdio://");
    reveal_strlit("app-server");
    reveal_strlit("--listen");
    reveal_strlit("stdio://");
    assert(script_command(path) =~= seq!['"'] + path + seq!['"', ' '] + "app-server"@ + seq![' ']
        + "--listen"@ + seq![' '] + "stdio://"@);
}

/// The first file of a list is the file before which there is none, and there
/// is none where nothing in the list is a file.
pub proof fn the_first_file_comes_before_the_others(probes: Seq<ProbedPath>, i: int)
    ensures
        0 <= i < probes.len() && probes[i].is_file && (forall|j: int|
            0 <= j < i ==> !(#[trigger] probes[j]).is_file) ==> first_file(probes) == Some(
            probes[i].path@,
        ),
        (forall|j: int| 0 <= j < probes.len() ==> !(#[trigger] probes[j]).is_file) ==> first_file(
            probes,
        ) is None,
        not_found_message()
            == "未找到 Codex。请先安装 Codex 桌面应用或 Codex CLI，并登录 ChatGPT 账号；也可以通过 CODEX_QUOTA_CODEX_PATH 指定 codex.exe。"@,
    decreases probes.len(),
{
    if probes.len() > 0 && !probes[0].is_file {
        let rest = probes.drop_first();
        the_first_file_comes_before_the_others(rest, i - 1);
        if forall|j: int| 0 <= j < probes.len() ==> !(#[trigger] probes[j]).is_file {
            assert forall|j: int| 0 <= j < rest.len() implies !(#[trigger] rest[j]).is_file by {
                assert(!probes[j + 1].is_file);
            }
        }
        if 0 <= i < probes.len() && probes[i].is_file && (forall|j: int|
            0 <= j < i ==> !(#[trigger] probes[j]).is_file) {
            assert(rest[i - 1] == probes[i]);
            assert forall|j: int| 0 <= j < i - 1 implies !(#[trigger] rest[j]).is_file by {
                assert(!probes[j + 1].is_file);
            }
        }
    }
}

/// Candidates keep the order in which they were looked at: what is looked at
/// later is added behind those that there are, once, if it is a file that is not
/// listed, and not at all elsewhere.
pub proof fn candidates_keep_their_order(probes: Seq<ProbedPath>, listed: Seq<bool>, n: int)
    requires
        0 <= n < probes.len(),
        probes.len() == listed.len(),
    ensures
        ({
            let before = candidates_of(probes.take(n), listed.take(n));
            let after = candidates_of(probes.take(n + 1), listed.take(n + 1));
            &&& before.is_prefix_of(after)
            &&& probes[n].is_file && !listed[n] ==> after.len() == before.len() + 1 && after.last()
                == probes[n].path@
            &&& !probes[n].is_file || listed[n] ==> after.len() == before.len()
        }),
{
    assert(probes.take(n + 1).drop_last() =~= probes.take(n));
    assert(listed.take(n + 1).drop_last() =~= listed.take(n));
    let before = candidates_of(probes.take(n), listed.take(n));
    assert(before.push(probes[n].path@).subrange(0, before.len() as int) =~= before);
    assert(before.subrange(0, before.len() as int) =~= before);
}

/// A program that was changed later comes before one that was changed earlier,
/// and one whose change is known before one whose change is not.
pub proof fn newer_versions_come_first(list: Seq<InstalledVersion>, i: int, j: int)
    requires
        0 <= i < j < list.len(),
    ensures
        ({
            let first = newest_first(list)[i].modified;
            let second = newest_first(list)[j].modified;
            &&& first is None ==> second is None
            &&& first is Some && second is Some ==> first->0 >= second->0
        }),
{
    ordered_versions_are_the_same_versions(list);
    let ordered = newest_first(list);
    assert(!is_later(ordered[j].modified, ordered[i].modified));
}

/// Of the versions of one time, whatever stands between them, the one that was
/// listed later comes first.
pub proof fn versions_of_each_time_are_reversed(list: Seq<InstalledVersion>, time: Option<i128>)
    ensures
        newest_first(list).filter(|version: InstalledVersion| version.modified == time)
            == list.filter(|version: InstalledVersion| version.modified == time).reverse(),
    decreases list.len(),
{
    let of_time = |version: InstalledVersion| version.modified == time;
    reveal(Seq::filter);
    if list.len() == 0 {
        assert(newest_first(list).filter(of_time) =~= list.filter(of_time).reverse());
    } else {
        let front = list.drop_last();
        let last = list.last();
        versions_of_each_time_are_reversed(front, time);
        let sorted = newest_first(front);
        let at = later_versions(sorted, last.modified) as int;
        lemma_later_versions(sorted, last.modified);
        let head = sorted.take(at);
        let tail = sorted.skip(at);
        let one = seq![last];
        assert(sorted =~= head + tail);
        assert(newest_first(list) =~= head + one + tail);
        Seq::filter_distributes_over_add(head, tail, of_time);
        Seq::filter_distributes_over_add(head + one, tail, of_time);
        Seq::filter_distributes_over_add(head, one, of_time);
        assert(one.drop_last() =~= Seq::<InstalledVersion>::empty());
        assert(one.drop_last().filter(of_time) =~= Seq::<InstalledVersion>::empty());
        if of_time(last) {
            lemma_none_of_time(head, last.modified);
            assert(one.filter(of_time) =~= one);
            assert(head.filter(of_time) =~= Seq::<InstalledVersion>::empty());
            assert(newest_first(list).filter(of_time) =~= one + sorted.filter(of_time));
            assert(list.filter(of_time) =~= front.filter(of_time).push(last));
            assert(list.filter(of_time).reverse() =~= one + front.filter(of_time).reverse());
        } else {
            assert(one.filter(of_time) =~= Seq::<InstalledVersion>::empty());
            assert(newest_first(list).filter(of_time) =~= sorted.filter(of_time));
            assert(list.filter(of_time) =~= front.filter(of_time));
        }
    }
}

/// Among versions that are all later than a time there is none of that time.
proof fn lemma_none_of_time(list: Seq<InstalledVersion>, time: Option<i128>)
    requires
        forall|i: int| 0 <= i < list.len() ==> is_later((#[trigger] list[i]).modified, time),
    ensures
        list.filter(|version: InstalledVersion| version.modified == time).len() == 0,
    decreases list.len(),
{
    reveal(Seq::filter);
    if list.len() > 0 {
        let front = list.drop_last();
        assert forall|i: int| 0 <= i < front.len() implies is_later(
            (#[trigger] front[i]).modified,
            time,
        ) by {
            assert(front[i] == list[i]);
        }
        lemma_none_of_time(front, time);
        assert(is_later(list[list.len() - 1].modified, time));
    }
}

/// The places in a list of directories, one by one.
proof fn lemma_directory_places(directories: Seq<String>, k: int)
    ensures
        directory_places(directories).len() == 3 * directories.len(),
        0 <= k < directories.len() ==> {
            let list = directory_places(directories);
            &&& list[3 * k] == (directories[k]@, seq!["codex.exe"@])
            &&& list[3 * k + 1] == (directories[k]@, seq!["codex.cmd"@])
            &&& list[3 * k + 2] == (directories[k]@, seq!["codex.bat"@])
        },
    decreases directories.len(),
{
    if directories.len() > 0 {
        lemma_directory_places(directories.drop_last(), k);
    }
}

/// Codex is looked for first where it was found last, then where the user says,
/// then at the place of its desktop application, then among that application's
/// versions from the newest on, then under three names in each directory in
/// which the system looks for programs, in the order of those directories, and
/// at last among the packages of npm. What is not known is passed over, and the
/// versions with the directory that they are in.
pub proof fn codex_is_looked_for_in_order(roots: SearchRoots, i: int, k: int)
    ensures
        ({
            let list = search_order(roots);
            let known = |path: Option<String>|
                if path is Some {
                    1int
                } else {
                    0int
                };
            let desktop = known(roots.cached) + known(roots.configured);
            let versions = desktop + known(roots.local_app_data);
            let count = if roots.local_app_data is Some {
                roots.versions@.len() as int
            } else {
                0
            };
            let directories = versions + count;
            let packages = directories + 3 * roots.path_directories@.len();
            &&& roots.cached matches Some(path) ==> list[0] == (path@, Seq::<Seq<char>>::empty())
            &&& roots.configured matches Some(path) ==> list[known(roots.cached)] == (
                path@,
                Seq::<Seq<char>>::empty(),
            )
            &&& roots.local_app_data matches Some(path) ==> list[desktop] == (
                path@,
                seq!["OpenAI/Codex/bin"@, "codex.exe"@],
            )
            &&& 0 <= i < count ==> list[versions + i] == (
                newest_first(roots.versions@)[i].path@,
                Seq::<Seq<char>>::empty(),
            )
            &&& 0 <= k < roots.path_directories@.len() ==> {
                let directory = roots.path_directories@[k]@;
                &&& list[directories + 3 * k] == (directory, seq!["codex.exe"@])
                &&& list[directories + 3 * k + 1] == (directory, seq!["codex.cmd"@])
                &&& list[directories + 3 * k + 2] == (directory, seq!["codex.bat"@])
            }
            &&& roots.app_data matches Some(path) ==> list[packages] == (
                path@,
                seq!["npm/codex.cmd"@],
            )
            &&& list.len() == packages + known(roots.app_data)
        }),
{
    ordered_versions_are_the_same_versions(roots.versions@);
    lemma_directory_places(roots.path_directories@, k);
}

/// What is said of a launcher's parts is said of its fields, and a place is
/// seen as the path and the steps that it has.
pub proof fn launchers_are_seen_as_they_are(
    launcher: CodexLauncher,
    message: String,
    list: Seq<Lookup>,
    i: int,
)
    ensures
        launcher@.source_path == launcher.source_path@,
        launcher@.program == launcher.program@,
        launcher@.args == texts(launcher.args@),
        launcher_outcome(Ok::<CodexLauncher, String>(launcher)) == Ok::<LauncherView, Seq<char>>(
            launcher@,
        ),
        launcher_outcome(Err::<CodexLauncher, String>(message)) == Err::<LauncherView, Seq<char>>(
            message@,
        ),
        places(list).len() == list.len(),
        0 <= i < list.len() ==> places(list)[i] == (list[i].base@, texts(list[i].steps@)),
{
}

} // verus!
