//! Reading the rate limits: Codex is looked for and asked, and looked for once
//! more where the one that was remembered gives no answer.

use vstd::prelude::*;
use vstd::string::*;

use crate::launcher::{launcher_outcome, CodexLauncher, LauncherView};
use crate::paths::{are_surely_same, can_be_called, may_be_same, same_path};
use crate::text::optional_text;
use crate::usage::{usage_outcome, UsageSnapshot, UsageView};

verus! {

/// How far a reading has come.
#[derive(Debug)]
pub enum Reading {
    /// Codex is looked for, first of all where it was found last.
    Looking { cached: Option<String> },
    /// Codex is asked.
    Asking { cached: Option<String>, attempted: String },
    /// The Codex that was found last did not answer; another one is looked for.
    LookingAgain { attempted: String, error: String },
    /// That other one is asked.
    AskingAgain { fresh: String },
}

/// What a [`Reading`] holds.
pub enum ReadingView {
    Looking { cached: Option<Seq<char>> },
    Asking { cached: Option<Seq<char>>, attempted: Seq<char> },
    LookingAgain { attempted: Seq<char>, error: Seq<char> },
    AskingAgain { fresh: Seq<char> },
}

impl View for Reading {
    type V = ReadingView;

    open spec fn view(&self) -> ReadingView {
        match self {
            Reading::Looking { cached } => ReadingView::Looking { cached: optional_text(*cached) },
            Reading::Asking { cached, attempted } => ReadingView::Asking {
                cached: optional_text(*cached),
                attempted: attempted@,
            },
            Reading::LookingAgain { attempted, error } => ReadingView::LookingAgain {
                attempted: attempted@,
                error: error@,
            },
            Reading::AskingAgain { fresh } => ReadingView::AskingAgain { fresh: fresh@ },
        }
    }
}

/// What is to be done next.
#[derive(Debug)]
pub enum ReadingStep {
    /// Start Codex and ask it.
    Ask { reading: Reading, launcher: CodexLauncher },
    /// Look for Codex, and not where it was found last.
    LookAgain { reading: Reading },
    /// Nothing: the reading is over.
    Done { result: Result<(UsageSnapshot, String), String> },
}

/// What a [`ReadingStep`] holds.
pub enum ReadingStepView {
    Ask { reading: ReadingView, launcher: LauncherView },
    LookAgain { reading: ReadingView },
    Done { result: Result<(UsageView, Seq<char>), Seq<char>> },
}

/// The result of a reading, seen as what it holds.
pub open spec fn reading_outcome(result: Result<(UsageSnapshot, String), String>) -> Result<
    (UsageView, Seq<char>),
    Seq<char>,
> {
    match result {
        Ok((usage, path)) => Ok((usage@, path@)),
        Err(message) => Err(message@),
    }
}

impl View for ReadingStep {
    type V = ReadingStepView;

    open spec fn view(&self) -> ReadingStepView {
        match self {
            ReadingStep::Ask { reading, launcher } => ReadingStepView::Ask {
                reading: reading@,
                launcher: launcher@,
            },
            ReadingStep::LookAgain { reading } => ReadingStepView::LookAgain { reading: reading@ },
            ReadingStep::Done { result } => ReadingStepView::Done {
                result: reading_outcome(*result),
            },
        }
    }
}

/// Whether Codex is being looked for.
pub open spec fn is_looking(reading: ReadingView) -> bool {
    reading is Looking || reading is LookingAgain
}

/// What is done after Codex was looked for. On the second time the message of
/// the first attempt stands where the Codex that was found is the `same`.
pub open spec fn after_looking(
    reading: ReadingView,
    found: Result<LauncherView, Seq<char>>,
    same: bool,
) -> ReadingStepView {
    match found {
        Err(message) => ReadingStepView::Done { result: Err(message) },
        Ok(launcher) => match reading {
            ReadingView::Looking { cached } => ReadingStepView::Ask {
                reading: ReadingView::Asking { cached, attempted: launcher.source_path },
                launcher,
            },
            ReadingView::LookingAgain { attempted, error } => if same {
                ReadingStepView::Done { result: Err(error) }
            } else {
                ReadingStepView::Ask {
                    reading: ReadingView::AskingAgain { fresh: launcher.source_path },
                    launcher,
                }
            },
            _ => arbitrary(),
        },
    }
}

/// Whether the Codex that was found can be called the same as the one that was
/// asked, or not.
pub open spec fn can_be_found_same(
    reading: ReadingView,
    found: Result<LauncherView, Seq<char>>,
    same: bool,
) -> bool {
    match (reading, found) {
        (ReadingView::LookingAgain { attempted, .. }, Ok(launcher)) => can_be_called(
            launcher.source_path,
            attempted,
            same,
        ),
        _ => true,
    }
}

/// The message for a Codex that was looked for anew and does not answer either.
pub open spec fn stale_message(message: Seq<char>) -> Seq<char> {
    "缓存的 Codex 路径已失效，自动重新检索后仍无法读取额度："@ + message
}

/// What is done after Codex was asked. A Codex that gave no answer is looked
/// for anew where it is the `same` as the one that was found last, and only
/// once.
pub open spec fn after_asking(
    reading: ReadingView,
    answer: Result<UsageView, Seq<char>>,
    same: bool,
) -> ReadingStepView {
    match reading {
        ReadingView::Asking { cached, attempted } => match answer {
            Ok(usage) => ReadingStepView::Done { result: Ok((usage, attempted)) },
            Err(message) => if cached is Some && same {
                ReadingStepView::LookAgain {
                    reading: ReadingView::LookingAgain { attempted, error: message },
                }
            } else {
                ReadingStepView::Done { result: Err(message) }
            },
        },
        ReadingView::AskingAgain { fresh } => match answer {
            Ok(usage) => ReadingStepView::Done { result: Ok((usage, fresh)) },
            Err(message) => ReadingStepView::Done { result: Err(stale_message(message)) },
        },
        _ => arbitrary(),
    }
}

/// Whether the Codex that was asked can be called the same as the one that was
/// found last, or not.
pub open spec fn can_be_asked_same(reading: ReadingView, same: bool) -> bool {
    match reading {
        ReadingView::Asking { cached: Some(path), attempted } => can_be_called(
            path,
            attempted,
            same,
        ),
        _ => true,
    }
}

impl Reading {
    /// A reading that begins.
    pub fn new(cached: Option<String>) -> (reading: Self)
        ensures
            reading@ == (ReadingView::Looking { cached: optional_text(cached) }),
    {
        Reading::Looking { cached }
    }

    /// Goes on after Codex was looked for, if `same` says whether it is the one
    /// that was asked.
    pub fn found_same(self, found: Result<CodexLauncher, String>, same: bool) -> (step: ReadingStep)
        requires
            is_looking(self@),
        ensures
            step@ == after_looking(self@, launcher_outcome(found), same),
    {
        let launcher = match found {
            Ok(launcher) => launcher,
            Err(message) => {
                return ReadingStep::Done { result: Err(message) };
            },
        };
        match self {
            Reading::LookingAgain { attempted: _, error } => {
                if same {
                    return ReadingStep::Done { result: Err(error) };
                }
                let fresh = launcher.source_path.clone();
                ReadingStep::Ask { reading: Reading::AskingAgain { fresh }, launcher }
            },
            Reading::Looking { cached } => {
                let attempted = launcher.source_path.clone();
                ReadingStep::Ask { reading: Reading::Asking { cached, attempted }, launcher }
            },
            other => ReadingStep::LookAgain { reading: other },
        }
    }

    /// Goes on after Codex was looked for.
    pub fn found(self, found: Result<CodexLauncher, String>) -> (step: ReadingStep)
        requires
            is_looking(self@),
        ensures
            exists|same: bool|
                can_be_found_same(self@, launcher_outcome(found), same) && step@
                    == #[trigger] after_looking(self@, launcher_outcome(found), same),
    {
        let same = match (&self, &found) {
            (Reading::LookingAgain { attempted, .. }, Ok(launcher)) => same_path(
                launcher.source_path.as_str(),
                attempted.as_str(),
            ),
            _ => false,
        };
        self.found_same(found, same)
    }

    /// Goes on after Codex was asked, if `same` says whether it is the one that
    /// was found last.
    pub fn answered_same(self, answer: Result<UsageSnapshot, String>, same: bool) -> (step:
        ReadingStep)
        requires
            !is_looking(self@),
        ensures
            step@ == after_asking(self@, usage_outcome(answer), same),
    {
        match self {
            Reading::Asking { cached, attempted } => match answer {
                Ok(usage) => ReadingStep::Done { result: Ok((usage, attempted)) },
                Err(error) => {
                    if cached.is_some() && same {
                        ReadingStep::LookAgain {
                            reading: Reading::LookingAgain { attempted, error },
                        }
                    } else {
                        ReadingStep::Done { result: Err(error) }
                    }
                },
            },
            Reading::AskingAgain { fresh } => match answer {
                Ok(usage) => ReadingStep::Done { result: Ok((usage, fresh)) },
                Err(error) => ReadingStep::Done {
                    result: Err(
                        "缓存的 Codex 路径已失效，自动重新检索后仍无法读取额度：".to_owned().concat(
                            error.as_str(),
                        ),
                    ),
                },
            },
            other => ReadingStep::LookAgain { reading: other },
        }
    }

    /// Goes on after Codex was asked.
    pub fn answered(self, answer: Result<UsageSnapshot, String>) -> (step: ReadingStep)
        requires
            !is_looking(self@),
        ensures
            exists|same: bool|
                can_be_asked_same(self@, same) && step@ == #[trigger] after_asking(
                    self@,
                    usage_outcome(answer),
                    same,
                ),
    {
        let same = match &self {
            Reading::Asking { cached: Some(path), attempted } => same_path(
                path.as_str(),
                attempted.as_str(),
            ),
            _ => false,
        };
        self.answered_same(answer, same)
    }
}

/// How many steps a reading can still take.
pub open spec fn steps_left(reading: ReadingView) -> nat {
    match reading {
        ReadingView::Looking { .. } => 4,
        ReadingView::Asking { .. } => 3,
        ReadingView::LookingAgain { .. } => 2,
        ReadingView::AskingAgain { .. } => 1,
    }
}

/// The reading that a step leads to, if it is not over.
pub open spec fn continued(step: ReadingStepView) -> Option<ReadingView> {
    match step {
        ReadingStepView::Ask { reading, .. } => Some(reading),
        ReadingStepView::LookAgain { reading } => Some(reading),
        ReadingStepView::Done { .. } => None,
    }
}

/// A reading ends after at most four steps, two of which ask Codex: each step
/// leaves fewer, asking follows only on looking, and looking only on asking.
pub proof fn readings_end(
    reading: ReadingView,
    found: Result<LauncherView, Seq<char>>,
    answer: Result<UsageView, Seq<char>>,
    same: bool,
)
    ensures
        is_looking(reading) ==> {
            let step = after_looking(reading, found, same);
            &&& step !is LookAgain
            &&& continued(step) matches Some(next) ==> !is_looking(next) && steps_left(next)
                < steps_left(reading)
        },
        !is_looking(reading) ==> {
            let step = after_asking(reading, answer, same);
            &&& step !is Ask
            &&& continued(step) matches Some(next) ==> is_looking(next) && steps_left(next)
                < steps_left(reading)
        },
{
}

/// What is found and answered on the way of a reading.
pub struct ReadingCourse {
    /// What is found at first.
    pub found: Result<LauncherView, Seq<char>>,
    /// What it answers.
    pub answer: Result<UsageView, Seq<char>>,
    /// Whether it is the one that was remembered.
    pub was_cached: bool,
    /// What is found where Codex is looked for once more.
    pub found_again: Result<LauncherView, Seq<char>>,
    /// Whether it is the one that was found at first.
    pub is_same: bool,
    /// What it answers.
    pub answer_again: Result<UsageView, Seq<char>>,
}

/// The result of a reading, by what is found and answered on its way.
pub open spec fn reading_result(cached: Option<Seq<char>>, course: ReadingCourse) -> Result<
    (UsageView, Seq<char>),
    Seq<char>,
> {
    match course.found {
        Err(message) => Err(message),
        Ok(launcher) => match course.answer {
            Ok(usage) => Ok((usage, launcher.source_path)),
            Err(message) => if cached is None || !course.was_cached {
                Err(message)
            } else {
                match course.found_again {
                    Err(message) => Err(message),
                    Ok(other) => if course.is_same {
                        Err(message)
                    } else {
                        match course.answer_again {
                            Ok(usage) => Ok((usage, other.source_path)),
                            Err(message) => Err(stale_message(message)),
                        }
                    },
                }
            },
        },
    }
}

/// The steps of a reading from the first to the last.
pub open spec fn run_of(cached: Option<Seq<char>>, course: ReadingCourse) -> ReadingStepView {
    let first = after_looking(ReadingView::Looking { cached }, course.found, false);
    match continued(first) {
        None => first,
        Some(asking) => {
            let second = after_asking(asking, course.answer, course.was_cached);
            match continued(second) {
                None => second,
                Some(looking) => {
                    let third = after_looking(looking, course.found_again, course.is_same);
                    match continued(third) {
                        None => third,
                        Some(asking) => after_asking(asking, course.answer_again, false),
                    }
                },
            }
        },
    }
}

/// The steps of a reading lead to its result.
pub proof fn readings_come_to_their_result(cached: Option<Seq<char>>, course: ReadingCourse)
    ensures
        run_of(cached, course) == (ReadingStepView::Done {
            result: reading_result(cached, course),
        }),
{
}

/// Whether the two comparisons on the way of a reading can have come out as they
/// did.
pub open spec fn can_be_course(cached: Option<Seq<char>>, course: ReadingCourse) -> bool {
    &&& cached is Some && course.found is Ok ==> can_be_called(
        cached->0,
        course.found->Ok_0.source_path,
        course.was_cached,
    )
    &&& course.found is Ok && course.found_again is Ok ==> can_be_called(
        course.found_again->Ok_0.source_path,
        course.found->Ok_0.source_path,
        course.is_same,
    )
}

/// A remembered Codex that gives no answer is replaced by another one that
/// does: where the path that was asked is the remembered one, and the path that
/// is found then is another one on each platform, what that one answers is the
/// result, together with its path.
pub proof fn a_stale_codex_is_replaced(
    cached: Seq<char>,
    course: ReadingCourse,
    attempted: LauncherView,
    fresh: LauncherView,
    usage: UsageView,
)
    requires
        can_be_course(Some(cached), course),
        course.found == Ok::<LauncherView, Seq<char>>(attempted),
        are_surely_same(cached, attempted.source_path),
        course.answer is Err,
        course.found_again == Ok::<LauncherView, Seq<char>>(fresh),
        !may_be_same(fresh.source_path, attempted.source_path),
        course.answer_again == Ok::<UsageView, Seq<char>>(usage),
    ensures
        run_of(Some(cached), course) == (ReadingStepView::Done {
            result: Ok((usage, fresh.source_path)),
        }),
{
}

/// The Codex that was found is the one that is asked, and no other, the first
/// time and the second time; it is asked wherever it was found, but for a second
/// time that finds the same again.
pub proof fn the_codex_that_was_found_is_asked(
    cached: Option<Seq<char>>,
    attempted: Seq<char>,
    error: Seq<char>,
    launcher: LauncherView,
    same: bool,
)
    ensures
        after_looking(
            ReadingView::Looking { cached },
            Ok::<LauncherView, Seq<char>>(launcher),
            same,
        ) == (ReadingStepView::Ask {
            reading: ReadingView::Asking { cached, attempted: launcher.source_path },
            launcher,
        }),
        after_looking(
            ReadingView::LookingAgain { attempted, error },
            Ok::<LauncherView, Seq<char>>(launcher),
            false,
        ) == (ReadingStepView::Ask {
            reading: ReadingView::AskingAgain { fresh: launcher.source_path },
            launcher,
        }),
        after_looking(
            ReadingView::LookingAgain { attempted, error },
            Ok::<LauncherView, Seq<char>>(launcher),
            true,
        ) == (ReadingStepView::Done { result: Err(error) }),
{
}

/// An answer ends a reading: the result is that answer, together with the path
/// of the Codex that gave it, whatever else could have been found.
pub proof fn the_first_answer_is_the_result(
    cached: Option<Seq<char>>,
    course: ReadingCourse,
    launcher: LauncherView,
    usage: UsageView,
)
    requires
        course.found == Ok::<LauncherView, Seq<char>>(launcher),
        course.answer == Ok::<UsageView, Seq<char>>(usage),
    ensures
        run_of(cached, course) == (ReadingStepView::Done {
            result: Ok((usage, launcher.source_path)),
        }),
{
}

/// A reading without an answer ends with the message that tells most of it:
/// that Codex was not found; what the one that was found says, if none was
/// remembered or another one; that none was found the second time; what the
/// first one said, if it is found again; and what the other one says, after the
/// words that the remembered path is no longer good.
pub proof fn readings_without_an_answer_say_why(
    cached: Option<Seq<char>>,
    course: ReadingCourse,
    message: Seq<char>,
    again: Seq<char>,
)
    ensures
        ({
            let said = |text: Seq<char>|
                run_of(cached, course) == (ReadingStepView::Done { result: Err(text) });
            let failed = course.found is Ok && course.answer == Err::<UsageView, Seq<char>>(message);
            let replaced = failed && cached is Some && course.was_cached;
            &&& course.found == Err::<LauncherView, Seq<char>>(message) ==> said(message)
            &&& failed && (cached is None || !course.was_cached) ==> said(message)
            &&& replaced && course.found_again == Err::<LauncherView, Seq<char>>(again) ==> said(
                again,
            )
            &&& replaced && course.found_again is Ok && course.is_same ==> said(message)
            &&& replaced && course.found_again is Ok && !course.is_same && course.answer_again
                == Err::<UsageView, Seq<char>>(again) ==> said(
                "缓存的 Codex 路径已失效，自动重新检索后仍无法读取额度："@ + again,
            )
        }),
{
}

/// What is said of a step is said of what it does: a launcher that is asked, a
/// search, or a result with its snapshot and its path.
pub proof fn steps_are_seen_as_they_are(step: ReadingStep)
    ensures
        step matches ReadingStep::Ask { reading, launcher } ==> step@ == (ReadingStepView::Ask {
            reading: reading@,
            launcher: launcher@,
        }),
        step matches ReadingStep::LookAgain { reading } ==> step@ == (ReadingStepView::LookAgain {
            reading: reading@,
        }),
        step matches ReadingStep::Done { result: Ok((usage, path)) } ==> step@ == (
        ReadingStepView::Done { result: Ok((usage@, path@)) }),
        step matches ReadingStep::Done { result: Err(message) } ==> step@ == (
        ReadingStepView::Done { result: Err(message@) }),
{
}

} // verus!
