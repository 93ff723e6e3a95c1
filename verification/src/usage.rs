//! What a Codex app server says of an account's rate limits.

use vstd::prelude::*;
use vstd::string::*;

use crate::json::{flag_in, get_in, optional_view, text_in, Json, JsonView};
use crate::text::{
    ascii_lowered, differ_in_case_only, lowered_texts_differ_in_case_only, optional_text,
    same_text_ignoring_ascii_case,
};

verus! {

/// One rate-limit window.
#[derive(Debug, Clone, Copy, PartialEq, Eq, Structural)]
pub struct RateWindow {
    /// The bits, in double precision, of the share that is used, in percent.
    pub used_percent_bits: u64,
    /// The length of the window in minutes.
    pub window_duration_mins: u64,
    /// When the window starts anew, in seconds since the epoch.
    pub resets_at: u64,
}

/// The rate limits of an account at one moment.
#[derive(Debug)]
pub struct UsageSnapshot {
    /// The account's address.
    pub email: Option<String>,
    /// The account's plan.
    pub plan_type: Option<String>,
    /// The short window.
    pub primary: Option<RateWindow>,
    /// The long window.
    pub secondary: Option<RateWindow>,
    /// The credits that are left, as the server writes them.
    pub credit_balance: Option<String>,
    /// Whether the account has credits.
    pub has_credits: bool,
    /// Whether the account's credits have no limit.
    pub unlimited: bool,
    /// How often a window can be started anew.
    pub reset_credits: u64,
    /// When the server was asked, in seconds since the epoch.
    pub fetched_at: u64,
}

/// What a [`UsageSnapshot`] holds.
pub struct UsageView {
    pub email: Option<Seq<char>>,
    pub plan_type: Option<Seq<char>>,
    pub primary: Option<RateWindow>,
    pub secondary: Option<RateWindow>,
    pub credit_balance: Option<Seq<char>>,
    pub has_credits: bool,
    pub unlimited: bool,
    pub reset_credits: u64,
    pub fetched_at: u64,
}

impl View for UsageSnapshot {
    type V = UsageView;

    open spec fn view(&self) -> UsageView {
        UsageView {
            email: optional_text(self.email),
            plan_type: optional_text(self.plan_type),
            primary: self.primary,
            secondary: self.secondary,
            credit_balance: optional_text(self.credit_balance),
            has_credits: self.has_credits,
            unlimited: self.unlimited,
            reset_credits: self.reset_credits,
            fetched_at: self.fetched_at,
        }
    }
}

impl Clone for UsageSnapshot {
    fn clone(&self) -> (copy: Self)
        ensures
            copy == *self,
    {
        UsageSnapshot {
            email: self.email.clone(),
            plan_type: self.plan_type.clone(),
            primary: self.primary,
            secondary: self.secondary,
            credit_balance: self.credit_balance.clone(),
            has_credits: self.has_credits,
            unlimited: self.unlimited,
            reset_credits: self.reset_credits,
            fetched_at: self.fetched_at,
        }
    }
}

/// The window that a JSON value describes: none where one of its three numbers
/// is missing.
pub open spec fn window_of(value: Option<JsonView>) -> Option<RateWindow> {
    match (
        get_in(value, "usedPercent"@),
        get_in(value, "windowDurationMins"@),
        get_in(value, "resetsAt"@),
    ) {
        (Some(used), Some(duration), Some(resets)) => match (
            used.as_float_bits(),
            duration.as_unsigned(),
            resets.as_unsigned(),
        ) {
            (Some(used), Some(duration), Some(resets)) => Some(
                RateWindow {
                    used_percent_bits: used,
                    window_duration_mins: duration,
                    resets_at: resets,
                },
            ),
            _ => None,
        },
        _ => None,
    }
}

/// Reads a rate-limit window.
pub fn parse_window(value: Option<&Json>) -> (window: Option<RateWindow>)
    ensures
        window == window_of(optional_view(value)),
{
    let value = value?;
    Some(
        RateWindow {
            used_percent_bits: value.get("usedPercent")?.as_float_bits()?,
            window_duration_mins: value.get("windowDurationMins")?.as_unsigned()?,
            resets_at: value.get("resetsAt")?.as_unsigned()?,
        },
    )
}

/// The result part of the answer about the account.
pub open spec fn account_result(account: Option<JsonView>) -> Option<JsonView> {
    get_in(account, "result"@)
}

/// The account in the answer about the account.
pub open spec fn account_info(account: Option<JsonView>) -> Option<JsonView> {
    get_in(account_result(account), "account"@)
}

/// Whether Codex asks for a login and names no account.
pub open spec fn is_logged_out(account: Option<JsonView>) -> bool {
    flag_in(get_in(account_result(account), "requiresOpenaiAuth"@)) && (account_info(account)
        is None || account_info(account) == Some(JsonView::Null))
}

/// Whether the account is an API key, in any case of its letters.
pub open spec fn uses_api_key(account: Option<JsonView>) -> bool {
    match text_in(get_in(account_info(account), "type"@)) {
        Some(kind) => ascii_lowered(kind) == ascii_lowered("apiKey"@),
        None => false,
    }
}

/// The limits in a result: those of Codex where limits are listed by name,
/// those of the account elsewhere.
pub open spec fn limits_of(result: JsonView) -> Option<JsonView> {
    match get_in(result.get("rateLimitsByLimitId"@), "codex"@) {
        Some(limits) => Some(limits),
        None => result.get("rateLimits"@),
    }
}

/// The message for a machine on which Codex is not logged in.
pub open spec fn logged_out_message() -> Seq<char> {
    "这台电脑上的 Codex 尚未登录。请先打开 Codex 登录 ChatGPT 账号，或在终端执行 codex login，然后返回应用重试。"@
}

/// The message for an account that is an API key.
pub open spec fn api_key_message() -> Seq<char> {
    "当前 Codex 使用 API Key 登录，无法读取 ChatGPT 订阅额度。请改用 ChatGPT 账号登录 Codex。"@
}

/// The message for an error that Codex reports.
pub open spec fn reported_message(error: JsonView) -> Seq<char> {
    "Codex 无法读取额度："@ + match text_in(error.get("message"@)) {
        Some(message) => message,
        None => "未知错误"@,
    }
}

/// The snapshot that a result and its limits describe.
pub open spec fn snapshot_of(
    result: JsonView,
    limits: JsonView,
    account: Option<JsonView>,
    fetched_at: u64,
) -> UsageView {
    let credits = limits.get("credits"@);
    UsageView {
        email: text_in(get_in(account_info(account), "email"@)),
        plan_type: match text_in(limits.get("planType"@)) {
            Some(plan) => Some(plan),
            None => text_in(get_in(account_info(account), "planType"@)),
        },
        primary: window_of(limits.get("primary"@)),
        secondary: window_of(limits.get("secondary"@)),
        credit_balance: text_in(get_in(credits, "balance"@)),
        has_credits: flag_in(get_in(credits, "hasCredits"@)),
        unlimited: flag_in(get_in(credits, "unlimited"@)),
        reset_credits: match get_in(
            result.get("rateLimitResetCredits"@),
            "availableCount"@,
        ) {
            Some(count) => match count.as_unsigned() {
                Some(count) => count,
                None => 0,
            },
            None => 0,
        },
        fetched_at,
    }
}

/// What the two answers of the server come to: a snapshot, or a message that
/// says why there is none.
pub open spec fn usage_of(
    rate: JsonView,
    account: Option<JsonView>,
    fetched_at: u64,
) -> Result<UsageView, Seq<char>> {
    if is_logged_out(account) {
        Err(logged_out_message())
    } else if uses_api_key(account) {
        Err(api_key_message())
    } else if let Some(error) = rate.get("error"@) {
        Err(reported_message(error))
    } else if let Some(result) = rate.get("result"@) {
        match limits_of(result) {
            Some(limits) => Ok(snapshot_of(result, limits, account, fetched_at)),
            None => Err("Codex 没有返回可识别的额度数据"@),
        }
    } else {
        Err("Codex 没有返回额度结果"@)
    }
}

/// A result with a snapshot or a message, seen as what it holds.
pub open spec fn usage_outcome(
    result: Result<UsageSnapshot, String>,
) -> Result<UsageView, Seq<char>> {
    match result {
        Ok(snapshot) => Ok(snapshot@),
        Err(message) => Err(message@),
    }
}

/// The member with a name of a value that may be missing.
fn find<'a>(value: Option<&'a Json>, name: &str) -> (found: Option<&'a Json>)
    ensures
        optional_view(found) == get_in(optional_view(value), name@),
{
    match value {
        Some(value) => value.get(name),
        None => None,
    }
}

/// The text of a string that may be missing.
fn find_text(value: Option<&Json>) -> (text: Option<String>)
    ensures
        optional_text(text) == text_in(optional_view(value)),
{
    match value {
        Some(value) => match value.as_text() {
            Some(text) => Some(text.clone()),
            None => None,
        },
        None => None,
    }
}

/// A truth value that counts as false where it is missing.
fn find_flag(value: Option<&Json>) -> (flag: bool)
    ensures
        flag == flag_in(optional_view(value)),
{
    match value {
        Some(value) => match value.as_bool() {
            Some(flag) => flag,
            None => false,
        },
        None => false,
    }
}

/// Reads the server's two answers: the one about the rate limits, and the one
/// about the account where it came.
pub fn parse_usage_responses(rate: &Json, account: Option<&Json>, fetched_at: u64) -> (result: Result<
    UsageSnapshot,
    String,
>)
    ensures
        usage_outcome(result) == usage_of(rate@, optional_view(account), fetched_at),
{
    let account_result = find(account, "result");
    let account_info = find(account_result, "account");
    let nameless = match account_info {
        Some(info) => info.is_null(),
        None => true,
    };
    if find_flag(find(account_result, "requiresOpenaiAuth")) && nameless {
        return Err(
            "这台电脑上的 Codex 尚未登录。请先打开 Codex 登录 ChatGPT 账号，或在终端执行 codex login，然后返回应用重试。".to_owned(),
        );
    }
    if let Some(kind) = find_text(find(account_info, "type")) {
        if same_text_ignoring_ascii_case(kind.as_str(), "apiKey") {
            return Err(
                "当前 Codex 使用 API Key 登录，无法读取 ChatGPT 订阅额度。请改用 ChatGPT 账号登录 Codex。".to_owned(),
            );
        }
    }
    if let Some(error) = rate.get("error") {
        let message = match find_text(error.get("message")) {
            Some(message) => message,
            None => "未知错误".to_owned(),
        };
        return Err("Codex 无法读取额度：".to_owned().concat(message.as_str()));
    }
    let result = match rate.get("result") {
        Some(result) => result,
        None => {
            return Err("Codex 没有返回额度结果".to_owned());
        },
    };
    let limits = match find(result.get("rateLimitsByLimitId"), "codex") {
        Some(limits) => limits,
        None => match result.get("rateLimits") {
            Some(limits) => limits,
            None => {
                return Err("Codex 没有返回可识别的额度数据".to_owned());
            },
        },
    };
    let credits = limits.get("credits");
    let plan_type = match find_text(limits.get("planType")) {
        Some(plan) => Some(plan),
        None => find_text(find(account_info, "planType")),
    };
    let reset_credits: u64 = match find(result.get("rateLimitResetCredits"), "availableCount") {
        Some(count) => match count.as_unsigned() {
            Some(count) => count,
            None => 0,
        },
        None => 0,
    };
    Ok(
        UsageSnapshot {
            email: find_text(find(account_info, "email")),
            plan_type,
            primary: parse_window(limits.get("primary")),
            secondary: parse_window(limits.get("secondary")),
            credit_balance: find_text(find(credits, "balance")),
            has_credits: find_flag(find(credits, "hasCredits")),
            unlimited: find_flag(find(credits, "unlimited")),
            reset_credits,
            fetched_at,
        },
    )
}

/// There is a snapshot exactly where Codex does not ask for a login that is
/// missing, the account is no API key, the server reports no error, and its
/// result holds limits.
pub proof fn snapshots_come_of_good_answers_only(
    rate: JsonView,
    account: Option<JsonView>,
    fetched_at: u64,
)
    ensures
        usage_of(rate, account, fetched_at) is Ok <==> {
            let answer = get_in(account, "result"@);
            let person = get_in(answer, "account"@);
            &&& !(get_in(answer, "requiresOpenaiAuth"@) == Some(JsonView::Bool(true)) && (person
                is None || person == Some(JsonView::Null)))
            &&& !(get_in(person, "type"@) matches Some(JsonView::Text(kind)) && differ_in_case_only(
                kind,
                "apiKey"@,
            ))
            &&& rate.get("error"@) is None
            &&& rate.get("result"@) matches Some(result) && (get_in(
                result.get("rateLimitsByLimitId"@),
                "codex"@,
            ) is Some || result.get("rateLimits"@) is Some)
        },
{
    let person = get_in(get_in(account, "result"@), "account"@);
    if let Some(JsonView::Text(kind)) = get_in(person, "type"@) {
        lowered_texts_differ_in_case_only(kind, "apiKey"@);
    }
}

/// A login that is missing is reported whatever else the server says. After it
/// comes an API key, then an error of the server, with its own words where it
/// has some, and then a result or limits that are missing.
pub proof fn the_first_reason_is_reported(
    rate: JsonView,
    account: Option<JsonView>,
    fetched_at: u64,
)
    ensures
        ({
            let outcome = usage_of(rate, account, fetched_at);
            let answer = get_in(account, "result"@);
            let person = get_in(answer, "account"@);
            let logged_out = get_in(answer, "requiresOpenaiAuth"@) == Some(JsonView::Bool(true))
                && (person is None || person == Some(JsonView::Null));
            let api_key = get_in(person, "type"@) matches Some(JsonView::Text(kind))
                && differ_in_case_only(kind, "apiKey"@);
            &&& logged_out ==> outcome == Err::<UsageView, Seq<char>>(
                "这台电脑上的 Codex 尚未登录。请先打开 Codex 登录 ChatGPT 账号，或在终端执行 codex login，然后返回应用重试。"@,
            )
            &&& !logged_out && api_key ==> outcome == Err::<UsageView, Seq<char>>(
                "当前 Codex 使用 API Key 登录，无法读取 ChatGPT 订阅额度。请改用 ChatGPT 账号登录 Codex。"@,
            )
            &&& !logged_out && !api_key ==> match rate.get("error"@) {
                Some(error) => match error.get("message"@) {
                    Some(JsonView::Text(words)) => outcome == Err::<UsageView, Seq<char>>(
                        "Codex 无法读取额度："@ + words,
                    ),
                    _ => outcome == Err::<UsageView, Seq<char>>(
                        "Codex 无法读取额度："@ + "未知错误"@,
                    ),
                },
                None => match rate.get("result"@) {
                    None => outcome == Err::<UsageView, Seq<char>>("Codex 没有返回额度结果"@),
                    Some(result) => get_in(result.get("rateLimitsByLimitId"@), "codex"@) is None
                        && result.get("rateLimits"@) is None ==> outcome == Err::<
                        UsageView,
                        Seq<char>,
                    >("Codex 没有返回可识别的额度数据"@),
                },
            }
        }),
{
    let person = get_in(get_in(account, "result"@), "account"@);
    if let Some(JsonView::Text(kind)) = get_in(person, "type"@) {
        lowered_texts_differ_in_case_only(kind, "apiKey"@);
    }
}

/// Where limits hold a short window with three numbers, the snapshot's short
/// window has exactly these numbers, whatever stands beside it; and the same of
/// the long window. A window that lacks one of its numbers is none. The limits
/// are those listed for Codex, or the account's own where none are listed.
pub proof fn windows_are_those_of_the_server(
    rate: JsonView,
    account: Option<JsonView>,
    fetched_at: u64,
    usage: UsageView,
    limits: JsonView,
    window: JsonView,
)
    requires
        usage_of(rate, account, fetched_at) == Ok::<UsageView, Seq<char>>(usage),
        rate.get("result"@) matches Some(result) && match get_in(
            result.get("rateLimitsByLimitId"@),
            "codex"@,
        ) {
            Some(listed) => limits == listed,
            None => result.get("rateLimits"@) == Some(limits),
        },
    ensures
        limits.get("primary"@) is None ==> usage.primary is None,
        limits.get("secondary"@) is None ==> usage.secondary is None,
        match (window.get("usedPercent"@), window.get("windowDurationMins"@), window.get("resetsAt"@)) {
            (
                Some(JsonView::Number(used)),
                Some(JsonView::Number(duration)),
                Some(JsonView::Number(resets)),
            ) => {
                &&& limits.get("primary"@) == Some(window) ==> {
                    &&& usage.primary is Some <==> used.float_bits is Some && duration.unsigned
                        is Some && resets.unsigned is Some
                    &&& usage.primary matches Some(short) ==> {
                        &&& Some(short.used_percent_bits) == used.float_bits
                        &&& Some(short.window_duration_mins) == duration.unsigned
                        &&& Some(short.resets_at) == resets.unsigned
                    }
                }
                &&& limits.get("secondary"@) == Some(window) ==> {
                    &&& usage.secondary is Some <==> used.float_bits is Some && duration.unsigned
                        is Some && resets.unsigned is Some
                    &&& usage.secondary matches Some(long) ==> {
                        &&& Some(long.used_percent_bits) == used.float_bits
                        &&& Some(long.window_duration_mins) == duration.unsigned
                        &&& Some(long.resets_at) == resets.unsigned
                    }
                }
            },
            _ => {
                &&& limits.get("primary"@) == Some(window) ==> usage.primary is None
                &&& limits.get("secondary"@) == Some(window) ==> usage.secondary is None
            },
        },
{
}

/// A snapshot holds the account's address, the plan that the limits name or
/// else the account's, the credits that the limits name, how often a window can
/// be started anew, and the time that was given; what is missing or of another
/// kind counts as nothing, as no, or as zero.
pub proof fn snapshots_hold_what_the_server_says(
    rate: JsonView,
    account: Option<JsonView>,
    fetched_at: u64,
    usage: UsageView,
    result: JsonView,
    limits: JsonView,
)
    requires
        usage_of(rate, account, fetched_at) == Ok::<UsageView, Seq<char>>(usage),
        rate.get("result"@) == Some(result),
        match get_in(result.get("rateLimitsByLimitId"@), "codex"@) {
            Some(listed) => limits == listed,
            None => result.get("rateLimits"@) == Some(limits),
        },
    ensures
        ({
            let person = get_in(get_in(account, "result"@), "account"@);
            let credits = limits.get("credits"@);
            let count = get_in(result.get("rateLimitResetCredits"@), "availableCount"@);
            &&& usage.fetched_at == fetched_at
            &&& match get_in(person, "email"@) {
                Some(JsonView::Text(address)) => usage.email == Some(address),
                _ => usage.email is None,
            }
            &&& match (limits.get("planType"@), get_in(person, "planType"@)) {
                (Some(JsonView::Text(plan)), _) => usage.plan_type == Some(plan),
                (_, Some(JsonView::Text(plan))) => usage.plan_type == Some(plan),
                _ => usage.plan_type is None,
            }
            &&& match get_in(credits, "balance"@) {
                Some(JsonView::Text(balance)) => usage.credit_balance == Some(balance),
                _ => usage.credit_balance is None,
            }
            &&& usage.has_credits <==> get_in(credits, "hasCredits"@) == Some(JsonView::Bool(true))
            &&& usage.unlimited <==> get_in(credits, "unlimited"@) == Some(JsonView::Bool(true))
            &&& match count {
                Some(JsonView::Number(number)) => match number.unsigned {
                    Some(n) => usage.reset_credits == n,
                    None => usage.reset_credits == 0,
                },
                _ => usage.reset_credits == 0,
            }
        }),
{
}

/// What is said of a snapshot's parts is said of its fields: each part is the
/// field of the same name, a text as its characters; and a result is a snapshot
/// or a message exactly where it is said to be.
pub proof fn snapshots_are_seen_as_they_are(snapshot: UsageSnapshot, message: String)
    ensures
        snapshot@.primary == snapshot.primary,
        snapshot@.secondary == snapshot.secondary,
        snapshot@.has_credits == snapshot.has_credits,
        snapshot@.unlimited == snapshot.unlimited,
        snapshot@.reset_credits == snapshot.reset_credits,
        snapshot@.fetched_at == snapshot.fetched_at,
        snapshot.email is Some <==> snapshot@.email is Some,
        snapshot.email matches Some(text) ==> snapshot@.email == Some(text@),
        snapshot.plan_type is Some <==> snapshot@.plan_type is Some,
        snapshot.plan_type matches Some(text) ==> snapshot@.plan_type == Some(text@),
        snapshot.credit_balance is Some <==> snapshot@.credit_balance is Some,
        snapshot.credit_balance matches Some(text) ==> snapshot@.credit_balance == Some(text@),
        usage_outcome(Ok::<UsageSnapshot, String>(snapshot)) == Ok::<UsageView, Seq<char>>(
            snapshot@,
        ),
        usage_outcome(Err::<UsageSnapshot, String>(message)) == Err::<UsageView, Seq<char>>(
            message@,
        ),
{
}

} // verus!
