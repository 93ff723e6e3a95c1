//! The questions that a Codex app server is asked, and its answers.

use serde_json::Value;
use vstd::prelude::*;
use vstd::string::*;

use crate::json::{
    compact_text, contents, document, flag_value, integer_value, is_plain, object_value,
    optional_view, text_value, the_first_member_of_a_name_is_found, write_value, Json, JsonNumber,
    JsonView,
};
use crate::pixels::double_bits;
use crate::usage::{parse_usage_responses, usage_of, usage_outcome, UsageSnapshot, UsageView};

verus! {

/// How long the server is given for its answers, in milliseconds.
pub const ANSWER_MILLIS: u64 = 30_000;

/// How long one wait for a message lasts, in milliseconds.
pub const WAIT_MILLIS: u64 = 500;

/// An integer from zero on, as a JSON value.
pub open spec fn integer(n: u64) -> JsonView {
    JsonView::Number(
        JsonNumber {
            unsigned: Some(n),
            signed: if n <= i64::MAX {
                Some(n as i64)
            } else {
                None
            },
            float_bits: Some(double_bits(n as nat) as u64),
        },
    )
}

/// The greeting that names this client, with the number 1.
pub open spec fn initialize_request(version: Seq<char>) -> JsonView {
    JsonView::Object(
        seq![
            ("id"@, integer(1)),
            ("method"@, JsonView::Text("initialize"@)),
            (
                "params"@,
                JsonView::Object(
                    seq![
                        (
                            "clientInfo"@,
                            JsonView::Object(
                                seq![
                                    ("name"@, JsonView::Text("codex_quota"@)),
                                    ("title"@, JsonView::Text("Codex 额度"@)),
                                    ("version"@, JsonView::Text(version)),
                                ],
                            ),
                        ),
                    ],
                ),
            ),
        ],
    )
}

/// The note that ends the greeting.
pub open spec fn initialized_note() -> JsonView {
    JsonView::Object(
        seq![
            ("method"@, JsonView::Text("initialized"@)),
            ("params"@, JsonView::Object(Seq::empty())),
        ],
    )
}

/// The question about the rate limits, with the number 2.
pub open spec fn rate_request() -> JsonView {
    JsonView::Object(
        seq![
            ("id"@, integer(2)),
            ("method"@, JsonView::Text("account/rateLimits/read"@)),
            ("params"@, JsonView::Object(Seq::empty())),
        ],
    )
}

/// The question about the account, with the number 3.
pub open spec fn account_request() -> JsonView {
    JsonView::Object(
        seq![
            ("id"@, integer(3)),
            ("method"@, JsonView::Text("account/read"@)),
            (
                "params"@,
                JsonView::Object(seq![("refreshToken"@, JsonView::Bool(false))]),
            ),
        ],
    )
}

/// The messages that are sent to the server, in their order.
pub open spec fn requests(version: Seq<char>) -> Seq<JsonView> {
    seq![
        initialize_request(version),
        initialized_note(),
        rate_request(),
        account_request(),
    ]
}

/// An object without members.
fn empty_object() -> (value: Value)
    ensures
        contents(value) == JsonView::Object(Seq::empty()),
{
    let members: Vec<(String, Value)> = Vec::new();
    let value = object_value(members);
    assert(contents(value)->Object_0 =~= Seq::empty());
    value
}

/// An object with one member.
fn small_object(name: &str, member: Value) -> (value: Value)
    ensures
        contents(value) == JsonView::Object(seq![(name@, contents(member))]),
{
    let mut members: Vec<(String, Value)> = Vec::new();
    members.push((name.to_owned(), member));
    let value = object_value(members);
    assert(contents(value)->Object_0 =~= seq![(name@, contents(member))]);
    value
}

/// A message with a number.
fn numbered_message(id: u64, method: &str, params: Value) -> (value: Value)
    ensures
        contents(value) == JsonView::Object(
            seq![
                ("id"@, integer(id)),
                ("method"@, JsonView::Text(method@)),
                ("params"@, contents(params)),
            ],
        ),
{
    let mut members: Vec<(String, Value)> = Vec::new();
    members.push(("id".to_owned(), integer_value(id)));
    members.push(("method".to_owned(), text_value(method)));
    members.push(("params".to_owned(), params));
    proof {
        reveal_strlit("id");
        reveal_strlit("method");
        reveal_strlit("params");
    }
    let value = object_value(members);
    assert(contents(value)->Object_0 =~= seq![
        ("id"@, integer(id)),
        ("method"@, JsonView::Text(method@)),
        ("params"@, contents(params)),
    ]);
    value
}

/// The greeting that names this client.
fn initialize_message(version: &str) -> (value: Value)
    ensures
        contents(value) == initialize_request(version@),
{
    let mut members: Vec<(String, Value)> = Vec::new();
    members.push(("name".to_owned(), text_value("codex_quota")));
    members.push(("title".to_owned(), text_value("Codex 额度")));
    members.push(("version".to_owned(), text_value(version)));
    proof {
        reveal_strlit("name");
        reveal_strlit("title");
        reveal_strlit("version");
    }
    let client = object_value(members);
    assert(contents(client)->Object_0 =~= seq![
        ("name"@, JsonView::Text("codex_quota"@)),
        ("title"@, JsonView::Text("Codex 额度"@)),
        ("version"@, JsonView::Text(version@)),
    ]);
    numbered_message(1, "initialize", small_object("clientInfo", client))
}

/// The note that ends the greeting.
fn initialized_message() -> (value: Value)
    ensures
        contents(value) == initialized_note(),
{
    let mut members: Vec<(String, Value)> = Vec::new();
    members.push(("method".to_owned(), text_value("initialized")));
    members.push(("params".to_owned(), empty_object()));
    proof {
        reveal_strlit("method");
        reveal_strlit("params");
    }
    let value = object_value(members);
    assert(contents(value)->Object_0 =~= initialized_note()->Object_0);
    value
}

/// The messages to the server are plain values.
proof fn lemma_requests_are_plain(version: Seq<char>)
    ensures
        forall|i: int| 0 <= i < 4 ==> is_plain(#[trigger] requests(version)[i], 100),
{
    reveal_with_fuel(is_plain, 5);
}

/// The lines that are sent to the server, for a version of this client. Each is
/// a message as `serde_json` writes it, without a line break, and is read back
/// as that message.
pub fn request_lines(version: &str) -> (lines: Vec<String>)
    ensures
        lines@.len() == 4,
        forall|i: int|
            0 <= i < 4 ==> (#[trigger] lines@[i])@ == compact_text(requests(version@)[i]),
        forall|i: int|
            0 <= i < 4 ==> document((#[trigger] lines@[i])@) == Some(requests(version@)[i]),
        forall|i: int| 0 <= i < 4 ==> !(#[trigger] lines@[i])@.contains('\n'),
{
    proof {
        lemma_requests_are_plain(version@);
        assert(is_plain(requests(version@)[0], 100));
        assert(is_plain(requests(version@)[1], 100));
        assert(is_plain(requests(version@)[2], 100));
        assert(is_plain(requests(version@)[3], 100));
    }
    let mut lines: Vec<String> = Vec::new();
    lines.push(write_value(&initialize_message(version)));
    lines.push(write_value(&initialized_message()));
    lines.push(write_value(&numbered_message(2, "account/rateLimits/read", empty_object())));
    let account = numbered_message(
        3,
        "account/read",
        small_object("refreshToken", flag_value(false)),
    );
    lines.push(write_value(&account));
    lines
}

/// The answers of the server so far.
#[derive(Debug)]
pub struct Answers {
    /// The answer about the rate limits.
    pub rate: Option<Json>,
    /// The answer about the account.
    pub account: Option<Json>,
}

/// What [`Answers`] hold.
pub struct AnswersView {
    pub rate: Option<JsonView>,
    pub account: Option<JsonView>,
}

impl View for Answers {
    type V = AnswersView;

    open spec fn view(&self) -> AnswersView {
        AnswersView {
            rate: optional_view(
                match self.rate {
                    Some(rate) => Some(&rate),
                    None => None,
                },
            ),
            account: optional_view(
                match self.account {
                    Some(account) => Some(&account),
                    None => None,
                },
            ),
        }
    }
}

/// The number of the question that a message answers.
pub open spec fn number_of(message: JsonView) -> Option<i64> {
    match message.get("id"@) {
        Some(id) => id.as_signed(),
        None => None,
    }
}

/// The answers after one more message: the one that it is the answer to is
/// replaced, and other messages change nothing.
pub open spec fn heard(answers: AnswersView, message: JsonView) -> AnswersView {
    if number_of(message) == Some(2i64) {
        AnswersView { rate: Some(message), ..answers }
    } else if number_of(message) == Some(3i64) {
        AnswersView { account: Some(message), ..answers }
    } else {
        answers
    }
}

/// What the answers come to in the end.
pub open spec fn conclusion(answers: AnswersView, fetched_at: u64) -> Result<
    UsageView,
    Seq<char>,
> {
    match answers.rate {
        Some(rate) => usage_of(rate, answers.account, fetched_at),
        None => Err(
            "Codex App Server 没有返回额度数据。请确认 Codex 已更新到最新版本并已登录。"@,
        ),
    }
}

impl Answers {
    /// No answers yet.
    pub fn new() -> (answers: Self)
        ensures
            answers@ == (AnswersView { rate: None, account: None }),
    {
        Answers { rate: None, account: None }
    }

    /// Whether to wait for another message: as long as an answer is missing and
    /// there is time left.
    pub fn are_awaited(&self, elapsed_millis: u64) -> (awaited: bool)
        ensures
            awaited == (elapsed_millis < ANSWER_MILLIS && (self@.rate is None || self@.account
                is None)),
            awaited == awaits_more(self@, elapsed_millis as int),
    {
        elapsed_millis < ANSWER_MILLIS && (self.rate.is_none() || self.account.is_none())
    }

    /// Takes a message in.
    pub fn hear(&mut self, message: Json)
        ensures
            final(self)@ == heard(old(self)@, message@),
    {
        let number: Option<i64> = match message.get("id") {
            Some(id) => id.as_signed(),
            None => None,
        };
        match number {
            Some(2) => {
                self.rate = Some(message);
            },
            Some(3) => {
                self.account = Some(message);
            },
            _ => {},
        }
    }

    /// What the answers come to, at a time in seconds since the epoch.
    pub fn conclude(self, fetched_at: u64) -> (result: Result<UsageSnapshot, String>)
        ensures
            usage_outcome(result) == conclusion(self@, fetched_at),
    {
        match &self.rate {
            Some(rate) => parse_usage_responses(rate, self.account.as_ref(), fetched_at),
            None => Err(
                "Codex App Server 没有返回额度数据。请确认 Codex 已更新到最新版本并已登录。".to_owned(),
            ),
        }
    }
}

/// The answers after a row of messages.
pub open spec fn heard_all(answers: AnswersView, messages: Seq<JsonView>) -> AnswersView
    decreases messages.len(),
{
    if messages.len() == 0 {
        answers
    } else {
        heard(heard_all(answers, messages.drop_last()), messages.last())
    }
}

/// The last message of a row that answers the question with a number.
pub open spec fn last_answer(messages: Seq<JsonView>, number: i64) -> Option<JsonView>
    decreases messages.len(),
{
    if messages.len() == 0 {
        None
    } else if number_of(messages.last()) == Some(number) {
        Some(messages.last())
    } else {
        last_answer(messages.drop_last(), number)
    }
}

/// Of several answers to one question the last one counts, whatever else is
/// heard between them.
pub proof fn the_last_answers_count(messages: Seq<JsonView>)
    ensures
        heard_all(AnswersView { rate: None, account: None }, messages) == (AnswersView {
            rate: last_answer(messages, 2),
            account: last_answer(messages, 3),
        }),
    decreases messages.len(),
{
    if messages.len() > 0 {
        the_last_answers_count(messages.drop_last());
    }
}

/// What the members of a message with a number are.
proof fn lemma_message_members(id: JsonView, method: JsonView, params: JsonView)
    ensures
        ({
            let message = JsonView::Object(
                seq![("id"@, id), ("method"@, method), ("params"@, params)],
            );
            &&& message.get("id"@) == Some(id)
            &&& message.get("method"@) == Some(method)
            &&& message.get("params"@) == Some(params)
        }),
{
    reveal_strlit("id");
    reveal_strlit("method");
    reveal_strlit("params");
    assert("id"@.len() == 2 && "method"@[0] == 'm' && "params"@[0] == 'p');
    let members = seq![("id"@, id), ("method"@, method), ("params"@, params)];
    let message = JsonView::Object(members);
    the_first_member_of_a_name_is_found(message, members, "id"@, 0);
    the_first_member_of_a_name_is_found(message, members, "method"@, 1);
    the_first_member_of_a_name_is_found(message, members, "params"@, 2);
}

/// The server is greeted first, with the name and the version of this client,
/// told that the greeting is over, and then asked for the rate limits and for
/// the account, whose login is not renewed on that occasion.
pub proof fn the_server_is_asked_for_limits_and_account(version: Seq<char>)
    ensures
        requests(version).len() == 4,
        requests(version)[0].get("method"@) == Some(JsonView::Text("initialize"@)),
        requests(version)[0].get("params"@) matches Some(params) && (params.get("clientInfo"@)
            matches Some(client) && {
            &&& client.get("name"@) == Some(JsonView::Text("codex_quota"@))
            &&& client.get("title"@) == Some(JsonView::Text("Codex 额度"@))
            &&& client.get("version"@) == Some(JsonView::Text(version))
        }),
        requests(version)[1].get("method"@) == Some(JsonView::Text("initialized"@)),
        requests(version)[1].get("id"@) is None,
        requests(version)[2].get("method"@) == Some(JsonView::Text("account/rateLimits/read"@)),
        requests(version)[3].get("method"@) == Some(JsonView::Text("account/read"@)),
        requests(version)[3].get("params"@) matches Some(params) && params.get("refreshToken"@)
            == Some(JsonView::Bool(false)),
{
    reveal_strlit("id");
    reveal_strlit("method");
    reveal_strlit("params");
    reveal_strlit("name");
    reveal_strlit("title");
    reveal_strlit("version");
    assert("id"@.len() == 2 && "method"@[0] == 'm' && "params"@[0] == 'p');
    assert("name"@[0] == 'n' && "title"@[0] == 't' && "version"@[0] == 'v');
    let client_members = seq![
        ("name"@, JsonView::Text("codex_quota"@)),
        ("title"@, JsonView::Text("Codex 额度"@)),
        ("version"@, JsonView::Text(version)),
    ];
    let client = JsonView::Object(client_members);
    the_first_member_of_a_name_is_found(client, client_members, "name"@, 0);
    the_first_member_of_a_name_is_found(client, client_members, "title"@, 1);
    the_first_member_of_a_name_is_found(client, client_members, "version"@, 2);
    let params_members = seq![("clientInfo"@, client)];
    let params = JsonView::Object(params_members);
    the_first_member_of_a_name_is_found(params, params_members, "clientInfo"@, 0);
    lemma_message_members(integer(1), JsonView::Text("initialize"@), params);
    let note = initialized_note();
    let note_members = note->Object_0;
    the_first_member_of_a_name_is_found(note, note_members, "method"@, 0);
    the_first_member_of_a_name_is_found(note, note_members, "id"@, 0);
    lemma_message_members(
        integer(2),
        JsonView::Text("account/rateLimits/read"@),
        JsonView::Object(Seq::empty()),
    );
    let login_members = seq![("refreshToken"@, JsonView::Bool(false))];
    let login = JsonView::Object(login_members);
    the_first_member_of_a_name_is_found(login, login_members, "refreshToken"@, 0);
    lemma_message_members(integer(3), JsonView::Text("account/read"@), login);
}

/// A message is the answer to the question whose number it bears: one with the
/// number of the question about the rate limits becomes the answer about them,
/// one with the number of the question about the account the answer about that,
/// each beside the other answer; and any other message changes nothing.
pub proof fn answers_belong_to_their_questions(
    version: Seq<char>,
    answers: AnswersView,
    message: JsonView,
    number: JsonNumber,
)
    ensures
        ({
            let rate_number = requests(version)[2].get("id"@);
            let account_number = requests(version)[3].get("id"@);
            let after = heard(answers, message);
            &&& rate_number matches Some(JsonView::Number(asked)) && asked.signed is Some
            &&& account_number matches Some(JsonView::Number(asked)) && asked.signed is Some
            &&& rate_number->0->Number_0.signed != account_number->0->Number_0.signed
            &&& requests(version)[0].get("id"@) matches Some(JsonView::Number(greeted)) && {
                &&& greeted.signed is Some
                &&& greeted.signed != rate_number->0->Number_0.signed
                &&& greeted.signed != account_number->0->Number_0.signed
            }
            &&& message.get("id"@) == Some(JsonView::Number(number)) ==> {
                &&& number.signed == rate_number->0->Number_0.signed ==> after == (AnswersView {
                    rate: Some(message),
                    account: answers.account,
                })
                &&& number.signed == account_number->0->Number_0.signed ==> after == (AnswersView {
                    rate: answers.rate,
                    account: Some(message),
                })
                &&& number.signed != rate_number->0->Number_0.signed && number.signed
                    != account_number->0->Number_0.signed ==> after == answers
            }
            &&& !(message.get("id"@) matches Some(JsonView::Number(_))) ==> after == answers
        }),
{
    lemma_message_members(
        integer(1),
        JsonView::Text("initialize"@),
        initialize_request(version)->Object_0[2].1,
    );
    assert(initialize_request(version)->Object_0 =~= seq![
        ("id"@, integer(1)),
        ("method"@, JsonView::Text("initialize"@)),
        ("params"@, initialize_request(version)->Object_0[2].1),
    ]);
    lemma_message_members(
        integer(2),
        JsonView::Text("account/rateLimits/read"@),
        JsonView::Object(Seq::empty()),
    );
    lemma_message_members(
        integer(3),
        JsonView::Text("account/read"@),
        JsonView::Object(seq![("refreshToken"@, JsonView::Bool(false))]),
    );
}

/// Without an answer about the rate limits there is only a message; with one,
/// the two answers are read as they came, at the time that is given. The server
/// has half a minute for both, and each wait is half a second.
pub proof fn answers_are_read_as_they_came(
    rate: JsonView,
    account: Option<JsonView>,
    fetched_at: u64,
)
    ensures
        conclusion(AnswersView { rate: Some(rate), account }, fetched_at) == usage_of(
            rate,
            account,
            fetched_at,
        ),
        conclusion(AnswersView { rate: None, account }, fetched_at) == Err::<UsageView, Seq<char>>(
            "Codex App Server 没有返回额度数据。请确认 Codex 已更新到最新版本并已登录。"@,
        ),
        ANSWER_MILLIS == 30 * 1000,
        2 * WAIT_MILLIS == 1000,
{
}

/// Whether another message is waited for.
pub open spec fn awaits_more(answers: AnswersView, elapsed_millis: int) -> bool {
    &&& elapsed_millis < 30_000
    &&& answers.rate is None || answers.account is None
}

/// The server is waited for until both answers are there, and no longer than
/// half a minute; one answer alone does not end the wait.
pub proof fn both_answers_are_waited_for(
    rate: JsonView,
    account: JsonView,
    answers: AnswersView,
    elapsed_millis: int,
)
    ensures
        !awaits_more(
            AnswersView { rate: Some(rate), account: Some(account) },
            elapsed_millis,
        ),
        elapsed_millis < 30 * 1000 ==> {
            &&& awaits_more(AnswersView { rate: Some(rate), account: None }, elapsed_millis)
            &&& awaits_more(AnswersView { rate: None, account: Some(account) }, elapsed_millis)
            &&& awaits_more(AnswersView { rate: None, account: None }, elapsed_millis)
        },
        elapsed_millis >= 30 * 1000 ==> !awaits_more(answers, elapsed_millis),
{
}

/// What is said of the answers so far is said of the messages that they are.
pub proof fn answers_are_seen_as_they_are(answers: Answers)
    ensures
        answers.rate is Some <==> answers@.rate is Some,
        answers.rate matches Some(message) ==> answers@.rate == Some(message@),
        answers.account is Some <==> answers@.account is Some,
        answers.account matches Some(message) ==> answers@.account == Some(message@),
{
}

} // verus!
