//! JSON messages as plain values.
//!
//! `serde_json` reads the text of a message. What it hands back is taken apart
//! node by node into a [`Json`] value, which the rest of the library reads.

use serde_json::Value;
use vstd::prelude::*;

use crate::pixels::double_bits;
use crate::text::same_text;

verus! {

/// A JSON number, as the three kinds of number that it can be read as.
#[derive(Debug, Clone, Copy, PartialEq, Eq, Structural)]
pub struct JsonNumber {
    /// The number, if it is an integer from zero to `u64::MAX`.
    pub unsigned: Option<u64>,
    /// The number, if it is an integer from `i64::MIN` to `i64::MAX`.
    pub signed: Option<i64>,
    /// The bits of the number in double precision.
    pub float_bits: Option<u64>,
}

/// A JSON value.
#[derive(Debug)]
pub enum Json {
    /// `null`.
    Null,
    /// `true` or `false`.
    Bool(bool),
    /// A number.
    Number(JsonNumber),
    /// A string.
    Text(String),
    /// An array.
    Array(Vec<Json>),
    /// An object: its members, each with its name.
    Object(Vec<(String, Json)>),
}

/// What a [`Json`] value holds.
pub enum JsonView {
    /// `null`.
    Null,
    /// `true` or `false`.
    Bool(bool),
    /// A number.
    Number(JsonNumber),
    /// A string.
    Text(Seq<char>),
    /// An array.
    Array(Seq<JsonView>),
    /// An object: its members, each with its name.
    Object(Seq<(Seq<char>, JsonView)>),
}

/// The value of the first member with a name.
pub open spec fn member(members: Seq<(Seq<char>, JsonView)>, name: Seq<char>) -> Option<JsonView>
    decreases members.len(),
{
    if members.len() == 0 {
        None
    } else if members[0].0 == name {
        Some(members[0].1)
    } else {
        member(members.drop_first(), name)
    }
}

impl JsonView {
    /// The member of an object with a name.
    pub open spec fn get(self, name: Seq<char>) -> Option<JsonView> {
        match self {
            JsonView::Object(members) => member(members, name),
            _ => None,
        }
    }

    /// The characters of a string.
    pub open spec fn as_text(self) -> Option<Seq<char>> {
        match self {
            JsonView::Text(text) => Some(text),
            _ => None,
        }
    }

    /// A truth value.
    pub open spec fn as_bool(self) -> Option<bool> {
        match self {
            JsonView::Bool(flag) => Some(flag),
            _ => None,
        }
    }

    /// An integer from zero on.
    pub open spec fn as_unsigned(self) -> Option<u64> {
        match self {
            JsonView::Number(number) => number.unsigned,
            _ => None,
        }
    }

    /// An integer with a sign.
    pub open spec fn as_signed(self) -> Option<i64> {
        match self {
            JsonView::Number(number) => number.signed,
            _ => None,
        }
    }

    /// The bits of a number in double precision.
    pub open spec fn as_float_bits(self) -> Option<u64> {
        match self {
            JsonView::Number(number) => number.float_bits,
            _ => None,
        }
    }
}

/// The member with a name of a value that may be missing.
pub open spec fn get_in(value: Option<JsonView>, name: Seq<char>) -> Option<JsonView> {
    match value {
        Some(value) => value.get(name),
        None => None,
    }
}

/// The characters of a string that may be missing.
pub open spec fn text_in(value: Option<JsonView>) -> Option<Seq<char>> {
    match value {
        Some(value) => value.as_text(),
        None => None,
    }
}

/// A truth value that counts as false where it is missing.
pub open spec fn flag_in(value: Option<JsonView>) -> bool {
    match value {
        Some(value) => value.as_bool() == Some(true),
        None => false,
    }
}

/// A borrowed value that may be missing, seen as what it holds.
pub open spec fn optional_view(value: Option<&Json>) -> Option<JsonView> {
    match value {
        Some(value) => Some(value@),
        None => None,
    }
}

/// What a JSON value holds.
pub open spec fn held(json: Json) -> JsonView
    decreases json,
{
    match json {
        Json::Null => JsonView::Null,
        Json::Bool(flag) => JsonView::Bool(flag),
        Json::Number(number) => JsonView::Number(number),
        Json::Text(text) => JsonView::Text(text@),
        Json::Array(items) => JsonView::Array(
            Seq::new(
                items@.len(),
                |i: int|
                    if 0 <= i < items@.len() {
                        held(items@[i])
                    } else {
                        JsonView::Null
                    },
            ),
        ),
        Json::Object(members) => JsonView::Object(
            Seq::new(
                members@.len(),
                |i: int|
                    if 0 <= i < members@.len() {
                        (members@[i].0@, held(members@[i].1))
                    } else {
                        (Seq::empty(), JsonView::Null)
                    },
            ),
        ),
    }
}

impl View for Json {
    type V = JsonView;

    open spec fn view(&self) -> JsonView {
        held(*self)
    }
}

impl Json {
    /// The member of an object with a name.
    pub fn get(&self, name: &str) -> (found: Option<&Json>)
        ensures
            optional_view(found) == self@.get(name@),
    {
        match self {
            Json::Object(members) => {
                let ghost all = self@->Object_0;
                assert(all.skip(0) =~= all);
                let mut i: usize = 0;
                while i < members.len()
                    invariant
                        i <= members@.len(),
                        self@ == JsonView::Object(all),
                        all.len() == members@.len(),
                        forall|j: int|
                            0 <= j < members@.len() ==> #[trigger] all[j] == (
                                members@[j].0@,
                                members@[j].1@,
                            ),
                        member(all, name@) == member(all.skip(i as int), name@),
                    decreases members@.len() - i,
                {
                    assert(all.skip(i as int)[0] == all[i as int]);
                    assert(all.skip(i as int).drop_first() =~= all.skip(i + 1));
                    if same_text(members[i].0.as_str(), name) {
                        return Some(&members[i].1);
                    }
                    i = i + 1;
                }
                None
            },
            _ => None,
        }
    }

    /// The text of a string.
    pub fn as_text(&self) -> (text: Option<&String>)
        ensures
            self@.as_text() == (match text {
                Some(text) => Some(text@),
                None => None,
            }),
    {
        match self {
            Json::Text(text) => Some(text),
            _ => None,
        }
    }

    /// A truth value.
    pub fn as_bool(&self) -> (flag: Option<bool>)
        ensures
            flag == self@.as_bool(),
    {
        match self {
            Json::Bool(flag) => Some(*flag),
            _ => None,
        }
    }

    /// An integer from zero on.
    pub fn as_unsigned(&self) -> (number: Option<u64>)
        ensures
            number == self@.as_unsigned(),
    {
        match self {
            Json::Number(number) => number.unsigned,
            _ => None,
        }
    }

    /// An integer with a sign.
    pub fn as_signed(&self) -> (number: Option<i64>)
        ensures
            number == self@.as_signed(),
    {
        match self {
            Json::Number(number) => number.signed,
            _ => None,
        }
    }

    /// The bits of a number in double precision.
    pub fn as_float_bits(&self) -> (bits: Option<u64>)
        ensures
            bits == self@.as_float_bits(),
    {
        match self {
            Json::Number(number) => number.float_bits,
            _ => None,
        }
    }

    /// Whether the value is `null`.
    pub fn is_null(&self) -> (null: bool)
        ensures
            null == (self@ == JsonView::Null),
    {
        match self {
            Json::Null => true,
            _ => false,
        }
    }
}

/// `serde_json::Value`, which stays closed: only [`node`] looks into it.
#[verifier::external_type_specification]
#[verifier::external_body]
pub struct ExValue(Value);

/// What a `serde_json::Value` holds.
pub uninterp spec fn contents(value: Value) -> JsonView;

/// What `serde_json` reads a text as: nothing where the text is no JSON.
pub uninterp spec fn document(text: Seq<char>) -> Option<JsonView>;

/// One level of a JSON value.
pub enum JsonNode {
    /// `null`.
    Null,
    /// `true` or `false`.
    Bool(bool),
    /// A number.
    Number(JsonNumber),
    /// A string.
    Text(String),
    /// An array.
    Array(Vec<Value>),
    /// An object: its members, each with its name.
    Object(Vec<(String, Value)>),
}

/// What the value with a given first level holds.
pub open spec fn node_contents(node: JsonNode) -> JsonView {
    match node {
        JsonNode::Null => JsonView::Null,
        JsonNode::Bool(flag) => JsonView::Bool(flag),
        JsonNode::Number(number) => JsonView::Number(number),
        JsonNode::Text(text) => JsonView::Text(text@),
        JsonNode::Array(items) => JsonView::Array(
            Seq::new(items@.len(), |i: int| contents(items@[i])),
        ),
        JsonNode::Object(members) => JsonView::Object(
            Seq::new(members@.len(), |i: int| (members@[i].0@, contents(members@[i].1))),
        ),
    }
}

/// Takes the first level of a `serde_json::Value` apart. The contract says that
/// the variants of that enum are the kinds of JSON value, that an object is its
/// members in the order in which its map hands them out, and that a number is
/// what `as_u64`, `as_i64` and `as_f64` make of it.
#[verifier::external_body]
fn node(value: Value) -> (node: JsonNode)
    ensures
        contents(value) == node_contents(node),
{
    match value {
        Value::Null => JsonNode::Null,
        Value::Bool(flag) => JsonNode::Bool(flag),
        Value::Number(number) => JsonNode::Number(JsonNumber {
            unsigned: number.as_u64(),
            signed: number.as_i64(),
            float_bits: number.as_f64().map(|float| float.to_bits()),
        }),
        Value::String(text) => JsonNode::Text(text),
        Value::Array(items) => JsonNode::Array(items),
        Value::Object(members) => JsonNode::Object(members.into_iter().collect()),
    }
}

/// Calls `serde_json::from_str` for a `serde_json::Value`. The contract says
/// that what comes back depends on the text alone.
#[verifier::external_body]
fn read_value(text: &str) -> (value: Option<Value>)
    ensures
        document(text@) == (match value {
            Some(value) => Some(contents(value)),
            None => None,
        }),
{
    serde_json::from_str::<Value>(text).ok()
}

impl Json {
    /// The plain value of what `serde_json` read.
    pub fn from_value(value: Value) -> (json: Json)
        ensures
            json@ == contents(value),
        decreases contents(value),
    {
        let ghost whole = contents(value);
        match node(value) {
            JsonNode::Null => Json::Null,
            JsonNode::Bool(flag) => Json::Bool(flag),
            JsonNode::Number(number) => Json::Number(number),
            JsonNode::Text(text) => Json::Text(text),
            JsonNode::Array(values) => {
                let ghost all = values@;
                let mut items: Vec<Json> = Vec::new();
                for child in it: values
                    invariant
                        it.seq() == all,
                        whole == contents(value),
                        whole == JsonView::Array(Seq::new(all.len(), |i: int| contents(all[i]))),
                        items@.len() == it.index(),
                        forall|j: int|
                            0 <= j < it.index() ==> (#[trigger] items@[j])@ == contents(all[j]),
                {
                    assert(whole->Array_0[it.index()] == contents(child));
                    items.push(Json::from_value(child));
                }
                let json = Json::Array(items);
                assert(json@->Array_0 =~= whole->Array_0);
                json
            },
            JsonNode::Object(values) => {
                let ghost all = values@;
                let mut members: Vec<(String, Json)> = Vec::new();
                for child in it: values
                    invariant
                        it.seq() == all,
                        whole == contents(value),
                        whole == JsonView::Object(
                            Seq::new(all.len(), |i: int| (all[i].0@, contents(all[i].1))),
                        ),
                        members@.len() == it.index(),
                        forall|j: int|
                            0 <= j < it.index() ==> (#[trigger] members@[j]).0@ == all[j].0@
                                && members@[j].1@ == contents(all[j].1),
                {
                    assert(whole->Object_0[it.index()] == (child.0@, contents(child.1)));
                    assert(decreases_to!(whole => whole->Object_0[it.index()].1));
                    members.push((child.0, Json::from_value(child.1)));
                }
                let json = Json::Object(members);
                assert(json@->Object_0 =~= whole->Object_0);
                json
            },
        }
    }
}

/// Reads one line that a server sent: nothing where the line is no JSON.
pub fn read_message(line: &str) -> (message: Option<Json>)
    ensures
        document(line@) == (match message {
            Some(message) => Some(message@),
            None => None,
        }),
{
    match read_value(line) {
        Some(value) => Some(Json::from_value(value)),
        None => None,
    }
}

/// What `serde_json` writes a value as, on one line.
pub uninterp spec fn compact_text(value: JsonView) -> Seq<char>;

/// Whether a value is made of texts, truth values and integers from zero on,
/// and objects and arrays of them up to a depth.
pub open spec fn is_plain(value: JsonView, depth: nat) -> bool
    decreases depth,
{
    match value {
        JsonView::Null => true,
        JsonView::Bool(_) => true,
        JsonView::Number(number) => number.unsigned is Some,
        JsonView::Text(_) => true,
        JsonView::Array(items) => depth > 0 && forall|i: int|
            0 <= i < items.len() ==> is_plain(#[trigger] items[i], (depth - 1) as nat),
        JsonView::Object(members) => depth > 0 && forall|i: int|
            0 <= i < members.len() ==> is_plain((#[trigger] members[i]).1, (depth - 1) as nat),
    }
}

/// Whether one text stands before another in the order of their characters.
pub open spec fn precedes(a: Seq<char>, b: Seq<char>) -> bool
    decreases a.len(),
{
    if b.len() == 0 {
        false
    } else if a.len() == 0 {
        true
    } else if a[0] == b[0] {
        precedes(a.drop_first(), b.drop_first())
    } else {
        a[0] < b[0]
    }
}

/// Whether the members of a list stand in the order of their names, no two of
/// which are the same.
pub open spec fn are_in_order(members: Seq<(String, Value)>) -> bool {
    forall|i: int, j: int|
        0 <= i < j < members.len() ==> precedes(
            (#[trigger] members[i]).0@,
            (#[trigger] members[j]).0@,
        )
}

/// Calls `serde_json::Value::from` for an integer. The contract says as which
/// integers the value can be read, and with which bits in double precision.
#[verifier::external_body]
pub(crate) fn integer_value(n: u64) -> (value: Value)
    ensures
        contents(value) == JsonView::Number(
            JsonNumber {
                unsigned: Some(n),
                signed: if n <= i64::MAX {
                    Some(n as i64)
                } else {
                    None
                },
                float_bits: Some(double_bits(n as nat) as u64),
            },
        ),
{
    Value::from(n)
}

/// Calls `serde_json::Value::from` for a text. The contract says that the value
/// is that text.
#[verifier::external_body]
pub(crate) fn text_value(text: &str) -> (value: Value)
    ensures
        contents(value) == JsonView::Text(text@),
{
    Value::from(text)
}

/// Calls `serde_json::Value::from` for a truth value. The contract says that
/// the value is that truth value.
#[verifier::external_body]
pub(crate) fn flag_value(flag: bool) -> (value: Value)
    ensures
        contents(value) == JsonView::Bool(flag),
{
    Value::from(flag)
}

/// Collects members into a `serde_json::Value`. The contract says that members
/// in the order of their names make the object of those members; of other
/// members nothing is said.
#[verifier::external_body]
pub(crate) fn object_value(members: Vec<(String, Value)>) -> (value: Value)
    ensures
        are_in_order(members@) ==> contents(value) == JsonView::Object(
            Seq::new(members@.len(), |i: int| (members@[i].0@, contents(members@[i].1))),
        ),
{
    Value::from_iter(members)
}

/// Calls `serde_json::Value::to_string`. The contract says that the text
/// depends on the value alone and is one line, and that a value without fractions and without
/// negative numbers, nested no deeper than a hundred times, is read back from
/// it.
#[verifier::external_body]
pub(crate) fn write_value(value: &Value) -> (text: String)
    ensures
        text@ == compact_text(contents(*value)),
        !text@.contains('\n'),
        is_plain(contents(*value), 100) ==> document(text@) == Some(contents(*value)),
{
    value.to_string()
}

/// The member of an object with a name is the first one of that name, whatever
/// follows it; an object has no member of a name that none of its members has,
/// and what is no object has no members.
pub proof fn the_first_member_of_a_name_is_found(
    value: JsonView,
    members: Seq<(Seq<char>, JsonView)>,
    name: Seq<char>,
    i: int,
)
    ensures
        value !is Object ==> value.get(name) is None,
        (forall|j: int| 0 <= j < members.len() ==> (#[trigger] members[j]).0 != name)
            ==> JsonView::Object(members).get(name) is None,
        0 <= i < members.len() && members[i].0 == name && (forall|j: int|
            0 <= j < i ==> (#[trigger] members[j]).0 != name) ==> JsonView::Object(members).get(
            name,
        ) == Some(members[i].1),
    decreases members.len(),
{
    if members.len() > 0 && members[0].0 != name {
        let rest = members.drop_first();
        the_first_member_of_a_name_is_found(value, rest, name, i - 1);
        if forall|j: int| 0 <= j < members.len() ==> (#[trigger] members[j]).0 != name {
            assert forall|j: int| 0 <= j < rest.len() implies (#[trigger] rest[j]).0 != name by {
                assert(members[j + 1].0 != name);
            }
        }
        if 0 <= i < members.len() && members[i].0 == name && (forall|j: int|
            0 <= j < i ==> (#[trigger] members[j]).0 != name) {
            assert(rest[i - 1] == members[i]);
            assert forall|j: int| 0 <= j < i - 1 implies (#[trigger] rest[j]).0 != name by {
                assert(members[j + 1].0 != name);
            }
        }
    }
}

/// A value is read as what it is and as nothing else: a text as its characters,
/// a truth value as itself, a number as the integers that it is.
pub proof fn values_are_read_as_what_they_are(value: JsonView)
    ensures
        value.as_text() == (match value {
            JsonView::Text(text) => Some(text),
            _ => None,
        }),
        value.as_bool() == (match value {
            JsonView::Bool(flag) => Some(flag),
            _ => None,
        }),
        value.as_unsigned() == (match value {
            JsonView::Number(number) => number.unsigned,
            _ => None,
        }),
        value.as_signed() == (match value {
            JsonView::Number(number) => number.signed,
            _ => None,
        }),
        value.as_float_bits() == (match value {
            JsonView::Number(number) => number.float_bits,
            _ => None,
        }),
{
}

} // verus!
