//! JSON documents as plain values, read and written by `serde_json`.

use crate::text::same_text;
use vstd::prelude::*;

verus! {

/// A JSON document.
#[derive(Debug, PartialEq, Eq)]
pub enum Json {
    Null,
    Bool(bool),
    /// A number, kept as the text that writes it.
    Number(String),
    Text(String),
    Array(Vec<Json>),
    /// The members of an object, in document order.
    Object(Vec<(String, Json)>),
}

/// What a [`Json`] document holds.
pub ghost enum JsonValue {
    Null,
    Bool(bool),
    Number(Seq<char>),
    Text(Seq<char>),
    Array(Seq<JsonValue>),
    Object(Seq<Field>),
}

/// One member of an object.
pub ghost struct Field {
    pub name: Seq<char>,
    pub value: JsonValue,
}

impl View for Json {
    type V = JsonValue;

    open spec fn view(&self) -> JsonValue
        decreases self,
    {
        match self {
            Json::Null => JsonValue::Null,
            Json::Bool(b) => JsonValue::Bool(*b),
            Json::Number(text) => JsonValue::Number(text@),
            Json::Text(text) => JsonValue::Text(text@),
            Json::Array(items) => JsonValue::Array(
                Seq::new(
                    items@.len(),
                    |i: int|
                        if 0 <= i < items@.len() {
                            items@[i].view()
                        } else {
                            JsonValue::Null
                        },
                ),
            ),
            Json::Object(members) => JsonValue::Object(
                Seq::new(
                    members@.len(),
                    |i: int|
                        if 0 <= i < members@.len() {
                            Field { name: members@[i].0@, value: members@[i].1.view() }
                        } else {
                            Field { name: Seq::empty(), value: JsonValue::Null }
                        },
                ),
            ),
        }
    }
}

/// What a list of documents holds.
pub open spec fn items_model(items: Seq<Json>) -> Seq<JsonValue> {
    Seq::new(items.len(), |i: int| items[i]@)
}

/// What a list of members holds.
pub open spec fn members_model(members: Seq<(String, Json)>) -> Seq<Field> {
    Seq::new(members.len(), |i: int| Field { name: members[i].0@, value: members[i].1@ })
}

/// An array holds what its items hold, in their order.
pub proof fn array_view(items: Vec<Json>)
    ensures
        Json::Array(items)@ == JsonValue::Array(items_model(items@)),
{
    assert(Json::Array(items)@->Array_0 =~= items_model(items@));
}

/// An object holds what its members hold, in their order.
pub proof fn object_view(members: Vec<(String, Json)>)
    ensures
        Json::Object(members)@ == JsonValue::Object(members_model(members@)),
{
    assert(Json::Object(members)@->Object_0 =~= members_model(members@));
}

/// The first position at or after `from` whose member is named `key`, or the
/// number of members where none is.
pub open spec fn position_of(members: Seq<Field>, key: Seq<char>, from: int) -> int
    decreases members.len() - from,
{
    if 0 <= from < members.len() && members[from].name != key {
        position_of(members, key, from + 1)
    } else {
        from
    }
}

/// The value of the first member named `key`.
pub open spec fn lookup(members: Seq<Field>, key: Seq<char>) -> Option<JsonValue> {
    let index = position_of(members, key, 0);
    if 0 <= index < members.len() {
        Some(members[index].value)
    } else {
        None
    }
}

/// The members with `key` set to `value`: in the place of the first member of
/// that name where there is one, and at the end where there is none.
pub open spec fn with_member(
    members: Seq<Field>,
    key: Seq<char>,
    value: JsonValue,
) -> Seq<Field> {
    let index = position_of(members, key, 0);
    if 0 <= index < members.len() {
        members.update(index, Field { name: key, value })
    } else {
        members.push(Field { name: key, value })
    }
}

impl JsonValue {
    /// The value of the member named `key`, where this is an object that has
    /// one.
    pub open spec fn member(self, key: Seq<char>) -> Option<JsonValue> {
        match self {
            JsonValue::Object(members) => lookup(members, key),
            _ => None,
        }
    }

    /// The text, where this is a string.
    pub open spec fn text(self) -> Option<Seq<char>> {
        match self {
            JsonValue::Text(text) => Some(text),
            _ => None,
        }
    }

    /// The items, where this is an array.
    pub open spec fn items(self) -> Option<Seq<JsonValue>> {
        match self {
            JsonValue::Array(items) => Some(items),
            _ => None,
        }
    }
}

/// The position of the first member of a name lies within the members, holds
/// a member of the name where it lies before their end, and no member before
/// it has the name.
pub proof fn position_of_stays_in_range(
    members: Seq<Field>,
    key: Seq<char>,
    from: int,
)
    requires
        0 <= from <= members.len(),
    ensures
        from <= position_of(members, key, from) <= members.len(),
        position_of(members, key, from) < members.len() ==> members[position_of(
            members,
            key,
            from,
        )].name == key,
        forall|i: int| from <= i < position_of(members, key, from) ==> (#[trigger] members[i]).name != key,
    decreases members.len() - from,
{
    if from < members.len() && members[from].name != key {
        position_of_stays_in_range(members, key, from + 1);
    }
}

/// The first member named `key` is at `index` when that member has the name
/// and no member before it has.
pub proof fn position_of_is(members: Seq<Field>, key: Seq<char>, from: int, index: int)
    requires
        0 <= from <= index <= members.len(),
        index < members.len() ==> members[index].name == key,
        forall|i: int| from <= i < index ==> (#[trigger] members[i]).name != key,
    ensures
        position_of(members, key, from) == index,
    decreases index - from,
{
    if from < index {
        assert(members[from].name != key);
        position_of_is(members, key, from + 1, index);
    }
}

/// A member that was set is found, with the value that it was set to.
pub proof fn member_set_is_found(members: Seq<Field>, key: Seq<char>, value: JsonValue)
    ensures
        lookup(with_member(members, key, value), key) == Some(value),
        position_of(with_member(members, key, value), key, 0) == position_of(members, key, 0),
        with_member(with_member(members, key, value), key, value) == with_member(
            members,
            key,
            value,
        ),
{
    position_of_stays_in_range(members, key, 0);
    let index = position_of(members, key, 0);
    let updated = with_member(members, key, value);
    assert forall|i: int| 0 <= i < index implies (#[trigger] updated[i]).name != key by {
        assert(updated[i] == members[i]);
    }
    position_of_is(updated, key, 0, index);
    assert(with_member(updated, key, value) =~= updated);
}

/// Setting one member leaves the members of every other name as they were.
pub proof fn member_set_keeps_others(
    members: Seq<Field>,
    key: Seq<char>,
    value: JsonValue,
    other: Seq<char>,
)
    requires
        other != key,
    ensures
        lookup(with_member(members, key, value), other) == lookup(members, other),
{
    position_of_stays_in_range(members, key, 0);
    position_of_stays_in_range(members, other, 0);
    let at = position_of(members, other, 0);
    let updated = with_member(members, key, value);
    assert forall|i: int| 0 <= i < at implies (#[trigger] updated[i]).name != other by {
        if i < members.len() {
            if i == position_of(members, key, 0) {
            } else {
                assert(updated[i] == members[i]);
            }
        }
    }
    if at < members.len() {
        assert(at != position_of(members, key, 0));
        assert(updated[at] == members[at]);
        position_of_is(updated, other, 0, at);
    } else {
        position_of_is(updated, other, 0, updated.len() as int);
    }
}

/// The position of the first member named `key`.
pub fn find_member(members: &Vec<(String, Json)>, key: &str) -> (index: usize)
    ensures
        index == position_of(members_model(members@), key@, 0),
        index <= members.len(),
{
    let mut index: usize = 0;
    while index < members.len() && !same_text(members[index].0.as_str(), key)
        invariant
            index <= members.len(),
            position_of(members_model(members@), key@, 0) == position_of(
                members_model(members@),
                key@,
                index as int,
            ),
        decreases members.len() - index,
    {
        index += 1;
    }
    index
}

impl Json {
    /// The value of the member named `key`.
    pub fn get(&self, key: &str) -> (value: Option<&Json>)
        ensures
            match value {
                Some(found) => self@.member(key@) == Some(found@),
                None => self@.member(key@) is None,
            },
    {
        match self {
            Json::Object(members) => {
                proof {
                    object_view(*members);
                }
                let index: usize = find_member(members, key);
                if index < members.len() {
                    Some(&members[index].1)
                } else {
                    None
                }
            },
            _ => None,
        }
    }

    /// The text of a string.
    pub fn as_text(&self) -> (text: Option<&str>)
        ensures
            match text {
                Some(found) => self@.text() == Some(found@),
                None => self@.text() is None,
            },
    {
        match self {
            Json::Text(text) => Some(text.as_str()),
            _ => None,
        }
    }

    /// The items of an array.
    pub fn as_array(&self) -> (items: Option<&Vec<Json>>)
        ensures
            match items {
                Some(found) => self@.items() == Some(items_model(found@)),
                None => self@.items() is None,
            },
    {
        match self {
            Json::Array(items) => {
                proof {
                    array_view(*items);
                }
                Some(items)
            },
            _ => None,
        }
    }
}

impl Clone for Json {
    /// A copy that holds what this document holds.
    #[verifier::loop_isolation(false)]
    fn clone(&self) -> (copy: Json)
        ensures
            copy@ == self@,
        decreases self,
    {
        match self {
            Json::Null => Json::Null,
            Json::Bool(flag) => Json::Bool(*flag),
            Json::Number(text) => Json::Number(text.clone()),
            Json::Text(text) => Json::Text(text.clone()),
            Json::Array(items) => {
                let mut copies: Vec<Json> = Vec::new();
                let mut index: usize = 0;
                while index < items.len()
                    invariant
                        index <= items.len(),
                        items_model(copies@) == items_model(items@).take(index as int),
                    decreases items.len() - index,
                {
                    proof {
                        assert(decreases_to!(*items => items[index as int]));
                    }
                    let copy = items[index].clone();
                    assert(copy@ == items_model(items@)[index as int]);
                    let ghost before = items_model(copies@);
                    copies.push(copy);
                    index += 1;
                    assert(items_model(copies@) =~= before.push(copy@));
                    assert(items_model(copies@) =~= items_model(items@).take(index as int));
                }
                proof {
                    assert(items_model(copies@) =~= items_model(items@));
                    array_view(copies);
                    array_view(*items);
                }
                Json::Array(copies)
            },
            Json::Object(members) => {
                let mut copies: Vec<(String, Json)> = Vec::new();
                let mut index: usize = 0;
                while index < members.len()
                    invariant
                        index <= members.len(),
                        members_model(copies@) == members_model(members@).take(index as int),
                    decreases members.len() - index,
                {
                    let name = members[index].0.clone();
                    proof {
                        assert(decreases_to!(*members => members[index as int]));
                        assert(decreases_to!(members[index as int] => members[index as int].1));
                    }
                    let value = members[index].1.clone();
                    assert(name@ == members_model(members@)[index as int].name);
                    assert(value@ == members_model(members@)[index as int].value);
                    let ghost before = members_model(copies@);
                    let ghost field = Field { name: name@, value: value@ };
                    copies.push((name, value));
                    index += 1;
                    assert(members_model(copies@) =~= before.push(field));
                    assert(members_model(copies@) =~= members_model(members@).take(index as int));
                }
                proof {
                    assert(members_model(copies@) =~= members_model(members@));
                    object_view(copies);
                    object_view(*members);
                }
                Json::Object(copies)
            },
        }
    }
}

/// Sets the member named `key` to `value`.
pub fn set_member(members: Vec<(String, Json)>, key: &str, value: Json) -> (updated: Vec<
    (String, Json),
>)
    ensures
        members_model(updated@) == with_member(members_model(members@), key@, value@),
{
    let mut updated = members;
    let index: usize = find_member(&updated, key);
    if index < updated.len() {
        updated.set(index, (String::from_str(key), value));
    } else {
        updated.push((String::from_str(key), value));
    }
    assert(members_model(updated@) =~= with_member(members_model(members@), key@, value@));
    updated
}

/// The error type of `serde_json`.
#[verifier::external_type_specification]
#[verifier::external_body]
pub struct ExJsonError(serde_json::Error);

/// The document type of `serde_json`.
#[verifier::external_type_specification]
#[verifier::external_body]
pub struct ExJsonTree(serde_json::Value);

/// The document that `serde_json` reads from `text`; none where it finds a
/// fault in the text.
pub uninterp spec fn parsed_text(text: Seq<char>) -> Option<JsonValue>;

/// The text that `serde_json` writes for `document`, indented; none where it
/// cannot take the document.
pub uninterp spec fn pretty_text(document: JsonValue) -> Option<Seq<char>>;

/// Carries a `serde_json::Value` over, variant by variant. An object gives its
/// members in the order in which the map hands them out, a number the text
/// that `serde_json` writes for it.
#[verifier::external_body]
fn from_tree(tree: serde_json::Value) -> Json {
    match tree {
        serde_json::Value::Null => Json::Null,
        serde_json::Value::Bool(flag) => Json::Bool(flag),
        serde_json::Value::Number(number) => Json::Number(number.to_string()),
        serde_json::Value::String(text) => Json::Text(text),
        serde_json::Value::Array(items) => Json::Array(items.into_iter().map(from_tree).collect()),
        serde_json::Value::Object(map) => Json::Object(
            map.into_iter().map(|(key, value)| (key, from_tree(value))).collect(),
        ),
    }
}

/// Builds the `serde_json::Value` of a document, variant by variant. The text
/// of a number is read by `serde_json::from_str`, whose error is handed on.
#[verifier::external_body]
fn to_tree(document: &Json) -> Result<serde_json::Value, serde_json::Error> {
    Ok(match document {
        Json::Null => serde_json::Value::Null,
        Json::Bool(flag) => serde_json::Value::Bool(*flag),
        Json::Number(text) => serde_json::Value::Number(serde_json::from_str(text)?),
        Json::Text(text) => serde_json::Value::String(text.clone()),
        Json::Array(items) => serde_json::Value::Array(
            items.iter().map(to_tree).collect::<Result<_, _>>()?,
        ),
        Json::Object(members) => serde_json::Value::Object(
            members.iter().map(|m| Ok((m.0.clone(), to_tree(&m.1)?))).collect::<Result<_, _>>()?,
        ),
    })
}

/// `serde_json::from_str`, at the type `serde_json::Value`: the document that
/// the text holds, or the error where the text is no JSON document. Which of
/// the two comes, and the document, depend on the text alone.
#[verifier::external_body]
fn read_document(text: &str) -> (document: Result<Json, serde_json::Error>)
    ensures
        match document {
            Ok(found) => parsed_text(text@) == Some(found@),
            Err(_) => parsed_text(text@) is None,
        },
{
    serde_json::from_str::<serde_json::Value>(text).map(from_tree)
}

/// `serde_json::to_string_pretty`: the indented text of the document, or the
/// error where the document cannot be written. Which of the two comes, and
/// the text, depend on the document alone.
#[verifier::external_body]
fn write_document(document: &Json) -> (text: Result<String, serde_json::Error>)
    ensures
        match text {
            Ok(written) => pretty_text(document@) == Some(written@),
            Err(_) => pretty_text(document@) is None,
        },
{
    serde_json::to_string_pretty(&to_tree(document)?)
}

/// The message of a `serde_json::Error`, as its `Display` writes it.
#[verifier::external_body]
fn error_message(error: &serde_json::Error) -> String {
    error.to_string()
}

/// Why a text could not be read as a document, or a document not written.
#[derive(Clone, Debug, PartialEq, Eq)]
pub struct JsonError {
    pub message: String,
}

/// Reads a JSON document.
pub fn parse(text: &str) -> (document: Result<Json, JsonError>)
    ensures
        match document {
            Ok(found) => parsed_text(text@) == Some(found@),
            Err(_) => parsed_text(text@) is None,
        },
{
    match read_document(text) {
        Ok(found) => Ok(found),
        Err(error) => Err(JsonError { message: error_message(&error) }),
    }
}

/// Writes a JSON document, indented.
pub fn to_pretty(document: &Json) -> (text: Result<String, JsonError>)
    ensures
        match text {
            Ok(written) => pretty_text(document@) == Some(written@),
            Err(_) => pretty_text(document@) is None,
        },
{
    match write_document(document) {
        Ok(written) => Ok(written),
        Err(error) => Err(JsonError { message: error_message(&error) }),
    }
}

} // verus!
