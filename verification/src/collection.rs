//! The variables of a test-collection document.
//!
//! A collection is a JSON object whose member `variable` is an array of
//! records, each an object with the members `key`, `value` and `type`.
//! Setting a variable changes the record of that key where there is one and
//! adds a record where there is none, so that no key is ever recorded twice
//! by this module.

use crate::json::array_view;
use crate::json::find_member;
use crate::json::items_model;
use crate::json::lookup;
use crate::json::member_set_is_found;
use crate::json::member_set_keeps_others;
use crate::json::members_model;
use crate::json::object_view;
use crate::json::parse;
use crate::json::parsed_text;
use crate::json::position_of;
use crate::json::position_of_is;
use crate::json::position_of_stays_in_range;
use crate::json::pretty_text;
use crate::json::set_member;
use crate::json::to_pretty;
use crate::json::with_member;
use crate::json::Field;
use crate::json::Json;
use crate::json::JsonError;
use crate::json::JsonValue;
use crate::text::same_text;
use vstd::prelude::*;

verus! {

/// Why a collection could not be edited.
#[derive(Clone, Debug, PartialEq, Eq)]
pub enum CollectionError {
    /// The text is no JSON document.
    Malformed(JsonError),
    /// The document is no JSON object.
    NotAnObject,
    /// The edited document could not be written.
    Unwritable(JsonError),
}

/// The record that is added for a variable that was not there.
pub open spec fn new_record(key: Seq<char>, value: Seq<char>) -> JsonValue {
    JsonValue::Object(
        seq![
            Field { name: "key"@, value: JsonValue::Text(key) },
            Field { name: "value"@, value: JsonValue::Text(value) },
            Field { name: "type"@, value: JsonValue::Text("string"@) },
        ],
    )
}

/// Whether `record` is the record of the variable `key`: an object whose
/// member `key` is that text.
pub open spec fn is_record_of(record: JsonValue, key: Seq<char>) -> bool {
    match record.member("key"@) {
        Some(name) => name.text() == Some(key),
        None => false,
    }
}

/// The first position at or after `from` that holds the record of `key`, or
/// the number of records where none does.
pub open spec fn record_position(records: Seq<JsonValue>, key: Seq<char>, from: int) -> int
    decreases records.len() - from,
{
    if 0 <= from < records.len() && !is_record_of(records[from], key) {
        record_position(records, key, from + 1)
    } else {
        from
    }
}

/// `record` with its member `value` set to the text `value`.
pub open spec fn with_value(record: JsonValue, value: Seq<char>) -> JsonValue {
    match record {
        JsonValue::Object(members) => JsonValue::Object(
            with_member(members, "value"@, JsonValue::Text(value)),
        ),
        _ => record,
    }
}

/// The records with the variable `key` set to `value`: the first record of
/// that key has its value overwritten in place; where there is none, a new
/// record is appended.
pub open spec fn upserted(records: Seq<JsonValue>, key: Seq<char>, value: Seq<char>) -> Seq<
    JsonValue,
> {
    let index = record_position(records, key, 0);
    if 0 <= index < records.len() {
        records.update(index, with_value(records[index], value))
    } else {
        records.push(new_record(key, value))
    }
}

/// The members of a collection with the variable `key` set to `value`. Where
/// the member `variable` is missing, or is no array, it becomes an array that
/// holds exactly the new record.
pub open spec fn with_variable(members: Seq<Field>, key: Seq<char>, value: Seq<char>) -> Seq<
    Field,
> {
    match lookup(members, "variable"@) {
        Some(JsonValue::Array(records)) => with_member(
            members,
            "variable"@,
            JsonValue::Array(upserted(records, key, value)),
        ),
        _ => with_member(members, "variable"@, JsonValue::Array(seq![new_record(key, value)])),
    }
}

/// The collection with the variable `key` set to `value`. An empty (null)
/// document counts as an object without members; any other document that is
/// no object is no collection.
pub open spec fn injected(document: JsonValue, key: Seq<char>, value: Seq<char>) -> Option<
    JsonValue,
> {
    match document {
        JsonValue::Object(members) => Some(JsonValue::Object(with_variable(members, key, value))),
        JsonValue::Null => Some(
            JsonValue::Object(with_variable(Seq::empty(), key, value)),
        ),
        _ => None,
    }
}

/// The position of the record of a key lies within the records, holds a
/// record of the key where it lies before their end, and no record before it
/// is of the key.
pub proof fn record_position_stays_in_range(records: Seq<JsonValue>, key: Seq<char>, from: int)
    requires
        0 <= from <= records.len(),
    ensures
        from <= record_position(records, key, from) <= records.len(),
        record_position(records, key, from) < records.len() ==> is_record_of(
            records[record_position(records, key, from)],
            key,
        ),
        forall|i: int|
            from <= i < record_position(records, key, from) ==> !is_record_of(
                #[trigger] records[i],
                key,
            ),
    decreases records.len() - from,
{
    if from < records.len() && !is_record_of(records[from], key) {
        record_position_stays_in_range(records, key, from + 1);
    }
}

/// The record of `key` is at `index` when that record is of the key and no
/// record before it is.
pub proof fn record_position_is(records: Seq<JsonValue>, key: Seq<char>, from: int, index: int)
    requires
        0 <= from <= index <= records.len(),
        index < records.len() ==> is_record_of(records[index], key),
        forall|i: int| from <= i < index ==> !is_record_of(#[trigger] records[i], key),
    ensures
        record_position(records, key, from) == index,
    decreases index - from,
{
    if from < index {
        assert(!is_record_of(records[from], key));
        record_position_is(records, key, from + 1, index);
    }
}

/// The names of the three members of a record differ from one another.
pub proof fn record_member_names_differ()
    ensures
        "key"@ != "value"@,
        "key"@ != "type"@,
        "value"@ != "type"@,
{
    reveal_strlit("key");
    reveal_strlit("value");
    reveal_strlit("type");
    assert("key"@.len() == 3);
    assert("value"@.len() == 5);
    assert("type"@.len() == 4);
}

/// A new record is the record of its key, and holds the value it was made
/// with.
pub proof fn new_record_is_record_of_its_key(key: Seq<char>, value: Seq<char>)
    ensures
        is_record_of(new_record(key, value), key),
        with_value(new_record(key, value), value) == new_record(key, value),
        new_record(key, value).member("value"@) == Some(JsonValue::Text(value)),
{
    record_member_names_differ();
    let members = new_record(key, value)->Object_0;
    position_of_is(members, "key"@, 0, 0);
    position_of_is(members, "value"@, 0, 1);
    assert(with_member(members, "value"@, JsonValue::Text(value)) =~= members);
}

/// Setting the value of a record keeps it the record of the same key, and
/// setting the same value again changes nothing.
pub proof fn value_set_keeps_the_key(record: JsonValue, key: Seq<char>, value: Seq<char>)
    ensures
        is_record_of(with_value(record, value), key) == is_record_of(record, key),
        with_value(with_value(record, value), value) == with_value(record, value),
        record is Object ==> with_value(record, value).member("value"@) == Some(
            JsonValue::Text(value),
        ),
{
    record_member_names_differ();
    if record is Object {
        let members = record->Object_0;
        member_set_keeps_others(members, "value"@, JsonValue::Text(value), "key"@);
        member_set_is_found(members, "value"@, JsonValue::Text(value));
    }
}

/// Setting a variable leaves its record where the first record of the key
/// was, or at the end where there was none.
pub proof fn upserted_record_is_found(records: Seq<JsonValue>, key: Seq<char>, value: Seq<char>)
    ensures
        record_position(upserted(records, key, value), key, 0) == record_position(records, key, 0),
        record_position(records, key, 0) < upserted(records, key, value).len(),
{
    record_position_stays_in_range(records, key, 0);
    let index = record_position(records, key, 0);
    let updated = upserted(records, key, value);
    assert forall|i: int| 0 <= i < index implies !is_record_of(#[trigger] updated[i], key) by {
        assert(updated[i] == records[i]);
    }
    if index < records.len() {
        value_set_keeps_the_key(records[index], key, value);
    } else {
        new_record_is_record_of_its_key(key, value);
    }
    record_position_is(updated, key, 0, index);
}

/// Setting a variable twice to the same value gives the records that setting
/// it once gives.
pub proof fn upsert_is_idempotent(records: Seq<JsonValue>, key: Seq<char>, value: Seq<char>)
    ensures
        upserted(upserted(records, key, value), key, value) == upserted(records, key, value),
{
    upserted_record_is_found(records, key, value);
    record_position_stays_in_range(records, key, 0);
    let index = record_position(records, key, 0);
    let once = upserted(records, key, value);
    if index < records.len() {
        value_set_keeps_the_key(records[index], key, value);
    } else {
        new_record_is_record_of_its_key(key, value);
    }
    assert(upserted(once, key, value) =~= once);
}

/// Setting a variable twice to the same value gives the document that
/// setting it once gives.
pub proof fn inject_variable_is_idempotent(document: JsonValue, key: Seq<char>, value: Seq<char>)
    requires
        injected(document, key, value) is Some,
    ensures
        injected(injected(document, key, value)->Some_0, key, value) == injected(
            document,
            key,
            value,
        ),
{
    let members = match document {
        JsonValue::Object(members) => members,
        _ => Seq::empty(),
    };
    let records = match lookup(members, "variable"@) {
        Some(JsonValue::Array(records)) => upserted(records, key, value),
        _ => seq![new_record(key, value)],
    };
    let once = with_variable(members, key, value);
    assert(once == with_member(members, "variable"@, JsonValue::Array(records)));
    member_set_is_found(members, "variable"@, JsonValue::Array(records));
    match lookup(members, "variable"@) {
        Some(JsonValue::Array(before)) => {
            upsert_is_idempotent(before, key, value);
        },
        _ => {
            new_record_is_record_of_its_key(key, value);
            record_position_is(records, key, 0, 0);
            assert(upserted(records, key, value) =~= records);
        },
    }
    assert(with_variable(once, key, value) == once);
}

/// Setting a variable that the collection does not have appends exactly one
/// record, the new one, and leaves every record and every other member of the
/// collection as it was.
pub proof fn new_key_appends_one_record(
    members: Seq<Field>,
    records: Seq<JsonValue>,
    key: Seq<char>,
    value: Seq<char>,
)
    requires
        lookup(members, "variable"@) == Some(JsonValue::Array(records)),
        forall|i: int| 0 <= i < records.len() ==> !is_record_of(#[trigger] records[i], key),
    ensures
        injected(JsonValue::Object(members), key, value) == Some(
            JsonValue::Object(
                members.update(
                    position_of(members, "variable"@, 0),
                    Field {
                        name: "variable"@,
                        value: JsonValue::Array(records.push(new_record(key, value))),
                    },
                ),
            ),
        ),
        upserted(records, key, value).len() == records.len() + 1,
        upserted(records, key, value).last() == new_record(key, value),
        forall|i: int| 0 <= i < records.len() ==> #[trigger] upserted(records, key, value)[i] == records[i],
{
    record_position_is(records, key, 0, records.len() as int);
    position_of_stays_in_range(members, "variable"@, 0);
}

/// Setting a variable that the collection has changes the value of its record
/// and nothing else: the number and the order of the records stay, every
/// other record stays as it was, and so does every other member of the
/// changed record.
pub proof fn existing_key_changes_only_its_value(
    members: Seq<Field>,
    records: Seq<JsonValue>,
    key: Seq<char>,
    value: Seq<char>,
    index: int,
    other: Seq<char>,
)
    requires
        lookup(members, "variable"@) == Some(JsonValue::Array(records)),
        0 <= index < records.len(),
        is_record_of(records[index], key),
        forall|i: int| 0 <= i < index ==> !is_record_of(#[trigger] records[i], key),
        other != "value"@,
    ensures
        injected(JsonValue::Object(members), key, value) == Some(
            JsonValue::Object(
                members.update(
                    position_of(members, "variable"@, 0),
                    Field {
                        name: "variable"@,
                        value: JsonValue::Array(upserted(records, key, value)),
                    },
                ),
            ),
        ),
        upserted(records, key, value).len() == records.len(),
        forall|i: int|
            0 <= i < records.len() && i != index ==> #[trigger] upserted(records, key, value)[i]
                == records[i],
        upserted(records, key, value)[index].member("value"@) == Some(JsonValue::Text(value)),
        upserted(records, key, value)[index].member(other) == records[index].member(other),
{
    record_position_is(records, key, 0, index);
    position_of_stays_in_range(members, "variable"@, 0);
    value_set_keeps_the_key(records[index], key, value);
    assert(records[index] is Object);
    member_set_keeps_others(records[index]->Object_0, "value"@, JsonValue::Text(value), other);
}

/// How many of the records are records of `key`.
pub open spec fn occurrences(records: Seq<JsonValue>, key: Seq<char>) -> nat
    decreases records.len(),
{
    if records.len() == 0 {
        0
    } else if is_record_of(records.last(), key) {
        occurrences(records.drop_last(), key) + 1
    } else {
        occurrences(records.drop_last(), key)
    }
}

/// Records of which none is of `key` hold no occurrence of it.
pub proof fn absent_key_does_not_occur(records: Seq<JsonValue>, key: Seq<char>)
    requires
        forall|i: int| 0 <= i < records.len() ==> !is_record_of(#[trigger] records[i], key),
    ensures
        occurrences(records, key) == 0,
    decreases records.len(),
{
    if records.len() > 0 {
        absent_key_does_not_occur(records.drop_last(), key);
    }
}

/// Two lists of records that agree, place by place, on which records are of
/// `key` hold as many occurrences of it.
pub proof fn occurrences_follow_the_records(
    left: Seq<JsonValue>,
    right: Seq<JsonValue>,
    key: Seq<char>,
)
    requires
        left.len() == right.len(),
        forall|i: int|
            0 <= i < left.len() ==> is_record_of(#[trigger] left[i], key) == is_record_of(
                right[i],
                key,
            ),
    ensures
        occurrences(left, key) == occurrences(right, key),
    decreases left.len(),
{
    if left.len() > 0 {
        assert(is_record_of(left[left.len() - 1], key) == is_record_of(right[left.len() - 1], key));
        occurrences_follow_the_records(left.drop_last(), right.drop_last(), key);
    }
}

/// No variable is recorded twice on account of an upsert: the key that was
/// set is recorded as often as before, or once where it was not recorded at
/// all, and every other key is recorded exactly as often as before. So
/// records in which each key occurs at most once stay so.
pub proof fn upsert_keeps_keys_unique(
    records: Seq<JsonValue>,
    key: Seq<char>,
    value: Seq<char>,
    other: Seq<char>,
)
    ensures
        occurrences(upserted(records, key, value), key) == if occurrences(records, key) == 0 {
            1
        } else {
            occurrences(records, key)
        },
        other != key ==> occurrences(upserted(records, key, value), other) == occurrences(
            records,
            other,
        ),
{
    record_position_stays_in_range(records, key, 0);
    let index = record_position(records, key, 0);
    let updated = upserted(records, key, value);
    if index < records.len() {
        value_set_keeps_the_key(records[index], key, value);
        value_set_keeps_the_key(records[index], other, value);
        occurrences_follow_the_records(updated, records, key);
        occurrences_follow_the_records(updated, records, other);
        occurrence_is_counted(records, key, index);
    } else {
        new_record_is_record_of_its_key(key, value);
        absent_key_does_not_occur(records, key);
        assert(updated.drop_last() =~= records);
        assert(updated.last() == new_record(key, value));
        if other != key {
            record_member_names_differ();
            position_of_is(new_record(key, value)->Object_0, "key"@, 0, 0);
            assert(!is_record_of(new_record(key, value), other));
        }
    }
}

/// A key of which a record is there occurs at least once.
pub proof fn occurrence_is_counted(records: Seq<JsonValue>, key: Seq<char>, index: int)
    requires
        0 <= index < records.len(),
        is_record_of(records[index], key),
    ensures
        occurrences(records, key) > 0,
    decreases records.len(),
{
    if index < records.len() - 1 {
        occurrence_is_counted(records.drop_last(), key, index);
    }
}

fn make_record(key: &str, value: &str) -> (record: Json)
    ensures
        record@ == new_record(key@, value@),
{
    let mut members: Vec<(String, Json)> = Vec::new();
    members.push((String::from_str("key"), Json::Text(String::from_str(key))));
    members.push((String::from_str("value"), Json::Text(String::from_str(value))));
    members.push((String::from_str("type"), Json::Text(String::from_str("string"))));
    proof {
        object_view(members);
        assert(members_model(members@) =~= new_record(key@, value@)->Object_0);
    }
    Json::Object(members)
}

fn holds_key(record: &Json, key: &str) -> (yes: bool)
    ensures
        yes == is_record_of(record@, key@),
{
    match record.get("key") {
        Some(name) => match name.as_text() {
            Some(text) => same_text(text, key),
            None => false,
        },
        None => false,
    }
}

fn set_value(record: Json, value: &str) -> (updated: Json)
    ensures
        updated@ == with_value(record@, value@),
{
    match record {
        Json::Object(members) => {
            proof {
                object_view(members);
            }
            let updated = set_member(members, "value", Json::Text(String::from_str(value)));
            proof {
                object_view(updated);
            }
            Json::Object(updated)
        },
        other => other,
    }
}

/// Sets the variable `key` to `value` in the records of a collection.
pub fn upsert(records: Vec<Json>, key: &str, value: &str) -> (updated: Vec<Json>)
    ensures
        items_model(updated@) == upserted(items_model(records@), key@, value@),
{
    let mut updated = records;
    let mut index: usize = 0;
    while index < updated.len() && !holds_key(&updated[index], key)
        invariant
            index <= updated.len(),
            updated@ == records@,
            record_position(items_model(records@), key@, 0) == record_position(
                items_model(records@),
                key@,
                index as int,
            ),
        decreases updated.len() - index,
    {
        index += 1;
    }
    if index < updated.len() {
        let record = updated.remove(index);
        let changed = set_value(record, value);
        updated.insert(index, changed);
    } else {
        updated.push(make_record(key, value));
    }
    assert(items_model(updated@) =~= upserted(items_model(records@), key@, value@));
    updated
}

fn set_variable(members: Vec<(String, Json)>, key: &str, value: &str) -> (updated: Vec<
    (String, Json),
>)
    ensures
        members_model(updated@) == with_variable(members_model(members@), key@, value@),
{
    let mut updated = members;
    let index: usize = find_member(&updated, "variable");
    if index < updated.len() {
        proof {
            position_of_stays_in_range(members_model(members@), "variable"@, 0);
        }
        let slot = updated.remove(index);
        let records = match slot.1 {
            Json::Array(records) => {
                proof {
                    array_view(records);
                }
                upsert(records, key, value)
            },
            _ => {
                let mut records: Vec<Json> = Vec::new();
                records.push(make_record(key, value));
                assert(items_model(records@) =~= seq![new_record(key@, value@)]);
                records
            },
        };
        proof {
            array_view(records);
        }
        updated.insert(index, (slot.0, Json::Array(records)));
    } else {
        let mut records: Vec<Json> = Vec::new();
        records.push(make_record(key, value));
        proof {
            assert(items_model(records@) =~= seq![new_record(key@, value@)]);
            array_view(records);
        }
        updated.push((String::from_str("variable"), Json::Array(records)));
    }
    assert(members_model(updated@) =~= with_variable(members_model(members@), key@, value@));
    updated
}

/// Sets the variable `key` of a collection to `value`.
pub fn inject_variable(document: Json, key: &str, value: &str) -> (edited: Result<
    Json,
    CollectionError,
>)
    ensures
        match edited {
            Ok(collection) => injected(document@, key@, value@) == Some(collection@),
            Err(error) => injected(document@, key@, value@) is None && error
                == CollectionError::NotAnObject,
        },
{
    match document {
        Json::Object(members) => {
            proof {
                object_view(members);
            }
            let updated = set_variable(members, key, value);
            proof {
                object_view(updated);
            }
            Ok(Json::Object(updated))
        },
        Json::Null => {
            let members: Vec<(String, Json)> = Vec::new();
            assert(members_model(members@) =~= Seq::<Field>::empty());
            let updated = set_variable(members, key, value);
            proof {
                object_view(updated);
            }
            Ok(Json::Object(updated))
        },
        _ => Err(CollectionError::NotAnObject),
    }
}

/// How the edit of a collection text ends.
pub ghost enum InjectionModel {
    Written(Seq<char>),
    Malformed,
    NotAnObject,
    Unwritable,
}

/// The collection text `content` with the variable `authToken` set to
/// `token`: the text is read, the variable is set, and the document is
/// written again.
pub open spec fn token_injection(content: Seq<char>, token: Seq<char>) -> InjectionModel {
    match parsed_text(content) {
        None => InjectionModel::Malformed,
        Some(document) => match injected(document, "authToken"@, token) {
            None => InjectionModel::NotAnObject,
            Some(edited) => match pretty_text(edited) {
                Some(text) => InjectionModel::Written(text),
                None => InjectionModel::Unwritable,
            },
        },
    }
}

/// How an edit ended, without the messages of its errors.
pub open spec fn injection_of(result: Result<String, CollectionError>) -> InjectionModel {
    match result {
        Ok(text) => InjectionModel::Written(text@),
        Err(CollectionError::Malformed(_)) => InjectionModel::Malformed,
        Err(CollectionError::NotAnObject) => InjectionModel::NotAnObject,
        Err(CollectionError::Unwritable(_)) => InjectionModel::Unwritable,
    }
}

/// Sets the variable `authToken` of the collection that `content` holds to
/// `token`, and gives the text of the edited collection. A text that holds no
/// collection is refused, so that no suite runs without the token.
pub fn inject_auth_token_into_collection(content: &str, token: &str) -> (edited: Result<
    String,
    CollectionError,
>)
    ensures
        injection_of(edited) == token_injection(content@, token@),
{
    match parse(content) {
        Err(error) => Err(CollectionError::Malformed(error)),
        Ok(document) => match inject_variable(document, "authToken", token) {
            Err(error) => Err(error),
            Ok(collection) => match to_pretty(&collection) {
                Ok(text) => Ok(text),
                Err(error) => Err(CollectionError::Unwritable(error)),
            },
        },
    }
}

} // verus!
