//! The JSON that the API speaks. Reading and escaping are the work of the
//! `serde_json` crate; which fields an entity is made of, and which values
//! they may hold, is decided by the modules that use this one.
//!
//! An object comes in as a list of fields, each a name and a [`JsonValue`].
//! A list of identifiers comes in as a list of numbers or of strings. On the
//! way out a text becomes a string literal.

use vstd::prelude::*;
use vstd::string::*;

use crate::decimal::{parse_i32, parse_u64, spec_parse_i32, spec_parse_u64};
use crate::error::{OvhError, OvhErrorView};
use crate::text::str_eq;

verus! {

/// The error type of the `serde_json` crate, carried as it is.
#[verifier::external_type_specification]
#[verifier::external_body]
pub struct ExJsonError(serde_json::Error);

/// A JSON value, as far as the library looks into it: a scalar with what it
/// holds, a number by its text, an array or an object by its kind alone.
#[derive(Debug, PartialEq, Eq)]
pub enum JsonValue {
    Null,
    Bool(bool),
    /// A number, written as `serde_json` prints it.
    Number(String),
    Text(String),
    Array,
    Object,
}

/// A [`JsonValue`] with its texts as character sequences.
pub enum JsonValueView {
    Null,
    Bool(bool),
    Number(Seq<char>),
    Text(Seq<char>),
    Array,
    Object,
}

impl View for JsonValue {
    type V = JsonValueView;

    open spec fn view(&self) -> JsonValueView {
        match self {
            JsonValue::Null => JsonValueView::Null,
            JsonValue::Bool(b) => JsonValueView::Bool(*b),
            JsonValue::Number(text) => JsonValueView::Number(text@),
            JsonValue::Text(text) => JsonValueView::Text(text@),
            JsonValue::Array => JsonValueView::Array,
            JsonValue::Object => JsonValueView::Object,
        }
    }
}

/// The fields of a JSON object as mathematical values, in the list's order.
pub open spec fn field_views(fields: Seq<(String, JsonValue)>) -> Seq<(Seq<char>, JsonValueView)> {
    fields.map_values(|f: (String, JsonValue)| (f.0@, f.1@))
}

/// The fields of the JSON object that a text reads as with `serde_json`,
/// each name once; `None` for a text that `serde_json` does not read as an
/// object.
pub uninterp spec fn json_object(text: Seq<char>) -> Option<Seq<(Seq<char>, JsonValueView)>>;

/// The JSON string literal for a text, quotes included, as `serde_json`
/// writes it.
pub uninterp spec fn json_string(text: Seq<char>) -> Seq<char>;

/// The values of the JSON array that a text reads as with `serde_json`,
/// in their order; `None` for a text that is no array.
pub uninterp spec fn json_array(text: Seq<char>) -> Option<Seq<JsonValueView>>;

/// The texts of a list of strings, in the list's order.
pub open spec fn string_views(list: Seq<String>) -> Seq<Seq<char>> {
    list.map_values(|s: String| s@)
}

/// A list of JSON values as mathematical values, in the list's order.
pub open spec fn value_views(values: Seq<JsonValue>) -> Seq<JsonValueView> {
    values.map_values(|v: JsonValue| v@)
}

/// Writes a text as a JSON string literal: `serde_json::to_string` on a
/// `str`. Trusted: that the literal depends on the text alone, and that
/// there is one for every text: the encoder writes a `str` into a vector of
/// bytes, which takes whatever is written to it.
#[verifier::external_body]
fn to_json_string(text: &str) -> (r: Result<String, serde_json::Error>)
    ensures
        r is Ok,
        r->Ok_0@ == json_string(text@),
{
    serde_json::to_string(text)
}

/// Reads a JSON text as an array: `serde_json::from_str` for a `Vec` of
/// `serde_json::Value`, each value then handed out by its variant and a
/// number through its `Display`. Trusted: that the outcome depends on the
/// text alone.
#[verifier::external_body]
fn array_from_json(text: &str) -> (r: Result<Vec<JsonValue>, serde_json::Error>)
    ensures
        match r {
            Ok(values) => json_array(text@) == Some(value_views(values@)),
            Err(_) => json_array(text@) is None,
        },
{
    let array = serde_json::from_str::<Vec<serde_json::Value>>(text)?;
    let mut values = Vec::new();
    for value in array {
        values.push(match value {
            serde_json::Value::Null => JsonValue::Null,
            serde_json::Value::Bool(b) => JsonValue::Bool(b),
            serde_json::Value::Number(n) => JsonValue::Number(n.to_string()),
            serde_json::Value::String(s) => JsonValue::Text(s),
            serde_json::Value::Array(_) => JsonValue::Array,
            serde_json::Value::Object(_) => JsonValue::Object,
        });
    }
    Ok(values)
}

/// Reads a JSON text as an object: `serde_json::from_str` for a
/// `serde_json::Map`, whose entries are then handed out one by one, each
/// value by its variant and a number through its `Display`. Trusted: that
/// the outcome depends on the text alone.
#[verifier::external_body]
fn object_from_json(text: &str) -> (r: Result<Vec<(String, JsonValue)>, serde_json::Error>)
    ensures
        match r {
            Ok(fields) => json_object(text@) == Some(field_views(fields@)),
            Err(_) => json_object(text@) is None,
        },
{
    let object = serde_json::from_str::<serde_json::Map<String, serde_json::Value>>(text)?;
    let mut fields = Vec::new();
    for (name, value) in object {
        let value = match value {
            serde_json::Value::Null => JsonValue::Null,
            serde_json::Value::Bool(b) => JsonValue::Bool(b),
            serde_json::Value::Number(n) => JsonValue::Number(n.to_string()),
            serde_json::Value::String(s) => JsonValue::Text(s),
            serde_json::Value::Array(_) => JsonValue::Array,
            serde_json::Value::Object(_) => JsonValue::Object,
        };
        fields.push((name, value));
    }
    Ok(fields)
}

/// A text as a JSON string literal, quotes included. There is one for
/// every text: the error of the encoder's result type never comes.
pub fn quote(text: &str) -> (r: Result<String, OvhError>)
    ensures
        r is Ok,
        r->Ok_0@ == json_string(text@),
{
    match to_json_string(text) {
        Ok(literal) => Ok(literal),
        Err(_) => Err(OvhError::SerializationError),
    }
}

/// The values of the array in a JSON text.
///
/// Fails with `ParseError`, and only then, when the text is no array.
pub fn parse_array(text: &str) -> (r: Result<Vec<JsonValue>, OvhError>)
    ensures
        match r {
            Ok(values) => json_array(text@) == Some(value_views(values@)),
            Err(e) => json_array(text@) is None && e@ == OvhErrorView::ParseError,
        },
{
    match array_from_json(text) {
        Ok(values) => Ok(values),
        Err(_) => Err(OvhError::ParseError),
    }
}

/// The numbers that a list of values holds, where each is a whole number
/// of 64 bits without a sign; `None` where one is not.
pub open spec fn spec_u64_list(values: Seq<JsonValueView>) -> Option<Seq<u64>> {
    if forall|i: int| 0 <= i < values.len() ==> required_u64(Some(#[trigger] values[i])) is Some {
        Some(Seq::new(values.len(), |i: int| required_u64(Some(values[i]))->0))
    } else {
        None
    }
}

/// The texts that a list of values holds, where each is a string; `None`
/// where one is not.
pub open spec fn spec_text_list(values: Seq<JsonValueView>) -> Option<Seq<Seq<char>>> {
    if forall|i: int| 0 <= i < values.len() ==> required_text(Some(#[trigger] values[i])) is Some {
        Some(Seq::new(values.len(), |i: int| required_text(Some(values[i]))->0))
    } else {
        None
    }
}

/// The list of numbers that a JSON text holds; `None` for a text that is
/// no array, or whose array holds anything but such numbers.
pub open spec fn spec_parse_u64_list(text: Seq<char>) -> Option<Seq<u64>> {
    match json_array(text) {
        None => None,
        Some(values) => spec_u64_list(values),
    }
}

/// The list of strings that a JSON text holds; `None` for a text that is
/// no array, or whose array holds anything but strings.
pub open spec fn spec_parse_text_list(text: Seq<char>) -> Option<Seq<Seq<char>>> {
    match json_array(text) {
        None => None,
        Some(values) => spec_text_list(values),
    }
}

/// Reads a list of values as numbers of 64 bits without a sign.
pub fn u64_list(values: &Vec<JsonValue>) -> (list: Option<Vec<u64>>)
    ensures
        match list {
            Some(list) => spec_u64_list(value_views(values@)) == Some(list@),
            None => spec_u64_list(value_views(values@)) is None,
        },
{
    let ghost all = value_views(values@);
    let mut list: Vec<u64> = Vec::new();
    let mut i: usize = 0;
    while i < values.len()
        invariant
            i <= values@.len(),
            all == value_views(values@),
            list@.len() == i,
            forall|j: int| 0 <= j < i ==> required_u64(Some(#[trigger] all[j])) == Some(list@[j]),
        decreases values@.len() - i,
    {
        assert(all[i as int] == values@[i as int]@);
        let number = match &values[i] {
            JsonValue::Number(text) => parse_u64(text.as_str()),
            _ => None,
        };
        match number {
            Some(number) => {
                list.push(number);
            },
            None => {
                assert(required_u64(Some(all[i as int])) is None);
                return None;
            },
        }
        i += 1;
    }
    assert(list@ =~= Seq::new(all.len(), |i: int| required_u64(Some(all[i]))->0));
    Some(list)
}

/// Reads a list of values as strings.
pub fn text_list(values: &Vec<JsonValue>) -> (list: Option<Vec<String>>)
    ensures
        match list {
            Some(list) => spec_text_list(value_views(values@)) == Some(string_views(list@)),
            None => spec_text_list(value_views(values@)) is None,
        },
{
    let ghost all = value_views(values@);
    let mut list: Vec<String> = Vec::new();
    let mut i: usize = 0;
    while i < values.len()
        invariant
            i <= values@.len(),
            all == value_views(values@),
            list@.len() == i,
            forall|j: int| 0 <= j < i ==> required_text(Some(#[trigger] all[j])) == Some(list@[j]@),
        decreases values@.len() - i,
    {
        assert(all[i as int] == values@[i as int]@);
        match &values[i] {
            JsonValue::Text(text) => {
                list.push(text.clone());
            },
            _ => {
                assert(required_text(Some(all[i as int])) is None);
                return None;
            },
        }
        i += 1;
    }
    assert(string_views(list@) =~= Seq::new(all.len(), |i: int| required_text(Some(all[i]))->0));
    Some(list)
}

/// The list of numbers in a JSON text.
///
/// Fails with `ParseError`, and only then, when the text is no array of
/// whole numbers of 64 bits without a sign.
pub fn parse_u64_list(text: &str) -> (r: Result<Vec<u64>, OvhError>)
    ensures
        match r {
            Ok(list) => spec_parse_u64_list(text@) == Some(list@),
            Err(e) => spec_parse_u64_list(text@) is None && e@ == OvhErrorView::ParseError,
        },
{
    match parse_array(text) {
        Err(e) => Err(e),
        Ok(values) => match u64_list(&values) {
            Some(list) => Ok(list),
            None => Err(OvhError::ParseError),
        },
    }
}

/// The list of strings in a JSON text.
///
/// Fails with `ParseError`, and only then, when the text is no array of
/// strings.
pub fn parse_string_list(text: &str) -> (r: Result<Vec<String>, OvhError>)
    ensures
        match r {
            Ok(list) => spec_parse_text_list(text@) == Some(string_views(list@)),
            Err(e) => spec_parse_text_list(text@) is None && e@ == OvhErrorView::ParseError,
        },
{
    match parse_array(text) {
        Err(e) => Err(e),
        Ok(values) => match text_list(&values) {
            Some(list) => Ok(list),
            None => Err(OvhError::ParseError),
        },
    }
}

/// The fields of the object in a JSON text.
///
/// Fails with `ParseError`, and only then, when the text is no object.
pub fn parse_object(text: &str) -> (r: Result<Vec<(String, JsonValue)>, OvhError>)
    ensures
        match r {
            Ok(fields) => json_object(text@) == Some(field_views(fields@)),
            Err(e) => json_object(text@) is None && e@ == OvhErrorView::ParseError,
        },
{
    match object_from_json(text) {
        Ok(fields) => Ok(fields),
        Err(_) => Err(OvhError::ParseError),
    }
}

/// The value of the first field of a name; `None` where no field has it.
pub open spec fn spec_lookup(fields: Seq<(Seq<char>, JsonValueView)>, name: Seq<char>) -> Option<
    JsonValueView,
>
    decreases fields.len(),
{
    if fields.len() == 0 {
        None
    } else if fields[0].0 == name {
        Some(fields[0].1)
    } else {
        spec_lookup(fields.drop_first(), name)
    }
}

/// A text that has to be there: the content of a string.
pub open spec fn required_text(value: Option<JsonValueView>) -> Option<Seq<char>> {
    match value {
        Some(JsonValueView::Text(text)) => Some(text),
        _ => None,
    }
}

/// A text that may be absent: nothing for a field that is missing or
/// `null`, the content of a string, and no reading (the outer `None`) for
/// any other value.
pub open spec fn optional_text(value: Option<JsonValueView>) -> Option<Option<Seq<char>>> {
    match value {
        None => Some(None),
        Some(JsonValueView::Null) => Some(None),
        Some(JsonValueView::Text(text)) => Some(Some(text)),
        _ => None,
    }
}

/// A number that has to be there and to fit in 64 bits without a sign.
pub open spec fn required_u64(value: Option<JsonValueView>) -> Option<u64> {
    match value {
        Some(JsonValueView::Number(text)) => spec_parse_u64(text),
        _ => None,
    }
}

/// A number of 32 bits that may be absent: nothing for a field that is
/// missing or `null`, the number where it is a whole one in range, and no
/// reading (the outer `None`) for any other value.
pub open spec fn optional_i32(value: Option<JsonValueView>) -> Option<Option<i32>> {
    match value {
        None => Some(None),
        Some(JsonValueView::Null) => Some(None),
        Some(JsonValueView::Number(text)) => match spec_parse_i32(text) {
            Some(number) => Some(Some(number)),
            None => None,
        },
        _ => None,
    }
}

/// A value that may be absent, as a mathematical value.
pub open spec fn value_view(value: Option<&JsonValue>) -> Option<JsonValueView> {
    match value {
        Some(value) => Some(value@),
        None => None,
    }
}

/// Finds the first field of a name.
pub fn lookup<'a>(fields: &'a Vec<(String, JsonValue)>, name: &str) -> (value: Option<&'a JsonValue>)
    ensures
        value_view(value) == spec_lookup(field_views(fields@), name@),
{
    let ghost all = field_views(fields@);
    assert(all.subrange(0, all.len() as int) =~= all);
    let mut i: usize = 0;
    while i < fields.len()
        invariant
            i <= fields@.len(),
            all == field_views(fields@),
            spec_lookup(all, name@) == spec_lookup(all.subrange(i as int, all.len() as int), name@),
        decreases fields@.len() - i,
    {
        let ghost rest = all.subrange(i as int, all.len() as int);
        assert(rest[0] == all[i as int]);
        assert(all[i as int] == (fields@[i as int].0@, fields@[i as int].1@));
        if str_eq(fields[i].0.as_str(), name) {
            return Some(&fields[i].1);
        }
        assert(rest.drop_first() =~= all.subrange(i + 1, all.len() as int));
        i += 1;
    }
    assert(all.subrange(i as int, all.len() as int).len() == 0);
    None
}

/// Reads a text that has to be there.
pub fn get_text(fields: &Vec<(String, JsonValue)>, name: &str) -> (text: Option<String>)
    ensures
        match text {
            Some(text) => required_text(spec_lookup(field_views(fields@), name@)) == Some(text@),
            None => required_text(spec_lookup(field_views(fields@), name@)) is None,
        },
{
    match lookup(fields, name) {
        Some(JsonValue::Text(text)) => Some(text.clone()),
        _ => None,
    }
}

/// Reads a text that may be absent; the outer `None` is for a value that
/// is neither a string nor `null`.
pub fn get_optional_text(fields: &Vec<(String, JsonValue)>, name: &str) -> (text: Option<
    Option<String>,
>)
    ensures
        match text {
            Some(Some(text)) => optional_text(spec_lookup(field_views(fields@), name@)) == Some(
                Some(text@),
            ),
            Some(None) => optional_text(spec_lookup(field_views(fields@), name@)) == Some(
                None::<Seq<char>>,
            ),
            None => optional_text(spec_lookup(field_views(fields@), name@)) is None,
        },
{
    match lookup(fields, name) {
        None => Some(None),
        Some(JsonValue::Null) => Some(None),
        Some(JsonValue::Text(text)) => Some(Some(text.clone())),
        Some(_) => None,
    }
}

/// Reads a number that has to be there and to fit in 64 bits without a
/// sign.
pub fn get_u64(fields: &Vec<(String, JsonValue)>, name: &str) -> (number: Option<u64>)
    ensures
        number == required_u64(spec_lookup(field_views(fields@), name@)),
{
    match lookup(fields, name) {
        Some(JsonValue::Number(text)) => parse_u64(text.as_str()),
        _ => None,
    }
}

/// Reads a number of 32 bits that may be absent; the outer `None` is for
/// a value that is neither such a number nor `null`.
pub fn get_optional_i32(fields: &Vec<(String, JsonValue)>, name: &str) -> (number: Option<
    Option<i32>,
>)
    ensures
        number == optional_i32(spec_lookup(field_views(fields@), name@)),
{
    match lookup(fields, name) {
        None => Some(None),
        Some(JsonValue::Null) => Some(None),
        Some(JsonValue::Number(text)) => match parse_i32(text.as_str()) {
            Some(number) => Some(Some(number)),
            None => None,
        },
        Some(_) => None,
    }
}

} // verus!
