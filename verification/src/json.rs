//! The JSON document model.
//!
//! A configuration document is held as a `serde_json::Value`. The verifier
//! cannot look inside such a value, so its contents are named by
//! `json_view`, which gives the document as a `JsonView`: a tree of plain
//! values. The contracts of the accessors say what each of them returns in
//! terms of that tree, and every contract that reads a document is stated
//! over it.

use vstd::prelude::*;

use crate::error::{ConfigField, LoadError};

verus! {

/// A JSON document as a mathematical value.
pub enum JsonView {
    Null,
    Bool(bool),
    /// A number that the document holds as an unsigned 64-bit integer.
    Unsigned(u64),
    /// Any other number, such as a negative or a fractional one.
    OtherNumber,
    Text(Seq<char>),
    Array(Seq<JsonView>),
    Object(Map<Seq<char>, JsonView>),
}

impl JsonView {
    /// The member under `key`, where this is an object that has one.
    pub open spec fn member(self, key: Seq<char>) -> Option<JsonView> {
        match self {
            JsonView::Object(members) => if members.dom().contains(key) {
                Some(members[key])
            } else {
                None
            },
            _ => None,
        }
    }

    /// The characters, where this is a string.
    pub open spec fn text(self) -> Option<Seq<char>> {
        match self {
            JsonView::Text(characters) => Some(characters),
            _ => None,
        }
    }

    /// The elements, where this is an array.
    pub open spec fn items(self) -> Option<Seq<JsonView>> {
        match self {
            JsonView::Array(elements) => Some(elements),
            _ => None,
        }
    }

    /// The number, where this is an unsigned 64-bit integer.
    pub open spec fn unsigned(self) -> Option<u64> {
        match self {
            JsonView::Unsigned(number) => Some(number),
            _ => None,
        }
    }
}

/// `serde_json::Value`, carried through verified code as an opaque value.
#[verifier::external_type_specification]
#[verifier::external_body]
pub struct ExValue(serde_json::Value);

/// `serde_json::Error`, carried through verified code as an opaque value.
#[verifier::external_type_specification]
#[verifier::external_body]
pub struct ExError(serde_json::Error);

/// The document that a `serde_json::Value` holds.
pub uninterp spec fn json_view(value: serde_json::Value) -> JsonView;

/// The document that `serde_json::from_reader` reads from `bytes`, or `None`
/// when it rejects them.
pub uninterp spec fn json_parsed(bytes: Seq<u8>) -> Option<JsonView>;

/// The documents that a list of values holds.
pub open spec fn json_views(values: Seq<serde_json::Value>) -> Seq<JsonView> {
    values.map_values(|value: serde_json::Value| json_view(value))
}

/// Calls `serde_json::from_reader` on an in-memory reader over `bytes`.
///
/// Trusted: parsing is a function of the bytes alone. The value that comes
/// back holds the document that `json_parsed` names, and an error comes back
/// exactly when `json_parsed` names none.
#[verifier::external_body]
pub(crate) fn read_document(bytes: &[u8]) -> (parsed: Result<serde_json::Value, serde_json::Error>)
    ensures
        match parsed {
            Ok(value) => json_parsed(bytes@) == Some(json_view(value)),
            Err(_) => json_parsed(bytes@) is None,
        },
{
    serde_json::from_reader(bytes)
}

/// Calls `serde_json::Value::get` with a string index.
///
/// Trusted: the call returns the member under `key` where the value is an
/// object that has that key, and `None` for every other value and for an
/// object without it.
#[verifier::external_body]
pub(crate) fn member<'a>(value: &'a serde_json::Value, key: &str) -> (found: Option<
    &'a serde_json::Value,
>)
    ensures
        match found {
            Some(inner) => json_view(*value).member(key@) == Some(json_view(*inner)),
            None => json_view(*value).member(key@) is None,
        },
{
    value.get(key)
}

/// `serde_json::Value::as_str` returns the characters of a string, and `None`
/// for every other value.
pub assume_specification<'a>[ serde_json::Value::as_str ](value: &'a serde_json::Value) -> (text:
    Option<&'a str>)
    ensures
        match text {
            Some(characters) => json_view(*value).text() == Some(characters@),
            None => json_view(*value).text() is None,
        },
;

/// `serde_json::Value::as_array` returns the elements of an array, and `None`
/// for every other value.
pub assume_specification<'a>[ serde_json::Value::as_array ](
    value: &'a serde_json::Value,
) -> (items: Option<&'a Vec<serde_json::Value>>)
    ensures
        match items {
            Some(elements) => json_view(*value).items() == Some(json_views(elements@)),
            None => json_view(*value).items() is None,
        },
;

/// `serde_json::Value::as_u64` returns a number that the value holds as an
/// unsigned 64-bit integer, and `None` for every other value.
pub assume_specification[ serde_json::Value::as_u64 ](value: &serde_json::Value) -> (number:
    Option<u64>)
    ensures
        number == json_view(*value).unsigned(),
;

/// The string under `key`, which the document must hold.
pub open spec fn member_text(document: JsonView, key: Seq<char>, field: ConfigField) -> Result<
    Seq<char>,
    LoadError,
> {
    match document.member(key) {
        None => Err(LoadError::MissingField(field)),
        Some(inner) => match inner.text() {
            None => Err(LoadError::WrongType(field)),
            Some(characters) => Ok(characters),
        },
    }
}

/// The unsigned number under `key`, which the document must hold.
pub open spec fn member_unsigned(document: JsonView, key: Seq<char>, field: ConfigField) -> Result<
    u64,
    LoadError,
> {
    match document.member(key) {
        None => Err(LoadError::MissingField(field)),
        Some(inner) => match inner.unsigned() {
            None => Err(LoadError::WrongType(field)),
            Some(number) => Ok(number),
        },
    }
}

/// The elements of the array under `key`, which the document must hold.
pub open spec fn member_items(document: JsonView, key: Seq<char>, field: ConfigField) -> Result<
    Seq<JsonView>,
    LoadError,
> {
    match document.member(key) {
        None => Err(LoadError::MissingField(field)),
        Some(inner) => match inner.items() {
            None => Err(LoadError::WrongType(field)),
            Some(elements) => Ok(elements),
        },
    }
}

/// The elements of the array under `key`, which the document may leave out.
pub open spec fn optional_items(document: JsonView, key: Seq<char>, field: ConfigField) -> Result<
    Option<Seq<JsonView>>,
    LoadError,
> {
    match document.member(key) {
        None => Ok(None),
        Some(inner) => match inner.items() {
            None => Err(LoadError::WrongType(field)),
            Some(elements) => Ok(Some(elements)),
        },
    }
}

/// Reads the string under `key`.
pub(crate) fn text_member<'a>(value: &'a serde_json::Value, key: &str, field: ConfigField) -> (text:
    Result<&'a str, LoadError>)
    ensures
        match text {
            Ok(found) => member_text(json_view(*value), key@, field) == Ok::<Seq<char>, LoadError>(
                found@,
            ),
            Err(error) => member_text(json_view(*value), key@, field) == Err::<
                Seq<char>,
                LoadError,
            >(error),
        },
{
    match member(value, key) {
        None => Err(LoadError::MissingField(field)),
        Some(inner) => match inner.as_str() {
            None => Err(LoadError::WrongType(field)),
            Some(found) => Ok(found),
        },
    }
}

/// Reads the unsigned number under `key`.
pub(crate) fn unsigned_member(value: &serde_json::Value, key: &str, field: ConfigField) -> (number:
    Result<u64, LoadError>)
    ensures
        number == member_unsigned(json_view(*value), key@, field),
{
    match member(value, key) {
        None => Err(LoadError::MissingField(field)),
        Some(inner) => match inner.as_u64() {
            None => Err(LoadError::WrongType(field)),
            Some(found) => Ok(found),
        },
    }
}

/// Reads the array under `key`.
pub(crate) fn items_member<'a>(
    value: &'a serde_json::Value,
    key: &str,
    field: ConfigField,
) -> (items: Result<&'a Vec<serde_json::Value>, LoadError>)
    ensures
        match items {
            Ok(found) => member_items(json_view(*value), key@, field) == Ok::<
                Seq<JsonView>,
                LoadError,
            >(json_views(found@)),
            Err(error) => member_items(json_view(*value), key@, field) == Err::<
                Seq<JsonView>,
                LoadError,
            >(error),
        },
{
    match member(value, key) {
        None => Err(LoadError::MissingField(field)),
        Some(inner) => match inner.as_array() {
            None => Err(LoadError::WrongType(field)),
            Some(found) => Ok(found),
        },
    }
}

/// Reads the array under `key`, if the document holds that key.
pub(crate) fn optional_items_member<'a>(
    value: &'a serde_json::Value,
    key: &str,
    field: ConfigField,
) -> (items: Result<Option<&'a Vec<serde_json::Value>>, LoadError>)
    ensures
        match items {
            Ok(Some(found)) => optional_items(json_view(*value), key@, field) == Ok::<
                Option<Seq<JsonView>>,
                LoadError,
            >(Some(json_views(found@))),
            Ok(None) => optional_items(json_view(*value), key@, field) == Ok::<
                Option<Seq<JsonView>>,
                LoadError,
            >(None),
            Err(error) => optional_items(json_view(*value), key@, field) == Err::<
                Option<Seq<JsonView>>,
                LoadError,
            >(error),
        },
{
    match member(value, key) {
        None => Ok(None),
        Some(inner) => match inner.as_array() {
            None => Err(LoadError::WrongType(field)),
            Some(found) => Ok(Some(found)),
        },
    }
}

} // verus!
