//! Records read out of JSON trees.
//!
//! A record is an object with its fields by name, or an array with its fields in order.

use vstd::prelude::*;

use crate::json::{self, Json, JsonModel};
use crate::text;

verus! {

/// Whether a value can be a record of so many fields. An object can be one of any number.
pub open spec fn is_record(record: JsonModel, size: int) -> bool {
    match record {
        JsonModel::Object(_) => true,
        JsonModel::Array(items) => items.len() == size,
        _ => false,
    }
}

/// Whether a value can be a record of which at least `least` and at most `most` fields are there
/// when they are in order.
pub open spec fn is_partial_record(record: JsonModel, least: int, most: int) -> bool {
    match record {
        JsonModel::Object(_) => true,
        JsonModel::Array(items) => least <= items.len() <= most,
        _ => false,
    }
}

/// The field of a record by its name and place.
pub open spec fn field(record: JsonModel, name: Seq<char>, place: int) -> Option<JsonModel> {
    match record {
        JsonModel::Object(entries) => if entries.dom().contains(name) {
            Some(entries[name])
        } else {
            None
        },
        JsonModel::Array(items) => if 0 <= place < items.len() {
            Some(items[place])
        } else {
            None
        },
        _ => None,
    }
}

/// The field of a record that is a text.
pub open spec fn text_field(record: JsonModel, name: Seq<char>, place: int) -> Option<Seq<char>> {
    match field(record, name, place) {
        Some(JsonModel::Text(s)) => Some(s),
        _ => None,
    }
}

/// The field of a record that is a text or null or not there; `None` for any other field.
pub open spec fn optional_text_field(
    record: JsonModel,
    name: Seq<char>,
    place: int,
) -> Option<Option<Seq<char>>> {
    match field(record, name, place) {
        None => Some(None),
        Some(JsonModel::Null) => Some(None),
        Some(JsonModel::Text(s)) => Some(Some(s)),
        _ => None,
    }
}

/// The field of a record that is a list.
pub open spec fn array_field(record: JsonModel, name: Seq<char>, place: int) -> Option<
    Seq<JsonModel>,
> {
    match field(record, name, place) {
        Some(JsonModel::Array(items)) => Some(items),
        _ => None,
    }
}

/// Whether a value is a number of 32 bits.
pub open spec fn is_number(document: JsonModel, n: u32) -> bool {
    document == JsonModel::Number(json::json_number(n as u64))
}

/// Whether a field is a number of 32 bits.
pub open spec fn has_number(record: JsonModel, name: Seq<char>, place: int, n: u32) -> bool {
    field(record, name, place) matches Some(value) && is_number(value, n)
}

/// Whether a field is a number of 32 bits, zero where it is not there.
pub open spec fn has_counter(record: JsonModel, name: Seq<char>, place: int, n: u32) -> bool {
    match field(record, name, place) {
        Some(value) => is_number(value, n),
        None => n == 0,
    }
}

/// Whether a field is a text, or null or not there.
pub open spec fn has_optional_text(
    record: JsonModel,
    name: Seq<char>,
    place: int,
    text: Option<String>,
) -> bool {
    optional_text_field(record, name, place) == Some(text::opt_text(text))
}

/// What a list holds where every item can be decoded.
pub open spec fn all_decoded<T>(
    items: Seq<JsonModel>,
    decoded: spec_fn(JsonModel) -> Option<T>,
) -> Option<Seq<T>> {
    if forall|i: int| 0 <= i < items.len() ==> decoded(#[trigger] items[i]) is Some {
        Some(items.map_values(|item: JsonModel| decoded(item)->0))
    } else {
        None
    }
}

/// Whether a value can be a record of so many fields.
pub fn is_record_of(record: &Json, size: usize) -> (r: bool)
    ensures
        r == is_record(record@, size as int),
{
    match record {
        Json::Object(_) => true,
        Json::Array(items) => {
            assert(record@->Array_0.len() == items@.len());
            items.len() == size
        },
        _ => false,
    }
}

/// Whether a value can be a record of so many fields, some of which may be left out.
pub fn is_partial_record_of(record: &Json, least: usize, most: usize) -> (r: bool)
    ensures
        r == is_partial_record(record@, least as int, most as int),
{
    match record {
        Json::Object(_) => true,
        Json::Array(items) => {
            assert(record@->Array_0.len() == items@.len());
            least <= items.len() && items.len() <= most
        },
        _ => false,
    }
}

/// Reads a number of 32 bits.
pub fn number_of(document: &Json) -> (r: Option<u32>)
    ensures
        forall|n: u32| #[trigger] is_number(document@, n) <==> r == Some(n),
{
    match document.as_unsigned() {
        Some(k) => {
            if k <= 0xffff_ffff {
                assert forall|n: u32| #[trigger] is_number(document@, n) <==> k as u32 == n by {
                    assert(document@ == JsonModel::Number(json::json_number(n as u64)) <==> k
                        == n as u64);
                }
                Some(k as u32)
            } else {
                None
            }
        },
        None => None,
    }
}

/// Looks a number up by name or place.
pub fn number_field_of(record: &Json, name: &str, place: usize) -> (r: Option<u32>)
    ensures
        forall|n: u32| #[trigger] has_number(record@, name@, place as int, n) <==> r == Some(n),
{
    match field_of(record, name, place) {
        Some(value) => {
            let r = number_of(value);
            assert forall|n: u32| #[trigger] has_number(record@, name@, place as int, n) <==> r
                == Some(n) by {
                assert(is_number(value@, n) <==> r == Some(n));
            }
            r
        },
        None => None,
    }
}

/// Looks a number up that may be missing.
pub fn counter_of(record: &Json, name: &str, place: usize) -> (r: Option<u32>)
    ensures
        forall|n: u32| #[trigger] has_counter(record@, name@, place as int, n) <==> r == Some(n),
{
    match field_of(record, name, place) {
        Some(value) => {
            let r = number_of(value);
            assert forall|n: u32| #[trigger] has_counter(record@, name@, place as int, n) <==> r
                == Some(n) by {
                assert(is_number(value@, n) <==> r == Some(n));
            }
            r
        },
        None => Some(0),
    }
}

/// Looks a field up by name or place.
pub fn field_of<'a>(record: &'a Json, name: &str, place: usize) -> (r: Option<&'a Json>)
    ensures
        field(record@, name@, place as int) == (match r {
            Some(value) => Some(value@),
            None => None,
        }),
{
    match record {
        Json::Object(_) => record.get(name),
        Json::Array(items) => {
            assert(record@->Array_0 =~= json::models(items@));
            if place < items.len() {
                Some(&items[place])
            } else {
                None
            }
        },
        _ => None,
    }
}

/// Looks a text up by name or place.
pub fn text_field_of<'a>(record: &'a Json, name: &str, place: usize) -> (r: Option<&'a String>)
    ensures
        text_field(record@, name@, place as int) == (match r {
            Some(s) => Some(s@),
            None => None,
        }),
{
    match field_of(record, name, place) {
        Some(Json::Text(s)) => Some(s),
        _ => None,
    }
}

/// Looks a text up that may be null or missing.
pub fn optional_text_field_of(record: &Json, name: &str, place: usize) -> (r: Option<
    Option<String>,
>)
    ensures
        optional_text_field(record@, name@, place as int) == (match r {
            Some(Some(s)) => Some(Some(s@)),
            Some(None) => Some(None),
            None => None,
        }),
{
    match field_of(record, name, place) {
        None => Some(None),
        Some(Json::Null) => Some(None),
        Some(Json::Text(s)) => Some(Some(s.clone())),
        _ => None,
    }
}

/// Looks a list up by name or place.
pub fn array_field_of<'a>(record: &'a Json, name: &str, place: usize) -> (r: Option<&'a Vec<Json>>)
    ensures
        array_field(record@, name@, place as int) == (match r {
            Some(items) => Some(json::models(items@)),
            None => None,
        }),
{
    match field_of(record, name, place) {
        Some(value) => value.as_array(),
        None => None,
    }
}

/// Looks a text up that may be null or missing.
pub fn read_optional_text(record: &Json, name: &str, place: usize) -> (r: Option<Option<String>>)
    ensures
        r matches Some(text) ==> has_optional_text(record@, name@, place as int, text),
        r is None ==> forall|text: Option<String>|
            !has_optional_text(record@, name@, place as int, text),
{
    optional_text_field_of(record, name, place)
}

} // verus!
