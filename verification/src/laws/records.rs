//! Records in documents: objects by name, arrays by place.

use vstd::prelude::*;

use super::wire;
use crate::json::{self, JsonModel};
use crate::record;

verus! {

/// A field of an object is found by its name alone and a field of an array by its place alone;
/// nothing else has fields.
pub proof fn fields_are_found(
    document: JsonModel,
    name: Seq<char>,
    place: int,
    other_name: Seq<char>,
    other_place: int,
)
    ensures
        document is Object ==> record::field(document, name, place) == wire::entry(document, name)
            && record::field(document, name, place) == record::field(document, name, other_place),
        document is Array ==> record::field(document, name, place) == record::field(
            document,
            other_name,
            place,
        ),
        document matches JsonModel::Array(items) ==> {
            &&& 0 <= place < items.len() ==> record::field(document, name, place) == Some(
                items[place],
            )
            &&& place < 0 || items.len() <= place ==> record::field(document, name, place) is None
        },
        !(document is Object) && !(document is Array) ==> record::field(document, name, place)
            is None,
{
}

/// An object can be a record of any size, an array only of its own or, with fields left out at the
/// end, of one in between; nothing else is a record.
pub proof fn records_have_their_size(document: JsonModel, size: int, least: int, most: int)
    ensures
        document is Object ==> record::is_record(document, size) && record::is_partial_record(
            document,
            least,
            most,
        ),
        document matches JsonModel::Array(items) ==> (record::is_record(document, size)
            <==> items.len() == size) && (record::is_partial_record(document, least, most) <==> least
            <= items.len() <= most),
        !(document is Object) && !(document is Array) ==> !record::is_record(document, size)
            && !record::is_partial_record(document, least, most),
{
}

/// A text that may be missing is none where it is missing or null, itself where it is a text, and
/// refused where it is anything else. A text that may not be missing is only ever itself.
pub proof fn texts_are_read(document: JsonModel, name: Seq<char>, place: int)
    ensures
        match record::field(document, name, place) {
            None => record::optional_text_field(document, name, place) == Some(
                None::<Seq<char>>,
            ) && record::text_field(document, name, place) is None,
            Some(JsonModel::Null) => record::optional_text_field(document, name, place) == Some(
                None::<Seq<char>>,
            ) && record::text_field(document, name, place) is None,
            Some(JsonModel::Text(t)) => record::optional_text_field(document, name, place) == Some(
                Some(t),
            ) && record::text_field(document, name, place) == Some(t),
            Some(_) => record::optional_text_field(document, name, place) is None
                && record::text_field(document, name, place) is None,
        },
{
}

/// A number that may be missing is zero where it is missing, itself where it is one, and refused
/// where it is anything else, null included. A number that may not be missing must be there.
pub proof fn numbers_are_read(document: JsonModel, name: Seq<char>, place: int, n: u32)
    ensures
        match record::field(document, name, place) {
            None => (record::has_counter(document, name, place, n) <==> n == 0)
                && !record::has_number(document, name, place, n),
            Some(JsonModel::Number(k)) => (record::has_counter(document, name, place, n) <==> k
                == json::json_number(n as u64)) && (record::has_number(document, name, place, n)
                <==> k == json::json_number(n as u64)),
            Some(_) => !record::has_counter(document, name, place, n) && !record::has_number(
                document,
                name,
                place,
                n,
            ),
        },
{
}

/// A list is decoded where every item of it is, item by item and in order.
pub proof fn lists_are_decoded<T>(
    items: Seq<JsonModel>,
    decoded: spec_fn(JsonModel) -> Option<T>,
    i: int,
)
    ensures
        record::all_decoded(items, decoded) is Some <==> forall|k: int|
            0 <= k < items.len() ==> decoded(#[trigger] items[k]) is Some,
        record::all_decoded(items, decoded) matches Some(list) ==> {
            &&& list.len() == items.len()
            &&& 0 <= i < items.len() ==> decoded(items[i]) == Some(list[i])
        },
{
    if record::all_decoded(items, decoded) is Some && 0 <= i < items.len() {
        assert(decoded(items[i]) is Some);
    }
}

} // verus!
