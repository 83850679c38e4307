//! Reading wire objects by the names of their entries.

use vstd::prelude::*;

use crate::json::{Json, JsonModel};

verus! {

/// The entry of an object under a name.
pub open spec fn entry(document: JsonModel, name: Seq<char>) -> Option<JsonModel> {
    match document {
        JsonModel::Object(entries) => if entries.dom().contains(name) {
            Some(entries[name])
        } else {
            None
        },
        _ => None,
    }
}

/// The entry of an object under a name where it is a text.
pub open spec fn word(document: JsonModel, name: Seq<char>) -> Option<Seq<char>> {
    match entry(document, name) {
        Some(JsonModel::Text(s)) => Some(s),
        _ => None,
    }
}

/// Whether a document is an object with entries under exactly these names.
pub open spec fn has_exactly(document: JsonModel, names: Set<Seq<char>>) -> bool {
    document matches JsonModel::Object(entries) && entries.dom() =~= names
}

/// Whether a document lays out fields by name, with whatever else beside them, or in order.
pub open spec fn lays_out(document: JsonModel, fields: Seq<(Seq<char>, JsonModel)>) -> bool {
    match document {
        JsonModel::Object(entries) => forall|i: int|
            0 <= i < fields.len() ==> entries.dom().contains((#[trigger] fields[i]).0)
                && entries[fields[i].0] == fields[i].1,
        JsonModel::Array(items) => items.len() == fields.len() && forall|i: int|
            0 <= i < fields.len() ==> items[i] == (#[trigger] fields[i]).1,
        _ => false,
    }
}

/// Whether extra entries set a name themselves.
pub open spec fn sets(extra: Option<Json>, name: Seq<char>) -> bool {
    extra matches Some(j) && entry(j@, name) is Some
}

} // verus!
