//! JSON values: the tree the library works on and its mathematical model.

use vstd::prelude::*;

use crate::text::same_text;

verus! {

/// `serde_json::Value`, a parsed JSON document.
#[verifier::external_type_specification]
#[verifier::external_body]
pub struct ExValue(serde_json::Value);

/// `serde_json::Number`, carried through unread.
#[verifier::external_type_specification]
#[verifier::external_body]
pub struct ExNumber(serde_json::Number);

/// A JSON value.
#[derive(Debug)]
pub enum Json {
    Null,
    Bool(bool),
    Number(serde_json::Number),
    Text(String),
    Array(Vec<Json>),
    Object(Vec<(String, Json)>),
}

/// What a [`Json`] value means: an object is a finite map.
pub enum JsonModel {
    Null,
    Bool(bool),
    Number(serde_json::Number),
    Text(Seq<char>),
    Array(Seq<JsonModel>),
    Object(Map<Seq<char>, JsonModel>),
}

impl View for Json {
    type V = JsonModel;

    open spec fn view(&self) -> JsonModel
    {
        model(*self)
    }
}

/// What a value says.
pub open spec fn model(j: Json) -> JsonModel
    decreases j,
{
    match j {
        Json::Null => JsonModel::Null,
        Json::Bool(b) => JsonModel::Bool(b),
        Json::Number(n) => JsonModel::Number(n),
        Json::Text(s) => JsonModel::Text(s@),
        Json::Array(items) => JsonModel::Array(
            Seq::new(items@.len(), |i: int| if 0 <= i < items@.len() { model(items@[i]) } else { JsonModel::Null })),
        Json::Object(entries) => JsonModel::Object(entries_model(entries@)),
    }
}

/// What a list of values says.
pub open spec fn models(items: Seq<Json>) -> Seq<JsonModel> {
    items.map_values(|j: Json| model(j))
}

/// What the entries of an object say: of entries with one key the last counts.
pub open spec fn entries_model(entries: Seq<(String, Json)>) -> Map<Seq<char>, JsonModel>
    decreases entries,
{
    if entries.len() == 0 {
        Map::empty()
    } else {
        entries_model(entries.drop_last()).insert(entries.last().0@, model(entries.last().1))
    }
}

/// `serde_json::Number` derives `Clone`: the copy is the same number.
pub assume_specification [<serde_json::Number as Clone>::clone] (n: &serde_json::Number) -> (r: serde_json::Number)
    ensures
        r == *n,
;

impl Clone for Json {
    fn clone(&self) -> (r: Self)
        ensures
            r@ == self@,
        decreases self,
    {
        match self {
            Json::Null => Json::Null,
            Json::Bool(b) => Json::Bool(*b),
            Json::Number(n) => Json::Number(n.clone()),
            Json::Text(s) => Json::Text(s.clone()),
            Json::Array(items) => {
                let mut out: Vec<Json> = Vec::new();
                let mut i: usize = 0;
                while i < items.len()
                    invariant
                        i <= items.len(),
                        out.len() == i,
                        *self == Json::Array(*items),
                        forall|k: int| 0 <= k < i ==> model(#[trigger] out@[k]) == model(items@[k]),
                    decreases items.len() - i,
                {
                    assert(decreases_to!(*self => self->Array_0));
                    assert(decreases_to!(*items => items@[i as int]));
                    assert(decreases_to!(*self => items@[i as int]));
                    let item = items[i].clone();
                    out.push(item);
                    i = i + 1;
                }
                let r = Json::Array(out);
                assert(r@->Array_0 =~= self@->Array_0);
                r
            },
            Json::Object(entries) => {
                let mut out: Vec<(String, Json)> = Vec::new();
                let mut i: usize = 0;
                while i < entries.len()
                    invariant
                        i <= entries.len(),
                        out.len() == i,
                        *self == Json::Object(*entries),
                        entries_model(out@) == entries_model(entries@.take(i as int)),
                    decreases entries.len() - i,
                {
                    let ghost before = out@;
                    let key = entries[i].0.clone();
                    assert(decreases_to!(*self => self->Object_0));
                    assert(decreases_to!(*entries => entries@[i as int].1));
                    assert(decreases_to!(*self => entries@[i as int].1));
                    let value = entries[i].1.clone();
                    out.push((key, value));
                    i = i + 1;
                    assert(out@.drop_last() =~= before);
                    assert(entries@.take(i as int).drop_last() =~= entries@.take(i as int - 1));
                }
                assert(entries@.take(i as int) =~= entries@);
                Json::Object(out)
            },
        }
    }
}

/// One level of a `serde_json::Value`, its children still unopened.
enum JsonNode {
    Null,
    Bool(bool),
    Number(serde_json::Number),
    Text(String),
    Array(Vec<serde_json::Value>),
    Object(Vec<(String, serde_json::Value)>),
}

/// What a `serde_json::Value` holds.
pub uninterp spec fn value_model(v: serde_json::Value) -> JsonModel;

/// What `serde_json::from_str` makes of a text: a document, or its error message.
pub uninterp spec fn json_parse(text: Seq<char>) -> Result<JsonModel, Seq<char>>;

/// The compact text that `serde_json::Value` displays as.
pub uninterp spec fn json_text(document: JsonModel) -> Seq<char>;

/// The indented text that `serde_json::Value` displays as.
pub uninterp spec fn json_pretty(document: JsonModel) -> Seq<char>;

/// The number that `serde_json::Number::from` makes of an unsigned integer.
pub uninterp spec fn json_number(n: u64) -> serde_json::Number;

/// Whether `serde_json::Number` holds a floating-point number.
pub uninterp spec fn number_is_float(n: serde_json::Number) -> bool;

/// What parsing gives where it succeeds.
pub open spec fn parsed(document: JsonModel) -> Result<JsonModel, Seq<char>> {
    Ok(document)
}

/// How many arrays and objects may stand one inside the other in a document that is parsed.
pub const MAX_DEPTH: usize = 127;

/// Whether a number's own text reads back exactly. Integers do, and so do the floating-point
/// numbers of which the parser does not miss the last bit.
pub open spec fn number_reads_back(n: serde_json::Number) -> bool {
    !number_is_float(n) || json_parse(json_text(JsonModel::Number(n))) == parsed(
        JsonModel::Number(n),
    )
}

/// Whether a document is of arrays and objects up to `depth` deep and of numbers that read back,
/// so that its text reads back exactly.
pub open spec fn reads_back(document: JsonModel, depth: nat) -> bool
    decreases depth,
{
    match document {
        JsonModel::Number(n) => number_reads_back(n),
        JsonModel::Array(items) => depth > 0 && forall|i: int|
            0 <= i < items.len() ==> reads_back(#[trigger] items[i], (depth - 1) as nat),
        JsonModel::Object(entries) => depth > 0 && forall|key: Seq<char>|
            entries.dom().contains(key) ==> reads_back(
                #[trigger] entries[key],
                (depth - 1) as nat,
            ),
        _ => true,
    }
}

/// Whether a document is of arrays and objects up to `depth` deep and all its numbers are integers.
pub open spec fn holds_integers(document: JsonModel, depth: nat) -> bool
    decreases depth,
{
    match document {
        JsonModel::Number(n) => !number_is_float(n),
        JsonModel::Array(items) => depth > 0 && forall|i: int|
            0 <= i < items.len() ==> holds_integers(#[trigger] items[i], (depth - 1) as nat),
        JsonModel::Object(entries) => depth > 0 && forall|key: Seq<char>|
            entries.dom().contains(key) ==> holds_integers(
                #[trigger] entries[key],
                (depth - 1) as nat,
            ),
        _ => true,
    }
}

/// Documents whose numbers are all integers read back.
pub proof fn integers_read_back(document: JsonModel, depth: nat)
    requires
        holds_integers(document, depth),
    ensures
        reads_back(document, depth),
    decreases depth,
{
    match document {
        JsonModel::Array(items) => {
            assert forall|i: int| 0 <= i < items.len() implies reads_back(
                #[trigger] items[i],
                (depth - 1) as nat,
            ) by {
                assert(holds_integers(document->Array_0[i], (depth - 1) as nat));
                integers_read_back(items[i], (depth - 1) as nat);
            }
        },
        JsonModel::Object(entries) => {
            assert forall|key: Seq<char>| entries.dom().contains(key) implies reads_back(
                #[trigger] entries[key],
                (depth - 1) as nat,
            ) by {
                assert(holds_integers(document->Object_0[key], (depth - 1) as nat));
                integers_read_back(entries[key], (depth - 1) as nat);
            }
        },
        _ => {},
    }
}

/// What reads back within one depth does so within a greater one.
pub proof fn reads_back_deeper(document: JsonModel, depth: nat, greater: nat)
    requires
        reads_back(document, depth),
        depth <= greater,
    ensures
        reads_back(document, greater),
    decreases depth,
{
    match document {
        JsonModel::Array(items) => {
            assert forall|i: int| 0 <= i < items.len() implies reads_back(
                #[trigger] items[i],
                (greater - 1) as nat,
            ) by {
                assert(reads_back(document->Array_0[i], (depth - 1) as nat));
                reads_back_deeper(items[i], (depth - 1) as nat, (greater - 1) as nat);
            }
        },
        JsonModel::Object(entries) => {
            assert forall|key: Seq<char>| entries.dom().contains(key) implies reads_back(
                #[trigger] entries[key],
                (greater - 1) as nat,
            ) by {
                assert(reads_back(document->Object_0[key], (depth - 1) as nat));
                reads_back_deeper(entries[key], (depth - 1) as nat, (greater - 1) as nat);
            }
        },
        _ => {},
    }
}

spec fn node_entries_model(entries: Seq<(String, serde_json::Value)>) -> Map<Seq<char>, JsonModel>
    decreases entries.len(),
{
    if entries.len() == 0 {
        Map::empty()
    } else {
        node_entries_model(entries.drop_last()).insert(
            entries.last().0@,
            value_model(entries.last().1),
        )
    }
}

spec fn node_model(node: JsonNode) -> JsonModel {
    match node {
        JsonNode::Null => JsonModel::Null,
        JsonNode::Bool(b) => JsonModel::Bool(b),
        JsonNode::Number(n) => JsonModel::Number(n),
        JsonNode::Text(s) => JsonModel::Text(s@),
        JsonNode::Array(items) => JsonModel::Array(
            Seq::new(items@.len(), |i: int| value_model(items@[i])),
        ),
        JsonNode::Object(entries) => JsonModel::Object(node_entries_model(entries@)),
    }
}

/// Tells the variants of `serde_json::Value` apart. An object's entries come out once per key.
#[verifier::external_body]
fn open_value(v: serde_json::Value) -> (r: JsonNode)
    ensures
        node_model(r) == value_model(v),
        r matches JsonNode::Object(entries) ==> forall|i: int, j: int|
            0 <= i < j < entries@.len() ==> (#[trigger] entries@[i]).0@ != (#[trigger] entries@[j]).0@,
{
    match v {
        serde_json::Value::Null => JsonNode::Null,
        serde_json::Value::Bool(b) => JsonNode::Bool(b),
        serde_json::Value::Number(n) => JsonNode::Number(n),
        serde_json::Value::String(s) => JsonNode::Text(s),
        serde_json::Value::Array(items) => JsonNode::Array(items),
        serde_json::Value::Object(entries) => JsonNode::Object(entries.into_iter().collect()),
    }
}

/// Builds a `serde_json::Value` from one level. Of entries with one key the last stays, as
/// `serde_json::Map` keeps it.
#[verifier::external_body]
fn close_value(node: JsonNode) -> (r: serde_json::Value)
    ensures
        value_model(r) == node_model(node),
{
    match node {
        JsonNode::Null => serde_json::Value::Null,
        JsonNode::Bool(b) => serde_json::Value::Bool(b),
        JsonNode::Number(n) => serde_json::Value::Number(n),
        JsonNode::Text(s) => serde_json::Value::String(s),
        JsonNode::Array(items) => serde_json::Value::Array(items),
        JsonNode::Object(entries) => serde_json::Value::Object(entries.into_iter().collect()),
    }
}

/// Calls `serde_json::from_str` for a `serde_json::Value`; the result is named by [`json_parse`].
#[verifier::external_body]
fn parse_value(text: &str) -> (r: Result<serde_json::Value, String>)
    ensures
        json_parse(text@) == (match r {
            Ok(v) => Ok::<JsonModel, Seq<char>>(value_model(v)),
            Err(e) => Err(e@),
        }),
{
    serde_json::from_str::<serde_json::Value>(text).map_err(|e| e.to_string())
}

/// Calls `to_string` of `serde_json::Value`; the result is named by [`json_text`]. An object's
/// entries are written in the order of their keys, so what the document holds fixes its text. Where
/// no more than 127 arrays and objects stand one inside the other, and each number is an integer or
/// a float that reads back on its own, `serde_json::from_str` reads from the text what was written:
/// a number is written and read inside a document as it is alone. Of other documents this is not
/// claimed: the parser takes no deeper ones and may miss a float's last bit.
#[verifier::external_body]
fn value_text(v: &serde_json::Value) -> (r: String)
    ensures
        r@ == json_text(value_model(*v)),
        reads_back(value_model(*v), MAX_DEPTH as nat) ==> json_parse(r@) == parsed(
            value_model(*v),
        ),
{
    v.to_string()
}

/// Displays a `serde_json::Value` with `{:#}`, indented over several lines; the result is named by
/// [`json_pretty`]. It reads back as [`value_text`] does.
#[verifier::external_body]
fn pretty_value_text(v: &serde_json::Value) -> (r: String)
    ensures
        r@ == json_pretty(value_model(*v)),
        reads_back(value_model(*v), MAX_DEPTH as nat) ==> json_parse(r@) == parsed(
            value_model(*v),
        ),
{
    format!("{:#}", v)
}

/// Calls `serde_json::Number::is_f64`; the result is named by [`number_is_float`].
#[verifier::external_body]
fn is_float(n: &serde_json::Number) -> (r: bool)
    ensures
        r == number_is_float(*n),
{
    n.is_f64()
}

/// Calls `serde_json::Number::as_u64`, which gives back the integer that a number was made from
/// by [`json_number`], and nothing for any other number.
#[verifier::external_body]
fn unsigned_of(n: &serde_json::Number) -> (r: Option<u64>)
    ensures
        forall|k: u64| *n == #[trigger] json_number(k) <==> r == Some(k),
{
    n.as_u64()
}

/// Calls `serde_json::Number::from`; the result is named by [`json_number`], and no other integer
/// gives the same number. It is not floating-point.
#[verifier::external_body]
fn number_from(n: u64) -> (r: serde_json::Number)
    ensures
        r == json_number(n),
        forall|k: u64| #[trigger] json_number(k) == r <==> k == n,
        !number_is_float(r),
{
    serde_json::Number::from(n)
}

proof fn lemma_node_entries_finite(entries: Seq<(String, serde_json::Value)>)
    ensures
        node_entries_model(entries).dom().finite(),
    decreases entries.len(),
{
    if entries.len() > 0 {
        lemma_node_entries_finite(entries.drop_last());
    }
}

proof fn lemma_node_entry(entries: Seq<(String, serde_json::Value)>, k: int)
    requires
        0 <= k < entries.len(),
        forall|i: int, j: int|
            0 <= i < j < entries.len() ==> (#[trigger] entries[i]).0@ != (#[trigger] entries[j]).0@,
    ensures
        node_entries_model(entries).dom().contains(entries[k].0@),
        node_entries_model(entries)[entries[k].0@] == value_model(entries[k].1),
    decreases entries.len(),
{
    if k < entries.len() - 1 {
        let rest = entries.drop_last();
        assert(rest[k] == entries[k]);
        lemma_node_entry(rest, k);
    }
}

/// The library's tree for a parsed document.
fn json_from_value(v: serde_json::Value) -> (r: Json)
    ensures
        r@ == value_model(v),
    decreases value_model(v),
{
    let ghost whole = value_model(v);
    match open_value(v) {
        JsonNode::Null => Json::Null,
        JsonNode::Bool(b) => Json::Bool(b),
        JsonNode::Number(n) => Json::Number(n),
        JsonNode::Text(s) => Json::Text(s),
        JsonNode::Array(items) => {
            let ghost all = items@;
            let mut out: Vec<Json> = Vec::new();
            for item in it: items
                invariant
                    it.seq() == all,
                    out@.len() == it.index(),
                    whole == value_model(v),
                    whole == JsonModel::Array(Seq::new(all.len(), |i: int| value_model(all[i]))),
                    forall|k: int| 0 <= k < out@.len() ==> model(#[trigger] out@[k]) == value_model(all[k]),
            {
                assert(item == all[it.index() as int]);
                assert(whole->Array_0[it.index() as int] == value_model(item));
                assert(decreases_to!(whole => whole->Array_0));
                let made = json_from_value(item);
                out.push(made);
            }
            let r = Json::Array(out);
            assert(r@->Array_0 =~= whole->Array_0);
            r
        },
        JsonNode::Object(entries) => {
            let ghost all = entries@;
            let mut out: Vec<(String, Json)> = Vec::new();
            for entry in it: entries
                invariant
                    it.seq() == all,
                    out@.len() == it.index(),
                    whole == value_model(v),
                    whole == JsonModel::Object(node_entries_model(all)),
                    forall|i: int, j: int|
                        0 <= i < j < all.len() ==> (#[trigger] all[i]).0@ != (#[trigger] all[j]).0@,
                    entries_model(out@) == node_entries_model(all.take(it.index() as int)),
            {
                let ghost before = out@;
                let ghost k: int = it.index() as int;
                assert(entry == all[k]);
                let (key, value) = entry;
                proof {
                    lemma_node_entries_finite(all);
                    lemma_node_entry(all, k);
                    assert(decreases_to!(whole => whole->Object_0));
                    assert(decreases_to!(whole->Object_0 => whole->Object_0[key@]));
                }
                let made = json_from_value(value);
                out.push((key, made));
                assert(out@.drop_last() =~= before);
                assert(all.take(k + 1).drop_last() =~= all.take(k));
            }
            assert(all.take(all.len() as int) =~= all);
            Json::Object(out)
        },
    }
}

/// The `serde_json::Value` that holds what the tree says.
fn json_to_value(j: &Json) -> (r: serde_json::Value)
    ensures
        value_model(r) == j@,
    decreases j,
{
    match j {
        Json::Null => close_value(JsonNode::Null),
        Json::Bool(b) => close_value(JsonNode::Bool(*b)),
        Json::Number(n) => close_value(JsonNode::Number(n.clone())),
        Json::Text(s) => close_value(JsonNode::Text(s.clone())),
        Json::Array(items) => {
            let mut out: Vec<serde_json::Value> = Vec::new();
            let mut i: usize = 0;
            while i < items.len()
                invariant
                    i <= items.len(),
                    out.len() == i,
                    *j == Json::Array(*items),
                    forall|k: int| 0 <= k < i ==> value_model(#[trigger] out@[k]) == model(items@[k]),
                decreases items.len() - i,
            {
                assert(decreases_to!(*j => j->Array_0));
                assert(decreases_to!(*items => items@[i as int]));
                let made = json_to_value(&items[i]);
                out.push(made);
                i = i + 1;
            }
            let node = JsonNode::Array(out);
            assert(node_model(node)->Array_0 =~= j@->Array_0);
            close_value(node)
        },
        Json::Object(entries) => {
            let mut out: Vec<(String, serde_json::Value)> = Vec::new();
            let mut i: usize = 0;
            while i < entries.len()
                invariant
                    i <= entries.len(),
                    out.len() == i,
                    *j == Json::Object(*entries),
                    node_entries_model(out@) == entries_model(entries@.take(i as int)),
                decreases entries.len() - i,
            {
                let ghost before = out@;
                assert(decreases_to!(*j => j->Object_0));
                assert(decreases_to!(*entries => entries@[i as int].1));
                let made = json_to_value(&entries[i].1);
                out.push((entries[i].0.clone(), made));
                i = i + 1;
                assert(out@.drop_last() =~= before);
                assert(entries@.take(i as int).drop_last() =~= entries@.take(i as int - 1));
            }
            assert(entries@.take(i as int) =~= entries@);
            close_value(JsonNode::Object(out))
        },
    }
}

/// Looks a key up from the back, so that of entries with one key the last counts.
fn lookup<'a>(entries: &'a Vec<(String, Json)>, key: &str) -> (r: Option<&'a Json>)
    ensures
        r is Some <==> entries_model(entries@).dom().contains(key@),
        r matches Some(j) ==> j@ == entries_model(entries@)[key@],
{
    let mut n: usize = entries.len();
    assert(entries@.take(n as int) =~= entries@);
    while n > 0
        invariant
            n <= entries.len(),
            entries_model(entries@).dom().contains(key@) <==> entries_model(
                entries@.take(n as int),
            ).dom().contains(key@),
            entries_model(entries@)[key@] == entries_model(entries@.take(n as int))[key@],
        decreases n,
    {
        assert(entries@.take(n as int).drop_last() =~= entries@.take(n as int - 1));
        if same_text(entries[n - 1].0.as_str(), key) {
            return Some(&entries[n - 1].1);
        }
        n = n - 1;
    }
    None
}

proof fn lemma_entry_keys(entries: Seq<(String, Json)>, key: Seq<char>)
    ensures
        entries_model(entries).dom().contains(key) <==> exists|i: int|
            0 <= i < entries.len() && (#[trigger] entries[i]).0@ == key,
    decreases entries.len(),
{
    if entries.len() > 0 {
        let rest = entries.drop_last();
        lemma_entry_keys(rest, key);
        if entries.last().0@ == key {
            assert(entries[entries.len() - 1].0@ == key);
        } else {
            if exists|i: int| 0 <= i < rest.len() && (#[trigger] rest[i]).0@ == key {
                let i = choose|i: int| 0 <= i < rest.len() && (#[trigger] rest[i]).0@ == key;
                assert(entries[i].0@ == key);
            }
            if exists|i: int| 0 <= i < entries.len() && (#[trigger] entries[i]).0@ == key {
                let i = choose|i: int| 0 <= i < entries.len() && (#[trigger] entries[i]).0@ == key;
                assert(rest[i].0@ == key);
            }
        }
    }
}

/// An object with one more entry, where there is one.
pub open spec fn opt_insert(
    m: Map<Seq<char>, JsonModel>,
    key: Seq<char>,
    value: Option<JsonModel>,
) -> Map<Seq<char>, JsonModel> {
    match value {
        Some(v) => m.insert(key, v),
        None => m,
    }
}

/// The text under a key of an object.
pub open spec fn text_entry(m: Map<Seq<char>, JsonModel>, key: Seq<char>) -> Option<Seq<char>> {
    if m.dom().contains(key) {
        match m[key] {
            JsonModel::Text(s) => Some(s),
            _ => None,
        }
    } else {
        None
    }
}

/// Whether a value is an object with one entry, under `key`.
pub open spec fn is_only_entry(document: JsonModel, key: Seq<char>) -> bool {
    document matches JsonModel::Object(entries) && entries.dom() == Set::empty().insert(key)
}

/// Entries with those of `extra` over them, where that is an object.
pub open spec fn merged(
    entries: Map<Seq<char>, JsonModel>,
    extra: Option<Json>,
) -> Map<Seq<char>, JsonModel> {
    match extra {
        Some(j) => match j@ {
            JsonModel::Object(more) => entries.union_prefer_right(more),
            _ => entries,
        },
        None => entries,
    }
}

/// Merged entries: those of an object `extra` win, the others stay.
pub proof fn merged_prefers_extra(
    entries: Map<Seq<char>, JsonModel>,
    extra: Option<Json>,
    key: Seq<char>,
)
    ensures
        ({
            let more = match extra {
                Some(j) => match j@ {
                    JsonModel::Object(m) => m,
                    _ => Map::empty(),
                },
                None => Map::empty(),
            };
            let all = merged(entries, extra);
            &&& all.dom().contains(key) <==> entries.dom().contains(key) || more.dom().contains(key)
            &&& more.dom().contains(key) ==> all[key] == more[key]
            &&& entries.dom().contains(key) && !more.dom().contains(key) ==> all[key]
                == entries[key]
        }),
{
}

impl Json {
    /// An object without entries.
    pub fn empty_object() -> (r: Json)
        ensures
            r@ == JsonModel::Object(Map::empty()),
    {
        let entries: Vec<(String, Json)> = Vec::new();
        assert(entries_model(entries@) == Map::<Seq<char>, JsonModel>::empty());
        Json::Object(entries)
    }

    /// A text value.
    pub fn text(s: &str) -> (r: Json)
        ensures
            r@ == JsonModel::Text(s@),
    {
        Json::Text(s.to_owned())
    }

    /// An integer value.
    pub fn number(n: u64) -> (r: Json)
        ensures
            r@ == JsonModel::Number(json_number(n)),
            forall|k: u64| #[trigger] json_number(k) == json_number(n) <==> k == n,
            !number_is_float(json_number(n)),
    {
        Json::Number(number_from(n))
    }

    /// A truth value.
    pub fn flag(b: bool) -> (r: Json)
        ensures
            r@ == JsonModel::Bool(b),
    {
        Json::Bool(b)
    }

    /// A list of values.
    pub fn array(items: Vec<Json>) -> (r: Json)
        ensures
            r@ == JsonModel::Array(models(items@)),
    {
        let r = Json::Array(items);
        assert(r@->Array_0 =~= models(items@));
        r
    }

    /// A list of texts.
    pub fn texts(items: &Vec<String>) -> (r: Json)
        ensures
            r@ == JsonModel::Array(items@.map_values(|s: String| JsonModel::Text(s@))),
    {
        let mut out: Vec<Json> = Vec::new();
        let mut i: usize = 0;
        while i < items.len()
            invariant
                i <= items.len(),
                out.len() == i,
                forall|k: int|
                    0 <= k < i ==> model(#[trigger] out@[k]) == JsonModel::Text(items@[k]@),
            decreases items.len() - i,
        {
            out.push(Json::Text(items[i].clone()));
            i = i + 1;
        }
        let r = Json::Array(out);
        assert(r@->Array_0 =~= items@.map_values(|s: String| JsonModel::Text(s@)));
        r
    }

    /// Parses a document.
    pub fn parse(text: &str) -> (r: Result<Json, String>)
        ensures
            json_parse(text@) == (match r {
                Ok(j) => Ok::<JsonModel, Seq<char>>(j@),
                Err(e) => Err(e@),
            }),
    {
        match parse_value(text) {
            Ok(v) => Ok(json_from_value(v)),
            Err(e) => Err(e),
        }
    }

    fn holds_integers_within(&self, depth: usize) -> (r: bool)
        ensures
            r == holds_integers(self@, depth as nat),
        decreases depth,
    {
        match self {
            Json::Number(n) => !is_float(n),
            Json::Array(items) => {
                if depth == 0 {
                    return false;
                }
                let ghost all = self@->Array_0;
                let mut i: usize = 0;
                while i < items.len()
                    invariant
                        i <= items.len(),
                        depth > 0,
                        *self == Json::Array(*items),
                        self@ == JsonModel::Array(all),
                        all.len() == items@.len(),
                        forall|k: int|
                            0 <= k < i ==> holds_integers(#[trigger] all[k], (depth - 1) as nat),
                    decreases items.len() - i,
                {
                    assert(all[i as int] == items@[i as int]@);
                    if !items[i].holds_integers_within(depth - 1) {
                        assert(!holds_integers(self@->Array_0[i as int], (depth - 1) as nat));
                        return false;
                    }
                    i = i + 1;
                }
                true
            },
            Json::Object(entries) => {
                if depth == 0 {
                    return false;
                }
                let ghost all = self@->Object_0;
                let mut i: usize = 0;
                while i < entries.len()
                    invariant
                        i <= entries.len(),
                        depth > 0,
                        *self == Json::Object(*entries),
                        self@ == JsonModel::Object(all),
                        all == entries_model(entries@),
                        forall|k: int|
                            0 <= k < i ==> holds_integers(
                                all[(#[trigger] entries@[k]).0@],
                                (depth - 1) as nat,
                            ),
                    decreases entries.len() - i,
                {
                    proof {
                        lemma_entry_keys(entries@, entries@[i as int].0@);
                        assert(all.dom().contains(entries@[i as int].0@));
                    }
                    match lookup(entries, entries[i].0.as_str()) {
                        Some(value) => {
                            if !value.holds_integers_within(depth - 1) {
                                assert(!holds_integers(
                                    self@->Object_0[entries@[i as int].0@],
                                    (depth - 1) as nat,
                                ));
                                return false;
                            }
                        },
                        None => {},
                    }
                    i = i + 1;
                }
                assert forall|key: Seq<char>| all.dom().contains(key) implies holds_integers(
                    #[trigger] all[key],
                    (depth - 1) as nat,
                ) by {
                    lemma_entry_keys(entries@, key);
                    let k = choose|k: int|
                        0 <= k < entries@.len() && (#[trigger] entries@[k]).0@ == key;
                    assert(holds_integers(all[entries@[k].0@], (depth - 1) as nat));
                }
                true
            },
            _ => true,
        }
    }

    /// Whether the text of the document is sure to read back exactly, because its numbers are all
    /// integers and it is not too deep.
    pub fn reads_back(&self) -> (r: bool)
        ensures
            r == holds_integers(self@, MAX_DEPTH as nat),
            r ==> reads_back(self@, MAX_DEPTH as nat),
    {
        let r = self.holds_integers_within(MAX_DEPTH);
        proof {
            if r {
                integers_read_back(self@, MAX_DEPTH as nat);
            }
        }
        r
    }

    /// The compact text of the document.
    pub fn to_text(&self) -> (r: String)
        ensures
            r@ == json_text(self@),
            reads_back(self@, MAX_DEPTH as nat) ==> json_parse(r@) == parsed(self@),
    {
        value_text(&json_to_value(self))
    }

    /// The text of the document, indented over several lines.
    pub fn to_pretty_text(&self) -> (r: String)
        ensures
            r@ == json_pretty(self@),
            reads_back(self@, MAX_DEPTH as nat) ==> json_parse(r@) == parsed(self@),
    {
        pretty_value_text(&json_to_value(self))
    }

    /// The entry under `key`; `None` where there is none or this is no object.
    pub fn get(&self, key: &str) -> (r: Option<&Json>)
        ensures
            r is Some <==> self@ is Object && self@->Object_0.dom().contains(key@),
            r matches Some(j) ==> j@ == self@->Object_0[key@],
    {
        match self {
            Json::Object(entries) => lookup(entries, key),
            _ => None,
        }
    }

    /// The text under `key`; `None` where there is none or this is no object.
    pub fn get_text(&self, key: &str) -> (r: Option<&String>)
        ensures
            r is Some <==> self@ is Object && text_entry(self@->Object_0, key@) is Some,
            r matches Some(s) ==> text_entry(self@->Object_0, key@) == Some(s@),
    {
        match self.get(key) {
            Some(Json::Text(s)) => Some(s),
            _ => None,
        }
    }

    /// The text that this is.
    pub fn as_text(&self) -> (r: Option<&String>)
        ensures
            r is Some <==> self@ is Text,
            r matches Some(s) ==> self@ == JsonModel::Text(s@),
    {
        match self {
            Json::Text(s) => Some(s),
            _ => None,
        }
    }

    /// The truth value that this is.
    pub fn as_flag(&self) -> (r: Option<bool>)
        ensures
            r is Some <==> self@ is Bool,
            r matches Some(b) ==> self@ == JsonModel::Bool(b),
    {
        match self {
            Json::Bool(b) => Some(*b),
            _ => None,
        }
    }

    /// The unsigned integer that this is.
    pub fn as_unsigned(&self) -> (r: Option<u64>)
        ensures
            forall|k: u64| self@ == JsonModel::Number(#[trigger] json_number(k)) <==> r == Some(k),
            r matches Some(k) ==> self@ == JsonModel::Number(json_number(k)),
    {
        match self {
            Json::Number(n) => {
                let r = unsigned_of(n);
                assert(r matches Some(k) ==> *n == json_number(k));
                r
            },
            _ => None,
        }
    }

    /// The list that this is.
    pub fn as_array(&self) -> (r: Option<&Vec<Json>>)
        ensures
            r is Some <==> self@ is Array,
            r matches Some(items) ==> self@ == JsonModel::Array(models(items@)),
    {
        match self {
            Json::Array(items) => {
                assert(self@->Array_0 =~= models(items@));
                Some(items)
            },
            _ => None,
        }
    }

    /// The entry under `key` of an object that has no other entry.
    pub fn only_entry(&self, key: &str) -> (r: Option<&Json>)
        ensures
            r is Some <==> is_only_entry(self@, key@),
            r matches Some(j) ==> j@ == self@->Object_0[key@],
    {
        match self {
            Json::Object(entries) => {
                let ghost all = entries_model(entries@);
                let mut i: usize = 0;
                while i < entries.len()
                    invariant
                        i <= entries.len(),
                        *self == Json::Object(*entries),
                        self@ == JsonModel::Object(all),
                        all == entries_model(entries@),
                        forall|k: int| 0 <= k < i ==> (#[trigger] entries@[k]).0@ == key@,
                    decreases entries.len() - i,
                {
                    if !same_text(entries[i].0.as_str(), key) {
                        proof {
                            lemma_entry_keys(entries@, entries@[i as int].0@);
                            assert(all.dom().contains(entries@[i as int].0@));
                        }
                        return None;
                    }
                    i = i + 1;
                }
                proof {
                    assert forall|k: Seq<char>| all.dom().contains(k) implies k == key@ by {
                        lemma_entry_keys(entries@, k);
                    }
                    if all.dom().contains(key@) {
                        assert(all.dom() =~= Set::empty().insert(key@));
                    }
                }
                lookup(entries, key)
            },
            _ => None,
        }
    }

    /// Takes over the entries of `extra` where both are objects.
    pub fn merge(&mut self, extra: &Option<Json>)
        ensures
            final(self)@ == (match old(self)@ {
                JsonModel::Object(m) => JsonModel::Object(merged(m, *extra)),
                other => other,
            }),
    {
        if let Some(Json::Object(more)) = extra {
            let ghost start = self@;
            let mut i: usize = 0;
            assert(more@.take(0) =~= Seq::<(String, Json)>::empty());
            assert(entries_model(more@.take(0)) == Map::<Seq<char>, JsonModel>::empty());
            assert(start is Object ==> start->Object_0.union_prefer_right(Map::empty())
                =~= start->Object_0);
            while i < more.len()
                invariant
                    i <= more@.len(),
                    self@ == (match start {
                        JsonModel::Object(m) => JsonModel::Object(
                            m.union_prefer_right(entries_model(more@.take(i as int))),
                        ),
                        other => other,
                    }),
                decreases more.len() - i,
            {
                assert(more@.take(i as int + 1).drop_last() =~= more@.take(i as int));
                self.set(more[i].0.as_str(), more[i].1.clone());
                proof {
                    if let JsonModel::Object(m) = start {
                        let before = entries_model(more@.take(i as int));
                        let (key, value) = more@[i as int];
                        assert(entries_model(more@.take(i as int + 1)) == before.insert(
                            key@,
                            value@,
                        ));
                        assert(m.union_prefer_right(before).insert(key@, value@)
                            =~= m.union_prefer_right(before.insert(key@, value@)));
                    }
                }
                i = i + 1;
            }
            assert(more@.take(i as int) =~= more@);
        }
    }

    /// Sets the entry under `key`. A value that is no object stays as it is.
    pub fn set(&mut self, key: &str, value: Json)
        ensures
            final(self)@ == (match old(self)@ {
                JsonModel::Object(m) => JsonModel::Object(m.insert(key@, value@)),
                other => other,
            }),
    {
        match self {
            Json::Object(entries) => {
                let ghost before = entries@;
                entries.push((key.to_owned(), value));
                assert(entries@.drop_last() =~= before);
                assert(entries_model(entries@) == entries_model(before).insert(key@, value@));
            },
            _ => {},
        }
    }
}

/// Whether `serde_json::Value` takes two documents for equal.
pub uninterp spec fn json_equal(a: JsonModel, b: JsonModel) -> bool;

/// Calls `==` of `serde_json::Value`; the result is named by [`json_equal`], and documents that
/// hold the same are equal.
#[verifier::external_body]
fn values_equal(a: &serde_json::Value, b: &serde_json::Value) -> (r: bool)
    ensures
        r == json_equal(value_model(*a), value_model(*b)),
        value_model(*a) == value_model(*b) ==> r,
{
    a == b
}

impl PartialEq for Json {
    fn eq(&self, other: &Self) -> (r: bool) {
        values_equal(&json_to_value(self), &json_to_value(other))
    }
}

impl vstd::std_specs::cmp::PartialEqSpecImpl for Json {
    open spec fn obeys_eq_spec() -> bool {
        true
    }

    open spec fn eq_spec(&self, other: &Self) -> bool {
        json_equal(self@, other@)
    }
}

} // verus!
