//! The state of a conversation as it is kept between runs.

use vstd::prelude::*;
use vstd::string::*;

use crate::context_manager::FromMessagesError;
use crate::json::{self, Json, JsonModel};
use crate::message::{self, clone_messages, Message, MessageModel};
use crate::persist;
use crate::record::{self, array_field_of, is_record_of, number_field_of};
use crate::text::{self, decimal_text};

verus! {

/// The form that snapshots have today.
pub const SNAPSHOT_VERSION: u32 = 1;

/// A conversation's messages with their pins.
#[derive(Debug, PartialEq)]
pub struct ConversationSnapshot {
    pub version: u32,
    pub messages: Vec<Message>,
    /// One pin for each message.
    pub pinned: Vec<bool>,
}

/// What a snapshot says.
#[verifier::ext_equal]
pub struct SnapshotModel {
    pub version: u32,
    pub messages: Seq<MessageModel>,
    pub pinned: Seq<bool>,
}

impl View for ConversationSnapshot {
    type V = SnapshotModel;

    open spec fn view(&self) -> SnapshotModel {
        SnapshotModel {
            version: self.version,
            messages: message::message_models(self.messages@),
            pinned: self.pinned@,
        }
    }
}

/// Why a document is no snapshot.
#[derive(Debug, Clone, PartialEq, Eq)]
pub enum SnapshotError {
    /// The text is no JSON document; the parser's message.
    Syntax(String),
    /// The document has another shape.
    Shape,
    /// The snapshot has a form that is not known.
    UnsupportedVersion(u32),
    /// Messages and pins differ in number.
    LengthMismatch { messages: usize, pinned: usize },
}

/// Whether a snapshot can be restored.
pub open spec fn is_valid(snapshot: SnapshotModel) -> bool {
    snapshot.version == SNAPSHOT_VERSION && snapshot.messages.len() == snapshot.pinned.len()
}

/// A snapshot without cache breakpoints.
pub open spec fn kept_snapshot(snapshot: SnapshotModel) -> SnapshotModel {
    SnapshotModel {
        messages: snapshot.messages.map_values(|m: MessageModel| persist::kept_message(m)),
        ..snapshot
    }
}

/// A snapshot as a document.
pub open spec fn encoded_snapshot(snapshot: SnapshotModel) -> JsonModel {
    JsonModel::Object(
        map![
            "version"@ => JsonModel::Number(json::json_number(snapshot.version as u64)),
            "messages"@ => JsonModel::Array(
                snapshot.messages.map_values(|m: MessageModel| persist::encoded_message(m)),
            ),
            "pinned"@ => JsonModel::Array(
                snapshot.pinned.map_values(|pin: bool| JsonModel::Bool(pin)),
            ),
        ],
    )
}

/// The messages that a list holds.
pub open spec fn decoded_messages(items: Seq<JsonModel>) -> Option<Seq<MessageModel>> {
    record::all_decoded(items, |item: JsonModel| persist::decoded_message(item))
}

/// The truth value that a document is.
pub open spec fn decoded_pin(document: JsonModel) -> Option<bool> {
    match document {
        JsonModel::Bool(pin) => Some(pin),
        _ => None,
    }
}

/// The pins that a list holds.
pub open spec fn decoded_pins(items: Seq<JsonModel>) -> Option<Seq<bool>> {
    record::all_decoded(items, |item: JsonModel| decoded_pin(item))
}

/// The snapshot that a document holds, whether it can be restored or not.
pub open spec fn holds_snapshot(document: JsonModel, snapshot: SnapshotModel) -> bool {
    &&& record::is_record(document, 3)
    &&& record::has_number(document, "version"@, 0, snapshot.version)
    &&& record::array_field(document, "messages"@, 1) matches Some(items) && decoded_messages(items)
        == Some(snapshot.messages)
    &&& record::array_field(document, "pinned"@, 2) matches Some(items) && decoded_pins(items)
        == Some(snapshot.pinned)
}

/// Whether reading a document gives a result: the snapshot that it holds where that can be
/// restored, or else the first of its faults.
pub open spec fn is_reading(
    document: JsonModel,
    result: Result<ConversationSnapshot, SnapshotError>,
) -> bool {
    match result {
        Ok(snapshot) => holds_snapshot(document, snapshot@) && is_valid(snapshot@),
        Err(SnapshotError::UnsupportedVersion(version)) => version != SNAPSHOT_VERSION
            && exists|held: SnapshotModel|
            #[trigger] holds_snapshot(document, held) && held.version == version,
        Err(SnapshotError::LengthMismatch { messages, pinned }) => messages != pinned
            && exists|held: SnapshotModel|
            #[trigger] holds_snapshot(document, held) && held.version == SNAPSHOT_VERSION
                && held.messages.len() == messages && held.pinned.len() == pinned,
        Err(SnapshotError::Shape) => forall|held: SnapshotModel| !holds_snapshot(document, held),
        Err(SnapshotError::Syntax(_)) => false,
    }
}

/// Whether reading a text gives a result.
pub open spec fn is_text_reading(
    text: Seq<char>,
    result: Result<ConversationSnapshot, SnapshotError>,
) -> bool {
    match json::json_parse(text) {
        Ok(document) => is_reading(document, result),
        Err(reason) => result matches Err(SnapshotError::Syntax(e)) && e@ == reason,
    }
}

/// Whether the arguments of all tool calls are such that their text reads back exactly: numbers
/// that read back on their own, and no more than 120 arrays and objects one inside the other.
pub open spec fn arguments_read_back(snapshot: SnapshotModel) -> bool {
    forall|i: int|
        0 <= i < snapshot.messages.len() ==> persist::arguments_read_back(
            #[trigger] snapshot.messages[i],
            120,
        )
}

/// What an error says.
pub open spec fn snapshot_error_text(e: SnapshotError) -> Seq<char> {
    match e {
        SnapshotError::Syntax(reason) => reason@,
        SnapshotError::Shape => "the document is no snapshot"@,
        SnapshotError::UnsupportedVersion(version) => "unsupported snapshot version "@
            + text::decimal(version as nat) + " (expected "@ + text::decimal(1) + ")"@,
        SnapshotError::LengthMismatch { messages, pinned } =>
            "messages/pinned length mismatch: messages="@ + text::decimal(messages as nat)
            + ", pinned="@ + text::decimal(pinned as nat),
    }
}

impl SnapshotError {
    /// The error as text.
    pub fn text(&self) -> (r: String)
        ensures
            r@ == snapshot_error_text(*self),
    {
        match self {
            SnapshotError::Syntax(reason) => reason.clone(),
            SnapshotError::Shape => "the document is no snapshot".to_owned(),
            SnapshotError::UnsupportedVersion(version) => {
                let mut out = "unsupported snapshot version ".to_owned();
                let number = decimal_text(*version as u64);
                out.append(number.as_str());
                out.append(" (expected ");
                let number = decimal_text(SNAPSHOT_VERSION as u64);
                out.append(number.as_str());
                out.append(")");
                out
            },
            SnapshotError::LengthMismatch { messages, pinned } => {
                let mut out = "messages/pinned length mismatch: messages=".to_owned();
                let number = decimal_text(*messages as u64);
                out.append(number.as_str());
                out.append(", pinned=");
                let number = decimal_text(*pinned as u64);
                out.append(number.as_str());
                out
            },
        }
    }
}

fn encode_messages(items: &Vec<Message>) -> (r: Json)
    ensures
        r@ == JsonModel::Array(
            message::message_models(items@).map_values(
                |m: MessageModel| persist::encoded_message(m),
            ),
        ),
{
    let mut out: Vec<Json> = Vec::new();
    let mut i: usize = 0;
    while i < items.len()
        invariant
            i <= items.len(),
            out@.len() == i,
            forall|k: int|
                0 <= k < i ==> (#[trigger] out@[k])@ == persist::encoded_message(items@[k]@),
        decreases items.len() - i,
    {
        out.push(items[i].to_json());
        i = i + 1;
    }
    assert(json::models(out@) =~= message::message_models(items@).map_values(
        |m: MessageModel| persist::encoded_message(m),
    ));
    Json::array(out)
}

fn encode_pins(items: &Vec<bool>) -> (r: Json)
    ensures
        r@ == JsonModel::Array(items@.map_values(|pin: bool| JsonModel::Bool(pin))),
{
    let mut out: Vec<Json> = Vec::new();
    let mut i: usize = 0;
    while i < items.len()
        invariant
            i <= items.len(),
            out@.len() == i,
            forall|k: int| 0 <= k < i ==> (#[trigger] out@[k])@ == JsonModel::Bool(items@[k]),
        decreases items.len() - i,
    {
        out.push(Json::flag(items[i]));
        i = i + 1;
    }
    assert(json::models(out@) =~= items@.map_values(|pin: bool| JsonModel::Bool(pin)));
    Json::array(out)
}

fn decode_messages(items: &Vec<Json>) -> (r: Option<Vec<Message>>)
    ensures
        decoded_messages(json::models(items@)) == (match r {
            Some(messages) => Some(message::message_models(messages@)),
            None => None,
        }),
{
    let ghost all = json::models(items@);
    let mut out: Vec<Message> = Vec::new();
    let mut i: usize = 0;
    while i < items.len()
        invariant
            i <= items.len(),
            all == json::models(items@),
            out@.len() == i,
            forall|k: int|
                0 <= k < i ==> persist::decoded_message(#[trigger] all[k]) == Some(out@[k]@),
        decreases items.len() - i,
    {
        assert(all[i as int] == items@[i as int]@);
        match Message::from_json(&items[i]) {
            Some(message) => out.push(message),
            None => {
                assert(persist::decoded_message(all[i as int]) is None);
                return None;
            },
        }
        i = i + 1;
    }
    assert(message::message_models(out@) =~= decoded_messages(all)->0);
    Some(out)
}

fn decode_pins(items: &Vec<Json>) -> (r: Option<Vec<bool>>)
    ensures
        decoded_pins(json::models(items@)) == (match r {
            Some(pins) => Some(pins@),
            None => None,
        }),
{
    let ghost all = json::models(items@);
    let mut out: Vec<bool> = Vec::new();
    let mut i: usize = 0;
    while i < items.len()
        invariant
            i <= items.len(),
            all == json::models(items@),
            out@.len() == i,
            forall|k: int| 0 <= k < i ==> decoded_pin(#[trigger] all[k]) == Some(out@[k]),
        decreases items.len() - i,
    {
        assert(all[i as int] == items@[i as int]@);
        match items[i].as_flag() {
            Some(pin) => out.push(pin),
            None => {
                assert(decoded_pin(all[i as int]) is None);
                return None;
            },
        }
        i = i + 1;
    }
    assert(out@ =~= decoded_pins(all)->0);
    Some(out)
}

impl Clone for ConversationSnapshot {
    fn clone(&self) -> (r: Self)
        ensures
            r@ == self@,
    {
        ConversationSnapshot {
            version: self.version,
            messages: clone_messages(&self.messages),
            pinned: self.pinned.clone(),
        }
    }
}

impl ConversationSnapshot {
    /// A snapshot of messages and their pins.
    pub fn new(messages: Vec<Message>, pinned: Vec<bool>) -> (r: Result<Self, FromMessagesError>)
        ensures
            r is Ok <==> messages@.len() == pinned@.len(),
            r matches Ok(snapshot) ==> snapshot == (ConversationSnapshot {
                version: SNAPSHOT_VERSION,
                messages,
                pinned,
            }) && is_valid(snapshot@),
            r matches Err(e) ==> e == (FromMessagesError::LengthMismatch {
                messages: messages.len(),
                pinned: pinned.len(),
            }),
    {
        if messages.len() != pinned.len() {
            return Err(
                FromMessagesError::LengthMismatch {
                    messages: messages.len(),
                    pinned: pinned.len(),
                },
            );
        }
        Ok(ConversationSnapshot { version: SNAPSHOT_VERSION, messages, pinned })
    }

    /// Writes a snapshot as a document, from which it reads back but for its cache breakpoints.
    pub fn to_json(&self) -> (r: Json)
        ensures
            r@ == encoded_snapshot(self@),
            forall|held: SnapshotModel| #[trigger]
                holds_snapshot(r@, held) <==> held == kept_snapshot(self@),
            !json::number_is_float(json::json_number(self.version as u64)),
    {
        let mut out = Json::empty_object();
        out.set("version", Json::number(self.version as u64));
        out.set("messages", encode_messages(&self.messages));
        out.set("pinned", encode_pins(&self.pinned));
        proof {
            lemma_snapshot_reads_back(self@);
        }
        out
    }

    /// Writes a snapshot as text. Reading the text gives the snapshot back but for its cache
    /// breakpoints.
    pub fn to_text(&self) -> (r: String)
        ensures
            r@ == json::json_pretty(encoded_snapshot(self@)),
            is_valid(self@) && arguments_read_back(self@) ==> forall|result|
                #[trigger] is_text_reading(r@, result) ==> (result matches Ok(snapshot)
                    && snapshot@ == kept_snapshot(self@)),
    {
        let document = self.to_json();
        let r = document.to_pretty_text();
        proof {
            if is_valid(self@) && arguments_read_back(self@) {
                lemma_snapshot_text_reads_back(self@);
                let kept = kept_snapshot(self@);
                assert(holds_snapshot(document@, kept));
                assert(kept.messages.len() == self@.messages.len());
            }
        }
        r
    }

    /// Reads a snapshot from text.
    pub fn from_text(text: &str) -> (r: Result<Self, SnapshotError>)
        ensures
            is_text_reading(text@, r),
    {
        match Json::parse(text) {
            Ok(document) => Self::from_json(&document),
            Err(reason) => Err(SnapshotError::Syntax(reason)),
        }
    }

    /// Reads a snapshot from a document.
    pub fn from_json(document: &Json) -> (r: Result<Self, SnapshotError>)
        ensures
            is_reading(document@, r),
    {
        if !is_record_of(document, 3) {
            return Err(SnapshotError::Shape);
        }
        let version = number_field_of(document, "version", 0);
        let messages = match array_field_of(document, "messages", 1) {
            Some(items) => decode_messages(items),
            None => None,
        };
        let pinned = match array_field_of(document, "pinned", 2) {
            Some(items) => decode_pins(items),
            None => None,
        };
        match (version, messages, pinned) {
            (Some(version), Some(messages), Some(pinned)) => {
                let snapshot = ConversationSnapshot { version, messages, pinned };
                assert(holds_snapshot(document@, snapshot@));
                if version != SNAPSHOT_VERSION {
                    return Err(SnapshotError::UnsupportedVersion(version));
                }
                if snapshot.messages.len() != snapshot.pinned.len() {
                    return Err(
                        SnapshotError::LengthMismatch {
                            messages: snapshot.messages.len(),
                            pinned: snapshot.pinned.len(),
                        },
                    );
                }
                Ok(snapshot)
            },
            _ => Err(SnapshotError::Shape),
        }
    }
}

proof fn lemma_snapshot_reads_back(snapshot: SnapshotModel)
    requires
        forall|k: u64| #[trigger]
            json::json_number(k) == json::json_number(snapshot.version as u64) <==> k
                == snapshot.version,
    ensures
        forall|held: SnapshotModel| #[trigger]
            holds_snapshot(encoded_snapshot(snapshot), held) <==> held == kept_snapshot(snapshot),
{
    reveal_strlit("version");
    reveal_strlit("messages");
    reveal_strlit("pinned");
    assert("version"@.len() == 7 && "messages"@.len() == 8 && "pinned"@.len() == 6);
    let document = encoded_snapshot(snapshot);
    let kept = kept_snapshot(snapshot);
    let items = snapshot.messages.map_values(|m: MessageModel| persist::encoded_message(m));
    let pins = snapshot.pinned.map_values(|pin: bool| JsonModel::Bool(pin));
    let version = JsonModel::Number(json::json_number(snapshot.version as u64));
    assert(record::field(document, "version"@, 0) == Some(version));
    assert(record::array_field(document, "messages"@, 1) == Some(items));
    assert(record::array_field(document, "pinned"@, 2) == Some(pins));
    assert forall|i: int| 0 <= i < items.len() implies persist::decoded_message(#[trigger] items[i])
        == Some(kept.messages[i]) by {
        persist::message_reads_back(snapshot.messages[i]);
    }
    assert(decoded_messages(items)->0 =~= kept.messages);
    assert forall|i: int| 0 <= i < pins.len() implies decoded_pin(#[trigger] pins[i]) == Some(
        snapshot.pinned[i],
    ) by {}
    assert(decoded_pins(pins)->0 =~= snapshot.pinned);
    assert forall|held: SnapshotModel| #[trigger] holds_snapshot(document, held) implies held
        == kept by {
        assert(json::json_number(held.version as u64) == json::json_number(
            snapshot.version as u64,
        ));
        assert(held =~= kept);
    }
}

proof fn lemma_snapshot_text_reads_back(snapshot: SnapshotModel)
    requires
        arguments_read_back(snapshot),
        !json::number_is_float(json::json_number(snapshot.version as u64)),
    ensures
        json::reads_back(encoded_snapshot(snapshot), json::MAX_DEPTH as nat),
{
    let items = snapshot.messages.map_values(|m: MessageModel| persist::encoded_message(m));
    let pins = snapshot.pinned.map_values(|pin: bool| JsonModel::Bool(pin));
    assert forall|i: int| 0 <= i < items.len() implies json::reads_back(#[trigger] items[i], 125) by {
        assert(persist::arguments_read_back(snapshot.messages[i], 120));
        persist::message_text_reads_back(snapshot.messages[i], 125);
    }
    assert(json::reads_back(JsonModel::Array(items), 126));
    assert forall|i: int| 0 <= i < pins.len() implies json::reads_back(#[trigger] pins[i], 125) by {}
    assert(json::reads_back(JsonModel::Array(pins), 126));
    let entries = encoded_snapshot(snapshot)->Object_0;
    assert forall|key: Seq<char>| entries.dom().contains(key) implies json::reads_back(
        #[trigger] entries[key],
        126,
    ) by {}
}

} // verus!
