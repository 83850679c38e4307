//! Stored conversations: every field stands under its own name and is read from there.

use vstd::prelude::*;

use super::anthropic_request as blocks;
use super::wire;
use crate::json::{self, JsonModel};
use crate::message::{
    AssistantBlockModel, MessageModel, SourceModel, ToolResultBlockModel, ToolResultModel,
    UserBlockModel,
};
use crate::persist;
use crate::record;
use crate::snapshot::{self, ConversationSnapshot, SnapshotError, SnapshotModel};

verus! {

/// The value of an object that has one entry, under a name.
pub open spec fn only(document: JsonModel, name: Seq<char>) -> Option<JsonModel> {
    match document {
        JsonModel::Object(entries) => if entries.dom() =~= Set::empty().insert(name) {
            Some(entries[name])
        } else {
            None
        },
        _ => None,
    }
}

/// Whether a stored source says what a source says.
pub open spec fn stores_source(document: JsonModel, source: SourceModel) -> bool {
    match source {
        SourceModel::Base64 { media_type, data } => wire::lays_out(
            document,
            seq![
                ("type"@, JsonModel::Text("base64"@)),
                ("media_type"@, JsonModel::Text(media_type)),
                ("data"@, JsonModel::Text(data)),
            ],
        ),
        SourceModel::Url { url } => wire::lays_out(
            document,
            seq![("type"@, JsonModel::Text("url"@)), ("url"@, JsonModel::Text(url))],
        ),
        SourceModel::FileId { id } => wire::lays_out(
            document,
            seq![("type"@, JsonModel::Text("file_id"@)), ("id"@, JsonModel::Text(id))],
        ),
    }
}

/// Whether a stored block of a tool reply says what the block says.
pub open spec fn stores_reply_block(document: JsonModel, block: ToolResultBlockModel) -> bool {
    match block {
        ToolResultBlockModel::Text { text } => wire::lays_out(
            document,
            seq![("type"@, JsonModel::Text("text"@)), ("text"@, JsonModel::Text(text))],
        ),
        ToolResultBlockModel::Image { source } => exists|inner: JsonModel|
            #[trigger] stores_source(inner, source) && wire::lays_out(
                document,
                seq![("type"@, JsonModel::Text("image"@)), ("source"@, inner)],
            ),
    }
}

proof fn lemma_names()
    ensures
        "type"@ != "media_type"@ && "type"@ != "data"@ && "type"@ != "url"@ && "type"@ != "id"@,
        "type"@ != "text"@ && "type"@ != "source"@ && "media_type"@ != "data"@,
        "base64"@ != "url"@ && "base64"@ != "file_id"@ && "url"@ != "file_id"@,
        "text"@ != "image"@ && "blocks"@ != "is_error"@ && "call_id"@ != "content"@,
        "id"@ != "name"@ && "id"@ != "args"@ && "name"@ != "args"@ && "text"@ != "signature"@,
        "Text"@ != "ToolResult"@ && "Text"@ != "Image"@ && "Text"@ != "Document"@,
        "ToolResult"@ != "Image"@ && "ToolResult"@ != "Document"@ && "Image"@ != "Document"@,
        "Text"@ != "ToolCall"@ && "Text"@ != "Reasoning"@ && "Text"@ != "RedactedReasoning"@,
        "ToolCall"@ != "Reasoning"@ && "ToolCall"@ != "RedactedReasoning"@,
        "Reasoning"@ != "RedactedReasoning"@ && "User"@ != "Assistant"@,
        "version"@ != "messages"@ && "version"@ != "pinned"@ && "messages"@ != "pinned"@,
{
    reveal_strlit("type");
    reveal_strlit("media_type");
    reveal_strlit("data");
    reveal_strlit("url");
    reveal_strlit("id");
    reveal_strlit("text");
    reveal_strlit("source");
    reveal_strlit("base64");
    reveal_strlit("file_id");
    reveal_strlit("image");
    reveal_strlit("blocks");
    reveal_strlit("is_error");
    reveal_strlit("call_id");
    reveal_strlit("content");
    reveal_strlit("name");
    reveal_strlit("args");
    reveal_strlit("signature");
    reveal_strlit("Text");
    reveal_strlit("ToolResult");
    reveal_strlit("Image");
    reveal_strlit("Document");
    reveal_strlit("ToolCall");
    reveal_strlit("Reasoning");
    reveal_strlit("RedactedReasoning");
    reveal_strlit("User");
    reveal_strlit("Assistant");
    reveal_strlit("version");
    reveal_strlit("messages");
    reveal_strlit("pinned");
    assert("type"@.len() == 4 && "type"@[0] == 't' && "type"@[1] == 'y');
    assert("data"@.len() == 4 && "data"@[1] == 'a');
    assert("text"@.len() == 4 && "text"@[1] == 'e');
    assert("name"@.len() == 4 && "name"@[0] == 'n');
    assert("args"@.len() == 4 && "args"@[0] == 'a');
    assert("media_type"@.len() == 10);
    assert("url"@.len() == 3);
    assert("id"@.len() == 2);
    assert("source"@.len() == 6);
    assert("base64"@.len() == 6);
    assert("file_id"@.len() == 7);
    assert("image"@.len() == 5);
    assert("blocks"@.len() == 6);
    assert("is_error"@.len() == 8);
    assert("call_id"@.len() == 7 && "call_id"@[1] == 'a');
    assert("content"@.len() == 7 && "content"@[1] == 'o');
    assert("signature"@.len() == 9);
    assert("Text"@.len() == 4);
    assert("ToolResult"@.len() == 10);
    assert("Image"@.len() == 5);
    assert("Document"@.len() == 8 && "Document"@[0] == 'D');
    assert("ToolCall"@.len() == 8 && "ToolCall"@[0] == 'T');
    assert("Reasoning"@.len() == 9);
    assert("RedactedReasoning"@.len() == 17);
    assert("User"@.len() == 4);
    assert("Assistant"@.len() == 9);
    assert("version"@.len() == 7);
    assert("messages"@.len() == 8);
    assert("pinned"@.len() == 6);
}

proof fn lemma_fields(document: JsonModel, fields: Seq<(Seq<char>, JsonModel)>)
    requires
        wire::lays_out(document, fields),
    ensures
        record::is_record(document, fields.len() as int),
        forall|i: int|
            0 <= i < fields.len() ==> record::field(document, (#[trigger] fields[i]).0, i) == Some(
                fields[i].1,
            ),
{
}

proof fn lemma_two(document: JsonModel, a: (Seq<char>, JsonModel), b: (Seq<char>, JsonModel))
    requires
        wire::lays_out(document, seq![a, b]),
    ensures
        record::is_record(document, 2),
        record::field(document, a.0, 0) == Some(a.1),
        record::field(document, b.0, 1) == Some(b.1),
{
    let fields = seq![a, b];
    lemma_fields(document, fields);
    assert(fields[0] == a && fields[1] == b);
}

proof fn lemma_three(
    document: JsonModel,
    a: (Seq<char>, JsonModel),
    b: (Seq<char>, JsonModel),
    c: (Seq<char>, JsonModel),
)
    requires
        wire::lays_out(document, seq![a, b, c]),
    ensures
        record::is_record(document, 3),
        record::field(document, a.0, 0) == Some(a.1),
        record::field(document, b.0, 1) == Some(b.1),
        record::field(document, c.0, 2) == Some(c.1),
{
    let fields = seq![a, b, c];
    lemma_fields(document, fields);
    assert(fields[0] == a && fields[1] == b && fields[2] == c);
}

/// A source is stored field by field under their names, and any document that lays it out so, by
/// name or in order, is read as it.
pub proof fn sources_are_stored(source: SourceModel, document: JsonModel)
    ensures
        stores_source(persist::encoded_source(source), source),
        stores_source(document, source) ==> persist::decoded_source(document) == Some(source),
{
    lemma_names();
    if stores_source(document, source) {
        match source {
            SourceModel::Base64 { media_type, data } => {
                lemma_three(
                    document,
                    ("type"@, JsonModel::Text("base64"@)),
                    ("media_type"@, JsonModel::Text(media_type)),
                    ("data"@, JsonModel::Text(data)),
                );
            },
            SourceModel::Url { url } => {
                lemma_two(
                    document,
                    ("type"@, JsonModel::Text("url"@)),
                    ("url"@, JsonModel::Text(url)),
                );
            },
            SourceModel::FileId { id } => {
                lemma_two(
                    document,
                    ("type"@, JsonModel::Text("file_id"@)),
                    ("id"@, JsonModel::Text(id)),
                );
            },
        }
    }
}

/// A block of a tool reply is stored field by field under their names, and read from there.
pub proof fn reply_blocks_are_stored(block: ToolResultBlockModel, document: JsonModel)
    ensures
        stores_reply_block(persist::encoded_result_block(block), block),
        stores_reply_block(document, block) ==> persist::decoded_result_block(document) == Some(
            block,
        ),
{
    lemma_names();
    match block {
        ToolResultBlockModel::Text { text } => {
            if stores_reply_block(document, block) {
                lemma_two(
                    document,
                    ("type"@, JsonModel::Text("text"@)),
                    ("text"@, JsonModel::Text(text)),
                );
            }
        },
        ToolResultBlockModel::Image { source } => {
            sources_are_stored(source, document);
            let inner = persist::encoded_source(source);
            assert(stores_source(inner, source));
            if stores_reply_block(document, block) {
                let inner = choose|inner: JsonModel|
                    #[trigger] stores_source(inner, source) && wire::lays_out(
                        document,
                        seq![("type"@, JsonModel::Text("image"@)), ("source"@, inner)],
                    );
                sources_are_stored(source, inner);
                lemma_two(document, ("type"@, JsonModel::Text("image"@)), ("source"@, inner));
            }
        },
    }
}

/// A tool reply is stored as its blocks, in order, and the failure flag where it is set. One without
/// the flag is read as no failure.
pub proof fn replies_are_stored(content: ToolResultModel)
    ensures
        ({
            let document = persist::encoded_result(content);
            &&& wire::entry(document, "blocks"@) matches Some(JsonModel::Array(items))
            &&& items.len() == content.blocks.len()
            &&& forall|i: int|
                0 <= i < items.len() ==> stores_reply_block(#[trigger] items[i], content.blocks[i])
            &&& wire::entry(document, "is_error"@) == (if content.is_error {
                Some(JsonModel::Bool(true))
            } else {
                None
            })
            &&& persist::decoded_result(document) == Some(content)
        }),
{
    lemma_names();
    persist::result_reads_back(content);
    let items = content.blocks.map_values(
        |block: ToolResultBlockModel| persist::encoded_result_block(block),
    );
    assert forall|i: int| 0 <= i < items.len() implies stores_reply_block(
        #[trigger] items[i],
        content.blocks[i],
    ) by {
        reply_blocks_are_stored(content.blocks[i], items[i]);
    }
}

/// Whether a stored assistant block says what the block says.
pub open spec fn stores_assistant_block(document: JsonModel, block: AssistantBlockModel) -> bool {
    match block {
        AssistantBlockModel::Text { text, .. } => only(document, "Text"@) matches Some(body)
            && wire::lays_out(body, seq![("text"@, JsonModel::Text(text))]),
        AssistantBlockModel::ToolCall { id, name, args, .. } => only(
            document,
            "ToolCall"@,
        ) matches Some(body) && wire::lays_out(
            body,
            seq![("id"@, JsonModel::Text(id)), ("name"@, JsonModel::Text(name)), ("args"@, args)],
        ),
        AssistantBlockModel::Reasoning { text, signature } => only(
            document,
            "Reasoning"@,
        ) matches Some(body) && wire::lays_out(
            body,
            seq![
                ("text"@, JsonModel::Text(text)),
                (
                    "signature"@,
                    match signature {
                        Some(s) => JsonModel::Text(s),
                        None => JsonModel::Null,
                    },
                ),
            ],
        ),
        AssistantBlockModel::RedactedReasoning { data } => only(
            document,
            "RedactedReasoning"@,
        ) matches Some(body) && wire::lays_out(body, seq![("data"@, JsonModel::Text(data))]),
    }
}

/// An assistant block is stored under the name of its kind, field by field under their names; any
/// document that lays it out so is read as it, without a cache breakpoint.
pub proof fn assistant_blocks_are_stored(block: AssistantBlockModel, document: JsonModel)
    ensures
        stores_assistant_block(persist::encoded_assistant_block(block), block),
        stores_assistant_block(document, block) ==> persist::decoded_assistant_block(document)
            == Some(blocks::assistant_block_at(block, None)),
{
    lemma_names();
    let own = persist::encoded_assistant_block(block);
    let tag = match block {
        AssistantBlockModel::Text { .. } => "Text"@,
        AssistantBlockModel::ToolCall { .. } => "ToolCall"@,
        AssistantBlockModel::Reasoning { .. } => "Reasoning"@,
        AssistantBlockModel::RedactedReasoning { .. } => "RedactedReasoning"@,
    };
    assert(own->Object_0.dom() =~= Set::empty().insert(tag));
    if stores_assistant_block(document, block) {
        let body = document->Object_0[tag];
        lemma_only(document, tag);
        match block {
            AssistantBlockModel::Text { text, .. } => {
                let fields = seq![("text"@, JsonModel::Text(text))];
                lemma_fields(body, fields);
                assert(fields[0] == ("text"@, JsonModel::Text(text)));
            },
            AssistantBlockModel::ToolCall { id, name, args, .. } => {
                lemma_three(
                    body,
                    ("id"@, JsonModel::Text(id)),
                    ("name"@, JsonModel::Text(name)),
                    ("args"@, args),
                );
            },
            AssistantBlockModel::Reasoning { text, signature } => {
                lemma_two(
                    body,
                    ("text"@, JsonModel::Text(text)),
                    (
                        "signature"@,
                        match signature {
                            Some(s) => JsonModel::Text(s),
                            None => JsonModel::Null,
                        },
                    ),
                );
            },
            AssistantBlockModel::RedactedReasoning { data } => {
                let fields = seq![("data"@, JsonModel::Text(data))];
                lemma_fields(body, fields);
                assert(fields[0] == ("data"@, JsonModel::Text(data)));
            },
        }
    }
}

proof fn lemma_only(document: JsonModel, tag: Seq<char>)
    requires
        only(document, tag) is Some,
    ensures
        json::is_only_entry(document, tag),
        forall|other: Seq<char>| other != tag ==> !#[trigger] json::is_only_entry(document, other),
{
    assert forall|other: Seq<char>| other != tag implies !#[trigger] json::is_only_entry(
        document,
        other,
    ) by {
        if json::is_only_entry(document, other) {
            assert(document->Object_0.dom().contains(tag));
        }
    }
}

/// Whether a stored user block says what the block says.
pub open spec fn stores_user_block(document: JsonModel, block: UserBlockModel) -> bool {
    match block {
        UserBlockModel::Text { text, .. } => only(document, "Text"@) matches Some(body)
            && wire::lays_out(body, seq![("text"@, JsonModel::Text(text))]),
        UserBlockModel::ToolResult { call_id, content, .. } => only(
            document,
            "ToolResult"@,
        ) matches Some(body) && wire::lays_out(
            body,
            seq![
                ("call_id"@, JsonModel::Text(call_id)),
                ("content"@, persist::encoded_result(content)),
            ],
        ),
        UserBlockModel::Image { source, .. } => only(document, "Image"@) matches Some(body) && (
        wire::entry(body, "source"@) matches Some(inner) && stores_source(inner, source)),
        UserBlockModel::Document { source, .. } => only(document, "Document"@) matches Some(body)
            && (wire::entry(body, "source"@) matches Some(inner) && stores_source(inner, source)),
    }
}

/// A user block is stored under the name of its kind, field by field under their names; any
/// document that lays it out so is read as it, without a cache breakpoint.
pub proof fn user_blocks_are_stored(block: UserBlockModel, document: JsonModel)
    ensures
        stores_user_block(persist::encoded_user_block(block), block),
        stores_user_block(document, block) ==> persist::decoded_user_block(document) == Some(
            blocks::user_block_at(block, None),
        ),
{
    lemma_names();
    let own = persist::encoded_user_block(block);
    let tag = match block {
        UserBlockModel::Text { .. } => "Text"@,
        UserBlockModel::ToolResult { .. } => "ToolResult"@,
        UserBlockModel::Image { .. } => "Image"@,
        UserBlockModel::Document { .. } => "Document"@,
    };
    assert(own->Object_0.dom() =~= Set::empty().insert(tag));
    match block {
        UserBlockModel::Image { source, .. } => {
            sources_are_stored(source, JsonModel::Null);
        },
        UserBlockModel::Document { source, .. } => {
            sources_are_stored(source, JsonModel::Null);
        },
        _ => {},
    }
    if stores_user_block(document, block) {
        let body = document->Object_0[tag];
        lemma_only(document, tag);
        match block {
            UserBlockModel::Text { text, .. } => {
                let fields = seq![("text"@, JsonModel::Text(text))];
                lemma_fields(body, fields);
                assert(fields[0] == ("text"@, JsonModel::Text(text)));
            },
            UserBlockModel::ToolResult { call_id, content, .. } => {
                replies_are_stored(content);
                lemma_two(
                    body,
                    ("call_id"@, JsonModel::Text(call_id)),
                    ("content"@, persist::encoded_result(content)),
                );
            },
            UserBlockModel::Image { source, .. } => {
                sources_are_stored(source, wire::entry(body, "source"@)->0);
            },
            UserBlockModel::Document { source, .. } => {
                sources_are_stored(source, wire::entry(body, "source"@)->0);
            },
        }
    }
}

/// Whether a stored message says whose turn it is and what each block of it says, in order.
pub open spec fn stores_message(document: JsonModel, message: MessageModel) -> bool {
    match message {
        MessageModel::User { blocks } => only(document, "User"@) matches Some(body) && (wire::entry(
            body,
            "blocks"@,
        ) matches Some(JsonModel::Array(items)) && items.len() == blocks.len() && forall|i: int|
            0 <= i < items.len() ==> stores_user_block(#[trigger] items[i], blocks[i])),
        MessageModel::Assistant { blocks } => only(document, "Assistant"@) matches Some(body) && (
        wire::entry(body, "blocks"@) matches Some(JsonModel::Array(items)) && items.len()
            == blocks.len() && forall|i: int|
            0 <= i < items.len() ==> stores_assistant_block(#[trigger] items[i], blocks[i])),
    }
}

/// A message is stored with all its blocks, in order, and nothing of it changes on the way back but
/// that its cache breakpoints are gone.
pub proof fn messages_are_stored(message: MessageModel)
    ensures
        stores_message(persist::encoded_message(message), message),
        persist::decoded_message(persist::encoded_message(message)) == Some(
            without_breakpoints(message),
        ),
        persist::kept_message(message) == without_breakpoints(message),
{
    lemma_names();
    persist::message_reads_back(message);
    let document = persist::encoded_message(message);
    match message {
        MessageModel::User { blocks } => {
            assert(document->Object_0.dom() =~= Set::empty().insert("User"@));
            let items = blocks.map_values(|b: UserBlockModel| persist::encoded_user_block(b));
            assert forall|i: int| 0 <= i < items.len() implies stores_user_block(
                #[trigger] items[i],
                blocks[i],
            ) by {
                user_blocks_are_stored(blocks[i], items[i]);
            }
            assert(blocks.map_values(|b: UserBlockModel| persist::kept_user_block(b))
                =~= blocks.map_values(|b: UserBlockModel| blocks::user_block_at(b, None)));
        },
        MessageModel::Assistant { blocks } => {
            assert(document->Object_0.dom() =~= Set::empty().insert("Assistant"@));
            let items = blocks.map_values(
                |b: AssistantBlockModel| persist::encoded_assistant_block(b),
            );
            assert forall|i: int| 0 <= i < items.len() implies stores_assistant_block(
                #[trigger] items[i],
                blocks[i],
            ) by {
                assistant_blocks_are_stored(blocks[i], items[i]);
            }
            assert(blocks.map_values(|b: AssistantBlockModel| persist::kept_assistant_block(b))
                =~= blocks.map_values(
                |b: AssistantBlockModel| blocks::assistant_block_at(b, None),
            ));
        },
    }
}

/// A message without its cache breakpoints.
pub open spec fn without_breakpoints(message: MessageModel) -> MessageModel {
    match message {
        MessageModel::User { blocks } => MessageModel::User {
            blocks: blocks.map_values(|b: UserBlockModel| blocks::user_block_at(b, None)),
        },
        MessageModel::Assistant { blocks } => MessageModel::Assistant {
            blocks: blocks.map_values(|b: AssistantBlockModel| blocks::assistant_block_at(b, None)),
        },
    }
}

/// A snapshot is stored with its version, its messages and its pins, each under its name and in
/// order, and is valid exactly where it has the one known version and a pin for each message.
pub proof fn snapshots_are_stored(stored: SnapshotModel)
    ensures
        ({
            let document = snapshot::encoded_snapshot(stored);
            &&& wire::entry(document, "version"@) == Some(
                JsonModel::Number(json::json_number(stored.version as u64)),
            )
            &&& wire::entry(document, "messages"@) matches Some(JsonModel::Array(items))
            &&& items.len() == stored.messages.len()
            &&& forall|i: int|
                0 <= i < items.len() ==> stores_message(#[trigger] items[i], stored.messages[i])
            &&& wire::entry(document, "pinned"@) matches Some(JsonModel::Array(pins))
            &&& pins.len() == stored.pinned.len()
            &&& forall|i: int|
                0 <= i < pins.len() ==> #[trigger] pins[i] == JsonModel::Bool(stored.pinned[i])
        }),
        snapshot::is_valid(stored) <==> stored.version == 1 && stored.messages.len()
            == stored.pinned.len(),
        snapshot::kept_snapshot(stored).version == stored.version,
        snapshot::kept_snapshot(stored).pinned == stored.pinned,
        snapshot::kept_snapshot(stored).messages == stored.messages.map_values(
            |m: MessageModel| without_breakpoints(m),
        ),
{
    lemma_names();
    let items = stored.messages.map_values(|m: MessageModel| persist::encoded_message(m));
    assert forall|i: int| 0 <= i < items.len() implies stores_message(
        #[trigger] items[i],
        stored.messages[i],
    ) by {
        messages_are_stored(stored.messages[i]);
    }
    assert forall|i: int| 0 <= i < stored.messages.len() implies persist::kept_message(
        #[trigger] stored.messages[i],
    ) == without_breakpoints(stored.messages[i]) by {
        messages_are_stored(stored.messages[i]);
    }
    assert(snapshot::kept_snapshot(stored).messages =~= stored.messages.map_values(
        |m: MessageModel| without_breakpoints(m),
    ));
}

/// A document that lays a snapshot out holds it and no other: its messages and pins in order.
pub proof fn snapshots_are_read(
    document: JsonModel,
    version: u32,
    messages: Seq<JsonModel>,
    pins: Seq<JsonModel>,
    held: SnapshotModel,
)
    requires
        wire::lays_out(
            document,
            seq![
                ("version"@, JsonModel::Number(json::json_number(version as u64))),
                ("messages"@, JsonModel::Array(messages)),
                ("pinned"@, JsonModel::Array(pins)),
            ],
        ),
        snapshot::holds_snapshot(document, held),
    ensures
        json::json_number(held.version as u64) == json::json_number(version as u64),
        held.messages.len() == messages.len(),
        forall|i: int|
            0 <= i < messages.len() ==> persist::decoded_message(#[trigger] messages[i]) == Some(
                held.messages[i],
            ),
        held.pinned.len() == pins.len(),
        forall|i: int|
            0 <= i < pins.len() ==> #[trigger] pins[i] == JsonModel::Bool(held.pinned[i]),
{
    lemma_three(
        document,
        ("version"@, JsonModel::Number(json::json_number(version as u64))),
        ("messages"@, JsonModel::Array(messages)),
        ("pinned"@, JsonModel::Array(pins)),
    );
    assert(held.messages =~= messages.map_values(
        |item: JsonModel| persist::decoded_message(item)->0,
    ));
    assert(held.pinned =~= pins.map_values(|item: JsonModel| snapshot::decoded_pin(item)->0));
    assert forall|i: int| 0 <= i < pins.len() implies #[trigger] pins[i] == JsonModel::Bool(
        held.pinned[i],
    ) by {
        assert(snapshot::decoded_pin(pins[i]) is Some);
    }
}

/// What is read as a source or as a block of a tool reply says just that.
pub proof fn stored_parts_are_strict(
    document: JsonModel,
    source: SourceModel,
    block: ToolResultBlockModel,
)
    ensures
        persist::decoded_source(document) == Some(source) ==> stores_source(document, source),
        persist::decoded_result_block(document) == Some(block) ==> stores_reply_block(
            document,
            block,
        ),
{
    lemma_names();
    lemma_source_is_strict(document, source);
    if persist::decoded_result_block(document) == Some(block) {
        if let ToolResultBlockModel::Image { source: inner_source } = block {
            let inner = record::field(document, "source"@, 1)->0;
            lemma_source_is_strict(inner, inner_source);
            let fields = seq![("type"@, JsonModel::Text("image"@)), ("source"@, inner)];
            assert(wire::lays_out(document, fields));
        }
    }
}

proof fn lemma_source_is_strict(document: JsonModel, source: SourceModel)
    ensures
        persist::decoded_source(document) == Some(source) ==> stores_source(document, source),
{
    lemma_names();
}

/// A message or a block is read only where it is the one entry of its document, under the name of
/// its kind.
pub proof fn stored_kinds_are_strict(document: JsonModel)
    ensures
        persist::decoded_message(document) matches Some(message) ==> {
            ||| message is User && only(document, "User"@) is Some
            ||| message is Assistant && only(document, "Assistant"@) is Some
        },
        persist::decoded_user_block(document) matches Some(block) ==> {
            ||| block is Text && only(document, "Text"@) is Some
            ||| block is ToolResult && only(document, "ToolResult"@) is Some
            ||| block is Image && only(document, "Image"@) is Some
            ||| block is Document && only(document, "Document"@) is Some
        },
        persist::decoded_assistant_block(document) matches Some(block) ==> {
            ||| block is Text && only(document, "Text"@) is Some
            ||| block is ToolCall && only(document, "ToolCall"@) is Some
            ||| block is Reasoning && only(document, "Reasoning"@) is Some
            ||| block is RedactedReasoning && only(document, "RedactedReasoning"@) is Some
        },
{
}

/// Whether no other number is written as this one.
pub open spec fn is_written_apart(n: u32) -> bool {
    forall|k: u64| #[trigger] json::json_number(k) == json::json_number(n as u64) <==> k == n
}

proof fn lemma_one_snapshot(document: JsonModel, a: SnapshotModel, b: SnapshotModel)
    requires
        snapshot::holds_snapshot(document, a),
        snapshot::holds_snapshot(document, b),
        is_written_apart(a.version),
    ensures
        a == b,
{
    assert(json::json_number(b.version as u64) == json::json_number(a.version as u64));
}

/// A document that holds a snapshot of the known version with a pin for each message is read as that
/// snapshot. One of another version is refused for its version, and one of the known version with
/// too many or too few pins for their number.
pub proof fn snapshots_are_restored_or_refused(
    document: JsonModel,
    held: SnapshotModel,
    result: Result<ConversationSnapshot, SnapshotError>,
)
    requires
        snapshot::holds_snapshot(document, held),
        is_written_apart(held.version),
        snapshot::is_reading(document, result),
    ensures
        held.version == 1 && held.messages.len() == held.pinned.len() ==> (result matches Ok(s)
            && s@ == held),
        held.version != 1 ==> (result matches Err(SnapshotError::UnsupportedVersion(v)) && v
            == held.version),
        held.version == 1 && held.messages.len() != held.pinned.len() ==> (result matches Err(
            SnapshotError::LengthMismatch { messages, pinned },
        ) && messages == held.messages.len() && pinned == held.pinned.len()),
{
    match result {
        Ok(s) => {
            lemma_one_snapshot(document, held, s@);
        },
        Err(SnapshotError::UnsupportedVersion(version)) => {
            let other = choose|other: SnapshotModel|
                #[trigger] snapshot::holds_snapshot(document, other) && other.version == version;
            lemma_one_snapshot(document, held, other);
        },
        Err(SnapshotError::LengthMismatch { messages, pinned }) => {
            let other = choose|other: SnapshotModel|
                #[trigger] snapshot::holds_snapshot(document, other) && other.version
                    == snapshot::SNAPSHOT_VERSION && other.messages.len() == messages
                    && other.pinned.len() == pinned;
            lemma_one_snapshot(document, held, other);
        },
        _ => {},
    }
}

/// A document that holds no snapshot is refused for its shape.
pub proof fn other_documents_are_refused(
    document: JsonModel,
    result: Result<ConversationSnapshot, SnapshotError>,
)
    requires
        forall|held: SnapshotModel| !#[trigger] snapshot::holds_snapshot(document, held),
        snapshot::is_reading(document, result),
    ensures
        result matches Err(SnapshotError::Shape),
{
}

} // verus!
