//! Messages as JSON documents, as they are kept between runs.
//!
//! A turn or block is an object with one entry, under the name of its variant. Sources and the
//! blocks of tool replies name their variant under `type` instead. Cache breakpoints belong to a
//! request, not to the conversation, and are not kept.

use vstd::prelude::*;

use crate::json::{self, Json, JsonModel};
use crate::message::{
    AssistantBlock, AssistantBlockModel, Message, MessageModel, Source, SourceModel,
    ToolResultBlock, ToolResultBlockModel, ToolResultContent, ToolResultModel, UserBlock,
    UserBlockModel,
};
use crate::record::{
    self, array_field_of, field_of, is_record_of, optional_text_field_of, text_field_of,
};
use crate::text::{self, same_text};

verus! {

/// An object with one entry.
pub open spec fn single(key: Seq<char>, value: JsonModel) -> JsonModel {
    JsonModel::Object(Map::empty().insert(key, value))
}

/// A text as a document, or null.
pub open spec fn encoded_optional_text(text: Option<Seq<char>>) -> JsonModel {
    match text {
        Some(s) => JsonModel::Text(s),
        None => JsonModel::Null,
    }
}

/// A source as a document.
pub open spec fn encoded_source(source: SourceModel) -> JsonModel {
    JsonModel::Object(
        match source {
            SourceModel::Base64 { media_type, data } => map![
                "type"@ => JsonModel::Text("base64"@),
                "media_type"@ => JsonModel::Text(media_type),
                "data"@ => JsonModel::Text(data),
            ],
            SourceModel::Url { url } => map![
                "type"@ => JsonModel::Text("url"@),
                "url"@ => JsonModel::Text(url),
            ],
            SourceModel::FileId { id } => map![
                "type"@ => JsonModel::Text("file_id"@),
                "id"@ => JsonModel::Text(id),
            ],
        },
    )
}

/// The source that a document holds.
pub open spec fn decoded_source(document: JsonModel) -> Option<SourceModel> {
    match record::text_field(document, "type"@, 0) {
        Some(tag) => if tag == "base64"@ {
            match (
                record::is_record(document, 3),
                record::text_field(document, "media_type"@, 1),
                record::text_field(document, "data"@, 2),
            ) {
                (true, Some(media_type), Some(data)) => Some(
                    SourceModel::Base64 { media_type, data },
                ),
                _ => None,
            }
        } else if tag == "url"@ {
            match (record::is_record(document, 2), record::text_field(document, "url"@, 1)) {
                (true, Some(url)) => Some(SourceModel::Url { url }),
                _ => None,
            }
        } else if tag == "file_id"@ {
            match (record::is_record(document, 2), record::text_field(document, "id"@, 1)) {
                (true, Some(id)) => Some(SourceModel::FileId { id }),
                _ => None,
            }
        } else {
            None
        },
        None => None,
    }
}

/// A block of a tool reply as a document.
pub open spec fn encoded_result_block(block: ToolResultBlockModel) -> JsonModel {
    JsonModel::Object(
        match block {
            ToolResultBlockModel::Text { text } => map![
                "type"@ => JsonModel::Text("text"@),
                "text"@ => JsonModel::Text(text),
            ],
            ToolResultBlockModel::Image { source } => map![
                "type"@ => JsonModel::Text("image"@),
                "source"@ => encoded_source(source),
            ],
        },
    )
}

/// The block of a tool reply that a document holds.
pub open spec fn decoded_result_block(document: JsonModel) -> Option<ToolResultBlockModel> {
    match record::text_field(document, "type"@, 0) {
        Some(tag) => if tag == "text"@ {
            match (record::is_record(document, 2), record::text_field(document, "text"@, 1)) {
                (true, Some(text)) => Some(ToolResultBlockModel::Text { text }),
                _ => None,
            }
        } else if tag == "image"@ {
            match (record::is_record(document, 2), source_field(document, 1)) {
                (true, Some(source)) => Some(ToolResultBlockModel::Image { source }),
                _ => None,
            }
        } else {
            None
        },
        None => None,
    }
}

/// The source in the field `source` of a record.
pub open spec fn source_field(document: JsonModel, place: int) -> Option<SourceModel> {
    match record::field(document, "source"@, place) {
        Some(source) => decoded_source(source),
        None => None,
    }
}

/// A tool reply as a document: the failure flag is there only where it is set.
pub open spec fn encoded_result(content: ToolResultModel) -> JsonModel {
    let blocks = JsonModel::Array(
        content.blocks.map_values(|block: ToolResultBlockModel| encoded_result_block(block)),
    );
    let entries = Map::empty().insert("blocks"@, blocks);
    JsonModel::Object(
        if content.is_error {
            entries.insert("is_error"@, JsonModel::Bool(true))
        } else {
            entries
        },
    )
}

/// The blocks of a tool reply that a list holds.
pub open spec fn decoded_result_blocks(items: Seq<JsonModel>) -> Option<Seq<ToolResultBlockModel>> {
    record::all_decoded(items, |item: JsonModel| decoded_result_block(item))
}

/// The tool reply that a document holds. Without a failure flag it is no failure.
pub open spec fn decoded_result(document: JsonModel) -> Option<ToolResultModel> {
    if !(record::is_record(document, 1) || record::is_record(document, 2)) {
        None
    } else {
        let is_error = match record::field(document, "is_error"@, 1) {
            Some(JsonModel::Bool(b)) => Some(b),
            Some(_) => None,
            None => Some(false),
        };
        match (record::array_field(document, "blocks"@, 0), is_error) {
            (Some(items), Some(is_error)) => match decoded_result_blocks(items) {
                Some(blocks) => Some(ToolResultModel { blocks, is_error }),
                None => None,
            },
            _ => None,
        }
    }
}

/// A user block as a document.
pub open spec fn encoded_user_block(block: UserBlockModel) -> JsonModel {
    match block {
        UserBlockModel::Text { text, .. } => single(
            "Text"@,
            single("text"@, JsonModel::Text(text)),
        ),
        UserBlockModel::ToolResult { call_id, content, .. } => single(
            "ToolResult"@,
            JsonModel::Object(
                map![
                    "call_id"@ => JsonModel::Text(call_id),
                    "content"@ => encoded_result(content),
                ],
            ),
        ),
        UserBlockModel::Image { source, .. } => single(
            "Image"@,
            single("source"@, encoded_source(source)),
        ),
        UserBlockModel::Document { source, .. } => single(
            "Document"@,
            single("source"@, encoded_source(source)),
        ),
    }
}

/// The user block that a document holds.
pub open spec fn decoded_user_block(document: JsonModel) -> Option<UserBlockModel> {
    if json::is_only_entry(document, "Text"@) {
        let body = document->Object_0["Text"@];
        match (record::is_record(body, 1), record::text_field(body, "text"@, 0)) {
            (true, Some(text)) => Some(UserBlockModel::Text { text, cache_control: None }),
            _ => None,
        }
    } else if json::is_only_entry(document, "ToolResult"@) {
        let body = document->Object_0["ToolResult"@];
        let content = match record::field(body, "content"@, 1) {
            Some(content) => decoded_result(content),
            None => None,
        };
        match (record::is_record(body, 2), record::text_field(body, "call_id"@, 0), content) {
            (true, Some(call_id), Some(content)) => Some(
                UserBlockModel::ToolResult { call_id, content, cache_control: None },
            ),
            _ => None,
        }
    } else if json::is_only_entry(document, "Image"@) {
        let body = document->Object_0["Image"@];
        match (record::is_record(body, 1), source_field(body, 0)) {
            (true, Some(source)) => Some(UserBlockModel::Image { source, cache_control: None }),
            _ => None,
        }
    } else if json::is_only_entry(document, "Document"@) {
        let body = document->Object_0["Document"@];
        match (record::is_record(body, 1), source_field(body, 0)) {
            (true, Some(source)) => Some(UserBlockModel::Document { source, cache_control: None }),
            _ => None,
        }
    } else {
        None
    }
}

/// An assistant block as a document.
pub open spec fn encoded_assistant_block(block: AssistantBlockModel) -> JsonModel {
    match block {
        AssistantBlockModel::Text { text, .. } => single(
            "Text"@,
            single("text"@, JsonModel::Text(text)),
        ),
        AssistantBlockModel::ToolCall { id, name, args, .. } => single(
            "ToolCall"@,
            JsonModel::Object(
                map![
                    "id"@ => JsonModel::Text(id),
                    "name"@ => JsonModel::Text(name),
                    "args"@ => args,
                ],
            ),
        ),
        AssistantBlockModel::Reasoning { text, signature } => single(
            "Reasoning"@,
            JsonModel::Object(
                map![
                    "text"@ => JsonModel::Text(text),
                    "signature"@ => encoded_optional_text(signature),
                ],
            ),
        ),
        AssistantBlockModel::RedactedReasoning { data } => single(
            "RedactedReasoning"@,
            single("data"@, JsonModel::Text(data)),
        ),
    }
}

/// The assistant block that a document holds.
pub open spec fn decoded_assistant_block(document: JsonModel) -> Option<AssistantBlockModel> {
    if json::is_only_entry(document, "Text"@) {
        let body = document->Object_0["Text"@];
        match (record::is_record(body, 1), record::text_field(body, "text"@, 0)) {
            (true, Some(text)) => Some(AssistantBlockModel::Text { text, cache_control: None }),
            _ => None,
        }
    } else if json::is_only_entry(document, "ToolCall"@) {
        let body = document->Object_0["ToolCall"@];
        match (
            record::is_record(body, 3),
            record::text_field(body, "id"@, 0),
            record::text_field(body, "name"@, 1),
            record::field(body, "args"@, 2),
        ) {
            (true, Some(id), Some(name), Some(args)) => Some(
                AssistantBlockModel::ToolCall { id, name, args, cache_control: None },
            ),
            _ => None,
        }
    } else if json::is_only_entry(document, "Reasoning"@) {
        let body = document->Object_0["Reasoning"@];
        match (
            record::is_record(body, 2),
            record::text_field(body, "text"@, 0),
            record::optional_text_field(body, "signature"@, 1),
        ) {
            (true, Some(text), Some(signature)) => Some(
                AssistantBlockModel::Reasoning { text, signature },
            ),
            _ => None,
        }
    } else if json::is_only_entry(document, "RedactedReasoning"@) {
        let body = document->Object_0["RedactedReasoning"@];
        match (record::is_record(body, 1), record::text_field(body, "data"@, 0)) {
            (true, Some(data)) => Some(AssistantBlockModel::RedactedReasoning { data }),
            _ => None,
        }
    } else {
        None
    }
}

/// A message as a document.
pub open spec fn encoded_message(message: MessageModel) -> JsonModel {
    match message {
        MessageModel::User { blocks } => single(
            "User"@,
            single(
                "blocks"@,
                JsonModel::Array(
                    blocks.map_values(|block: UserBlockModel| encoded_user_block(block)),
                ),
            ),
        ),
        MessageModel::Assistant { blocks } => single(
            "Assistant"@,
            single(
                "blocks"@,
                JsonModel::Array(
                    blocks.map_values(|block: AssistantBlockModel| encoded_assistant_block(block)),
                ),
            ),
        ),
    }
}

/// The user blocks that a list holds.
pub open spec fn decoded_user_blocks(items: Seq<JsonModel>) -> Option<Seq<UserBlockModel>> {
    record::all_decoded(items, |item: JsonModel| decoded_user_block(item))
}

/// The assistant blocks that a list holds.
pub open spec fn decoded_assistant_blocks(items: Seq<JsonModel>) -> Option<
    Seq<AssistantBlockModel>,
> {
    record::all_decoded(items, |item: JsonModel| decoded_assistant_block(item))
}

/// The message that a document holds.
pub open spec fn decoded_message(document: JsonModel) -> Option<MessageModel> {
    if json::is_only_entry(document, "User"@) {
        let body = document->Object_0["User"@];
        match (record::is_record(body, 1), record::array_field(body, "blocks"@, 0)) {
            (true, Some(items)) => match decoded_user_blocks(items) {
                Some(blocks) => Some(MessageModel::User { blocks }),
                None => None,
            },
            _ => None,
        }
    } else if json::is_only_entry(document, "Assistant"@) {
        let body = document->Object_0["Assistant"@];
        match (record::is_record(body, 1), record::array_field(body, "blocks"@, 0)) {
            (true, Some(items)) => match decoded_assistant_blocks(items) {
                Some(blocks) => Some(MessageModel::Assistant { blocks }),
                None => None,
            },
            _ => None,
        }
    } else {
        None
    }
}

/// A user block without its cache breakpoint.
pub open spec fn kept_user_block(block: UserBlockModel) -> UserBlockModel {
    match block {
        UserBlockModel::Text { text, .. } => UserBlockModel::Text { text, cache_control: None },
        UserBlockModel::ToolResult { call_id, content, .. } => UserBlockModel::ToolResult {
            call_id,
            content,
            cache_control: None,
        },
        UserBlockModel::Image { source, .. } => UserBlockModel::Image {
            source,
            cache_control: None,
        },
        UserBlockModel::Document { source, .. } => UserBlockModel::Document {
            source,
            cache_control: None,
        },
    }
}

/// An assistant block without its cache breakpoint.
pub open spec fn kept_assistant_block(block: AssistantBlockModel) -> AssistantBlockModel {
    match block {
        AssistantBlockModel::Text { text, .. } => AssistantBlockModel::Text {
            text,
            cache_control: None,
        },
        AssistantBlockModel::ToolCall { id, name, args, .. } => AssistantBlockModel::ToolCall {
            id,
            name,
            args,
            cache_control: None,
        },
        other => other,
    }
}

/// A message without its cache breakpoints.
pub open spec fn kept_message(message: MessageModel) -> MessageModel {
    match message {
        MessageModel::User { blocks } => MessageModel::User {
            blocks: blocks.map_values(|block: UserBlockModel| kept_user_block(block)),
        },
        MessageModel::Assistant { blocks } => MessageModel::Assistant {
            blocks: blocks.map_values(|block: AssistantBlockModel| kept_assistant_block(block)),
        },
    }
}

fn tagged(tag: &str) -> (r: Json)
    ensures
        r@ == single("type"@, JsonModel::Text(tag@)),
{
    let mut out = Json::empty_object();
    out.set("type", Json::text(tag));
    out
}

fn singleton(key: &str, value: Json) -> (r: Json)
    ensures
        r@ == single(key@, value@),
{
    let mut out = Json::empty_object();
    out.set(key, value);
    out
}

impl Source {
    /// Writes a source as a document.
    pub fn to_json(&self) -> (r: Json)
        ensures
            r@ == encoded_source(self@),
    {
        match self {
            Source::Base64 { media_type, data } => {
                let mut out = tagged("base64");
                out.set("media_type", Json::Text(media_type.clone()));
                out.set("data", Json::Text(data.clone()));
                out
            },
            Source::Url { url } => {
                let mut out = tagged("url");
                out.set("url", Json::Text(url.clone()));
                out
            },
            Source::FileId { id } => {
                let mut out = tagged("file_id");
                out.set("id", Json::Text(id.clone()));
                out
            },
        }
    }

    /// Reads a source from a document.
    pub fn from_json(document: &Json) -> (r: Option<Source>)
        ensures
            decoded_source(document@) == (match r {
                Some(source) => Some(source@),
                None => None,
            }),
    {
        match text_field_of(document, "type", 0) {
            Some(tag) => {
                let tag = tag.as_str();
                if same_text(tag, "base64") {
                    match (
                        is_record_of(document, 3),
                        text_field_of(document, "media_type", 1),
                        text_field_of(document, "data", 2),
                    ) {
                        (true, Some(media_type), Some(data)) => Some(
                            Source::Base64 { media_type: media_type.clone(), data: data.clone() },
                        ),
                        _ => None,
                    }
                } else if same_text(tag, "url") {
                    match (is_record_of(document, 2), text_field_of(document, "url", 1)) {
                        (true, Some(url)) => Some(Source::Url { url: url.clone() }),
                        _ => None,
                    }
                } else if same_text(tag, "file_id") {
                    match (is_record_of(document, 2), text_field_of(document, "id", 1)) {
                        (true, Some(id)) => Some(Source::FileId { id: id.clone() }),
                        _ => None,
                    }
                } else {
                    None
                }
            },
            None => None,
        }
    }
}

fn source_field_of(document: &Json, place: usize) -> (r: Option<Source>)
    ensures
        source_field(document@, place as int) == (match r {
            Some(source) => Some(source@),
            None => None,
        }),
{
    match field_of(document, "source", place) {
        Some(source) => Source::from_json(source),
        None => None,
    }
}

impl ToolResultBlock {
    /// Writes a block as a document.
    pub fn to_json(&self) -> (r: Json)
        ensures
            r@ == encoded_result_block(self@),
    {
        match self {
            ToolResultBlock::Text { text } => {
                let mut out = tagged("text");
                out.set("text", Json::Text(text.clone()));
                out
            },
            ToolResultBlock::Image { source } => {
                let mut out = tagged("image");
                out.set("source", source.to_json());
                out
            },
        }
    }

    /// Reads a block from a document.
    pub fn from_json(document: &Json) -> (r: Option<ToolResultBlock>)
        ensures
            decoded_result_block(document@) == (match r {
                Some(block) => Some(block@),
                None => None,
            }),
    {
        match text_field_of(document, "type", 0) {
            Some(tag) => {
                let tag = tag.as_str();
                if same_text(tag, "text") {
                    match (is_record_of(document, 2), text_field_of(document, "text", 1)) {
                        (true, Some(text)) => Some(ToolResultBlock::Text { text: text.clone() }),
                        _ => None,
                    }
                } else if same_text(tag, "image") {
                    match (is_record_of(document, 2), source_field_of(document, 1)) {
                        (true, Some(source)) => Some(ToolResultBlock::Image { source }),
                        _ => None,
                    }
                } else {
                    None
                }
            },
            None => None,
        }
    }
}

fn encode_result_blocks(items: &Vec<ToolResultBlock>) -> (r: Json)
    ensures
        r@ == JsonModel::Array(
            items@.map_values(|block: ToolResultBlock| block@).map_values(
                |block: ToolResultBlockModel| encoded_result_block(block),
            ),
        ),
{
    let mut out: Vec<Json> = Vec::new();
    let mut i: usize = 0;
    while i < items.len()
        invariant
            i <= items.len(),
            out@.len() == i,
            forall|k: int| 0 <= k < i ==> (#[trigger] out@[k])@ == encoded_result_block(items@[k]@),
        decreases items.len() - i,
    {
        out.push(items[i].to_json());
        i = i + 1;
    }
    assert(json::models(out@) =~= items@.map_values(|block: ToolResultBlock| block@).map_values(
        |block: ToolResultBlockModel| encoded_result_block(block),
    ));
    Json::array(out)
}

fn decode_result_blocks(items: &Vec<Json>) -> (r: Option<Vec<ToolResultBlock>>)
    ensures
        decoded_result_blocks(json::models(items@)) == (match r {
            Some(blocks) => Some(blocks@.map_values(|block: ToolResultBlock| block@)),
            None => None,
        }),
{
    let ghost all = json::models(items@);
    let mut out: Vec<ToolResultBlock> = Vec::new();
    let mut i: usize = 0;
    while i < items.len()
        invariant
            i <= items.len(),
            all == json::models(items@),
            out@.len() == i,
            forall|k: int|
                0 <= k < i ==> decoded_result_block(#[trigger] all[k]) == Some(out@[k]@),
        decreases items.len() - i,
    {
        assert(all[i as int] == items@[i as int]@);
        match ToolResultBlock::from_json(&items[i]) {
            Some(block) => out.push(block),
            None => {
                assert(decoded_result_block(all[i as int]) is None);
                return None;
            },
        }
        i = i + 1;
    }
    assert(out@.map_values(|block: ToolResultBlock| block@) =~= decoded_result_blocks(all)->0);
    Some(out)
}

impl ToolResultContent {
    /// Writes a reply as a document.
    pub fn to_json(&self) -> (r: Json)
        ensures
            r@ == encoded_result(self@),
    {
        let mut out = singleton("blocks", encode_result_blocks(&self.blocks));
        if self.is_error {
            out.set("is_error", Json::flag(true));
        }
        out
    }

    /// Reads a reply from a document.
    pub fn from_json(document: &Json) -> (r: Option<ToolResultContent>)
        ensures
            decoded_result(document@) == (match r {
                Some(content) => Some(content@),
                None => None,
            }),
    {
        if !(is_record_of(document, 1) || is_record_of(document, 2)) {
            return None;
        }
        let is_error = match field_of(document, "is_error", 1) {
            Some(flag) => flag.as_flag(),
            None => Some(false),
        };
        match (array_field_of(document, "blocks", 0), is_error) {
            (Some(items), Some(is_error)) => match decode_result_blocks(items) {
                Some(blocks) => Some(ToolResultContent { blocks, is_error }),
                None => None,
            },
            _ => None,
        }
    }
}

impl UserBlock {
    /// Writes a block as a document.
    pub fn to_json(&self) -> (r: Json)
        ensures
            r@ == encoded_user_block(self@),
    {
        match self {
            UserBlock::Text { text, .. } => singleton(
                "Text",
                singleton("text", Json::Text(text.clone())),
            ),
            UserBlock::ToolResult { call_id, content, .. } => {
                let mut body = singleton("call_id", Json::Text(call_id.clone()));
                body.set("content", content.to_json());
                singleton("ToolResult", body)
            },
            UserBlock::Image { source, .. } => singleton(
                "Image",
                singleton("source", source.to_json()),
            ),
            UserBlock::Document { source, .. } => singleton(
                "Document",
                singleton("source", source.to_json()),
            ),
        }
    }

    /// Reads a block from a document.
    pub fn from_json(document: &Json) -> (r: Option<UserBlock>)
        ensures
            decoded_user_block(document@) == (match r {
                Some(block) => Some(block@),
                None => None,
            }),
    {
        if let Some(body) = document.only_entry("Text") {
            return match (is_record_of(body, 1), text_field_of(body, "text", 0)) {
                (true, Some(text)) => Some(
                    UserBlock::Text { text: text.clone(), cache_control: None },
                ),
                _ => None,
            };
        }
        if let Some(body) = document.only_entry("ToolResult") {
            let content = match field_of(body, "content", 1) {
                Some(content) => ToolResultContent::from_json(content),
                None => None,
            };
            return match (is_record_of(body, 2), text_field_of(body, "call_id", 0), content) {
                (true, Some(call_id), Some(content)) => Some(
                    UserBlock::ToolResult { call_id: call_id.clone(), content, cache_control: None },
                ),
                _ => None,
            };
        }
        if let Some(body) = document.only_entry("Image") {
            return match (is_record_of(body, 1), source_field_of(body, 0)) {
                (true, Some(source)) => Some(UserBlock::Image { source, cache_control: None }),
                _ => None,
            };
        }
        if let Some(body) = document.only_entry("Document") {
            return match (is_record_of(body, 1), source_field_of(body, 0)) {
                (true, Some(source)) => Some(UserBlock::Document { source, cache_control: None }),
                _ => None,
            };
        }
        None
    }
}

impl AssistantBlock {
    /// Writes a block as a document.
    pub fn to_json(&self) -> (r: Json)
        ensures
            r@ == encoded_assistant_block(self@),
    {
        match self {
            AssistantBlock::Text { text, .. } => singleton(
                "Text",
                singleton("text", Json::Text(text.clone())),
            ),
            AssistantBlock::ToolCall { id, name, args, .. } => {
                let mut body = singleton("id", Json::Text(id.clone()));
                body.set("name", Json::Text(name.clone()));
                body.set("args", args.clone());
                singleton("ToolCall", body)
            },
            AssistantBlock::Reasoning { text, signature } => {
                let mut body = singleton("text", Json::Text(text.clone()));
                body.set(
                    "signature",
                    match signature {
                        Some(signature) => Json::Text(signature.clone()),
                        None => Json::Null,
                    },
                );
                singleton("Reasoning", body)
            },
            AssistantBlock::RedactedReasoning { data } => singleton(
                "RedactedReasoning",
                singleton("data", Json::Text(data.clone())),
            ),
        }
    }

    /// Reads a block from a document.
    pub fn from_json(document: &Json) -> (r: Option<AssistantBlock>)
        ensures
            decoded_assistant_block(document@) == (match r {
                Some(block) => Some(block@),
                None => None,
            }),
    {
        if let Some(body) = document.only_entry("Text") {
            return match (is_record_of(body, 1), text_field_of(body, "text", 0)) {
                (true, Some(text)) => Some(
                    AssistantBlock::Text { text: text.clone(), cache_control: None },
                ),
                _ => None,
            };
        }
        if let Some(body) = document.only_entry("ToolCall") {
            return match (
                is_record_of(body, 3),
                text_field_of(body, "id", 0),
                text_field_of(body, "name", 1),
                field_of(body, "args", 2),
            ) {
                (true, Some(id), Some(name), Some(args)) => Some(
                    AssistantBlock::ToolCall {
                        id: id.clone(),
                        name: name.clone(),
                        args: args.clone(),
                        cache_control: None,
                    },
                ),
                _ => None,
            };
        }
        if let Some(body) = document.only_entry("Reasoning") {
            return match (
                is_record_of(body, 2),
                text_field_of(body, "text", 0),
                optional_text_field_of(body, "signature", 1),
            ) {
                (true, Some(text), Some(signature)) => Some(
                    AssistantBlock::Reasoning { text: text.clone(), signature },
                ),
                _ => None,
            };
        }
        if let Some(body) = document.only_entry("RedactedReasoning") {
            return match (is_record_of(body, 1), text_field_of(body, "data", 0)) {
                (true, Some(data)) => Some(AssistantBlock::RedactedReasoning { data: data.clone() }),
                _ => None,
            };
        }
        None
    }
}

fn encode_user_blocks(items: &Vec<UserBlock>) -> (r: Json)
    ensures
        r@ == JsonModel::Array(
            items@.map_values(|block: UserBlock| block@).map_values(
                |block: UserBlockModel| encoded_user_block(block),
            ),
        ),
{
    let mut out: Vec<Json> = Vec::new();
    let mut i: usize = 0;
    while i < items.len()
        invariant
            i <= items.len(),
            out@.len() == i,
            forall|k: int| 0 <= k < i ==> (#[trigger] out@[k])@ == encoded_user_block(items@[k]@),
        decreases items.len() - i,
    {
        out.push(items[i].to_json());
        i = i + 1;
    }
    assert(json::models(out@) =~= items@.map_values(|block: UserBlock| block@).map_values(
        |block: UserBlockModel| encoded_user_block(block),
    ));
    Json::array(out)
}

fn decode_user_blocks(items: &Vec<Json>) -> (r: Option<Vec<UserBlock>>)
    ensures
        decoded_user_blocks(json::models(items@)) == (match r {
            Some(blocks) => Some(blocks@.map_values(|block: UserBlock| block@)),
            None => None,
        }),
{
    let ghost all = json::models(items@);
    let mut out: Vec<UserBlock> = Vec::new();
    let mut i: usize = 0;
    while i < items.len()
        invariant
            i <= items.len(),
            all == json::models(items@),
            out@.len() == i,
            forall|k: int|
                0 <= k < i ==> decoded_user_block(#[trigger] all[k]) == Some(out@[k]@),
        decreases items.len() - i,
    {
        assert(all[i as int] == items@[i as int]@);
        match UserBlock::from_json(&items[i]) {
            Some(block) => out.push(block),
            None => {
                assert(decoded_user_block(all[i as int]) is None);
                return None;
            },
        }
        i = i + 1;
    }
    assert(out@.map_values(|block: UserBlock| block@) =~= decoded_user_blocks(all)->0);
    Some(out)
}

fn encode_assistant_blocks(items: &Vec<AssistantBlock>) -> (r: Json)
    ensures
        r@ == JsonModel::Array(
            items@.map_values(|block: AssistantBlock| block@).map_values(
                |block: AssistantBlockModel| encoded_assistant_block(block),
            ),
        ),
{
    let mut out: Vec<Json> = Vec::new();
    let mut i: usize = 0;
    while i < items.len()
        invariant
            i <= items.len(),
            out@.len() == i,
            forall|k: int| 0 <= k < i ==> (#[trigger] out@[k])@ == encoded_assistant_block(items@[k]@),
        decreases items.len() - i,
    {
        out.push(items[i].to_json());
        i = i + 1;
    }
    assert(json::models(out@) =~= items@.map_values(|block: AssistantBlock| block@).map_values(
        |block: AssistantBlockModel| encoded_assistant_block(block),
    ));
    Json::array(out)
}

fn decode_assistant_blocks(items: &Vec<Json>) -> (r: Option<Vec<AssistantBlock>>)
    ensures
        decoded_assistant_blocks(json::models(items@)) == (match r {
            Some(blocks) => Some(blocks@.map_values(|block: AssistantBlock| block@)),
            None => None,
        }),
{
    let ghost all = json::models(items@);
    let mut out: Vec<AssistantBlock> = Vec::new();
    let mut i: usize = 0;
    while i < items.len()
        invariant
            i <= items.len(),
            all == json::models(items@),
            out@.len() == i,
            forall|k: int|
                0 <= k < i ==> decoded_assistant_block(#[trigger] all[k]) == Some(out@[k]@),
        decreases items.len() - i,
    {
        assert(all[i as int] == items@[i as int]@);
        match AssistantBlock::from_json(&items[i]) {
            Some(block) => out.push(block),
            None => {
                assert(decoded_assistant_block(all[i as int]) is None);
                return None;
            },
        }
        i = i + 1;
    }
    assert(out@.map_values(|block: AssistantBlock| block@) =~= decoded_assistant_blocks(all)->0);
    Some(out)
}

impl Message {
    /// Writes a message as a document.
    pub fn to_json(&self) -> (r: Json)
        ensures
            r@ == encoded_message(self@),
    {
        match self {
            Message::User { blocks } => singleton(
                "User",
                singleton("blocks", encode_user_blocks(blocks)),
            ),
            Message::Assistant { blocks } => singleton(
                "Assistant",
                singleton("blocks", encode_assistant_blocks(blocks)),
            ),
        }
    }

    /// Reads a message from a document.
    pub fn from_json(document: &Json) -> (r: Option<Message>)
        ensures
            decoded_message(document@) == (match r {
                Some(message) => Some(message@),
                None => None,
            }),
    {
        if let Some(body) = document.only_entry("User") {
            return match (is_record_of(body, 1), array_field_of(body, "blocks", 0)) {
                (true, Some(items)) => match decode_user_blocks(items) {
                    Some(blocks) => Some(Message::User { blocks }),
                    None => None,
                },
                _ => None,
            };
        }
        if let Some(body) = document.only_entry("Assistant") {
            return match (is_record_of(body, 1), array_field_of(body, "blocks", 0)) {
                (true, Some(items)) => match decode_assistant_blocks(items) {
                    Some(blocks) => Some(Message::Assistant { blocks }),
                    None => None,
                },
                _ => None,
            };
        }
        None
    }
}

proof fn lemma_single(key: Seq<char>, value: JsonModel)
    ensures
        json::is_only_entry(single(key, value), key),
        single(key, value)->Object_0[key] == value,
        record::field(single(key, value), key, 0) == Some(value),
        forall|other: Seq<char>|
            json::is_only_entry(single(key, value), other) ==> other == key,
{
    let entries = single(key, value)->Object_0;
    assert(entries.dom() =~= Set::empty().insert(key));
    assert forall|other: Seq<char>| json::is_only_entry(single(key, value), other) implies other
        == key by {
        assert(entries.dom().contains(key));
        assert(Set::empty().insert(other).contains(key));
    }
}

/// A source reads back as it was written.
pub proof fn source_reads_back(source: SourceModel)
    ensures
        decoded_source(encoded_source(source)) == Some(source),
{
    reveal_strlit("type");
    reveal_strlit("base64");
    reveal_strlit("media_type");
    reveal_strlit("data");
    reveal_strlit("url");
    reveal_strlit("file_id");
    reveal_strlit("id");
    assert("type"@[0] == 't' && "data"@[0] == 'd' && "url"@.len() == 3 && "file_id"@.len() == 7);
    let entries = encoded_source(source)->Object_0;
    assert(entries.dom().contains("type"@));
}

proof fn lemma_result_block_reads_back(block: ToolResultBlockModel)
    ensures
        decoded_result_block(encoded_result_block(block)) == Some(block),
{
    reveal_strlit("type");
    reveal_strlit("text");
    reveal_strlit("image");
    reveal_strlit("source");
    assert("type"@[1] == 'y' && "text"@[1] == 'e');
    let entries = encoded_result_block(block)->Object_0;
    assert(entries.dom().contains("type"@));
    if let ToolResultBlockModel::Image { source } = block {
        source_reads_back(source);
    }
}

/// A tool reply reads back as it was written, whether it is a failure or not.
pub proof fn result_reads_back(content: ToolResultModel)
    ensures
        decoded_result(encoded_result(content)) == Some(content),
{
    reveal_strlit("blocks");
    reveal_strlit("is_error");
    assert("blocks"@.len() == 6 && "is_error"@.len() == 8);
    let document = encoded_result(content);
    let entries = document->Object_0;
    let items = content.blocks.map_values(
        |block: ToolResultBlockModel| encoded_result_block(block),
    );
    assert(entries.dom().contains("blocks"@));
    assert(record::array_field(document, "blocks"@, 0) == Some(items));
    assert forall|i: int| 0 <= i < items.len() implies decoded_result_block(#[trigger] items[i])
        == Some(content.blocks[i]) by {
        lemma_result_block_reads_back(content.blocks[i]);
    }
    assert(decoded_result_blocks(items)->0 =~= content.blocks);
}

proof fn lemma_user_block_reads_back(block: UserBlockModel)
    ensures
        decoded_user_block(encoded_user_block(block)) == Some(kept_user_block(block)),
{
    reveal_strlit("Text");
    reveal_strlit("ToolResult");
    reveal_strlit("Image");
    reveal_strlit("Document");
    reveal_strlit("call_id");
    reveal_strlit("content");
    assert("call_id"@[1] == 'a' && "content"@[1] == 'o');
    assert("Text"@.len() == 4 && "ToolResult"@.len() == 10);
    assert("Image"@.len() == 5 && "Document"@.len() == 8);
    match block {
        UserBlockModel::Text { text, .. } => {
            let body = single("text"@, JsonModel::Text(text));
            lemma_single("text"@, JsonModel::Text(text));
            lemma_single("Text"@, body);
            assert(record::is_record(body, 1));
            assert(record::text_field(body, "text"@, 0) == Some(text));
        },
        UserBlockModel::ToolResult { call_id, content, .. } => {
            let body = JsonModel::Object(
                map![
                    "call_id"@ => JsonModel::Text(call_id),
                    "content"@ => encoded_result(content),
                ],
            );
            lemma_single("ToolResult"@, body);
            result_reads_back(content);
            assert(record::field(body, "content"@, 1) == Some(encoded_result(content)));
        },
        UserBlockModel::Image { source, .. } => {
            lemma_single("source"@, encoded_source(source));
            lemma_single("Image"@, single("source"@, encoded_source(source)));
            source_reads_back(source);
        },
        UserBlockModel::Document { source, .. } => {
            lemma_single("source"@, encoded_source(source));
            lemma_single("Document"@, single("source"@, encoded_source(source)));
            source_reads_back(source);
        },
    }
}

proof fn lemma_assistant_block_reads_back(block: AssistantBlockModel)
    ensures
        decoded_assistant_block(encoded_assistant_block(block)) == Some(
            kept_assistant_block(block),
        ),
{
    reveal_strlit("Text");
    reveal_strlit("ToolCall");
    reveal_strlit("Reasoning");
    reveal_strlit("RedactedReasoning");
    reveal_strlit("id");
    reveal_strlit("name");
    reveal_strlit("args");
    reveal_strlit("text");
    reveal_strlit("signature");
    assert("Text"@.len() == 4 && "ToolCall"@.len() == 8);
    assert("Reasoning"@.len() == 9 && "RedactedReasoning"@.len() == 17);
    assert("name"@[0] == 'n' && "args"@[0] == 'a' && "text"@.len() == 4 && "signature"@.len() == 9);
    match block {
        AssistantBlockModel::Text { text, .. } => {
            let body = single("text"@, JsonModel::Text(text));
            lemma_single("text"@, JsonModel::Text(text));
            lemma_single("Text"@, body);
            assert(record::is_record(body, 1));
            assert(record::text_field(body, "text"@, 0) == Some(text));
        },
        AssistantBlockModel::ToolCall { id, name, args, .. } => {
            let body = JsonModel::Object(
                map![
                    "id"@ => JsonModel::Text(id),
                    "name"@ => JsonModel::Text(name),
                    "args"@ => args,
                ],
            );
            lemma_single("ToolCall"@, body);
            assert(record::text_field(body, "id"@, 0) == Some(id));
            assert(record::text_field(body, "name"@, 1) == Some(name));
            assert(record::field(body, "args"@, 2) == Some(args));
        },
        AssistantBlockModel::Reasoning { text, signature } => {
            let body = JsonModel::Object(
                map![
                    "text"@ => JsonModel::Text(text),
                    "signature"@ => encoded_optional_text(signature),
                ],
            );
            lemma_single("Reasoning"@, body);
            assert(record::text_field(body, "text"@, 0) == Some(text));
            assert(record::optional_text_field(body, "signature"@, 1) == Some(signature));
        },
        AssistantBlockModel::RedactedReasoning { data } => {
            lemma_single("data"@, JsonModel::Text(data));
            lemma_single("RedactedReasoning"@, single("data"@, JsonModel::Text(data)));
        },
    }
}

/// A message reads back as it was written, but for its cache breakpoints.
pub proof fn message_reads_back(message: MessageModel)
    ensures
        decoded_message(encoded_message(message)) == Some(kept_message(message)),
{
    reveal_strlit("User");
    reveal_strlit("Assistant");
    assert("User"@.len() == 4 && "Assistant"@.len() == 9);
    match message {
        MessageModel::User { blocks } => {
            let items = blocks.map_values(|block: UserBlockModel| encoded_user_block(block));
            lemma_single("blocks"@, JsonModel::Array(items));
            lemma_single("User"@, single("blocks"@, JsonModel::Array(items)));
            assert forall|i: int| 0 <= i < items.len() implies decoded_user_block(
                #[trigger] items[i],
            ) == Some(kept_user_block(blocks[i])) by {
                lemma_user_block_reads_back(blocks[i]);
            }
            assert(decoded_user_blocks(items)->0 =~= kept_message(message)->User_blocks);
        },
        MessageModel::Assistant { blocks } => {
            let items = blocks.map_values(
                |block: AssistantBlockModel| encoded_assistant_block(block),
            );
            lemma_single("blocks"@, JsonModel::Array(items));
            lemma_single("Assistant"@, single("blocks"@, JsonModel::Array(items)));
            assert forall|i: int| 0 <= i < items.len() implies decoded_assistant_block(
                #[trigger] items[i],
            ) == Some(kept_assistant_block(blocks[i])) by {
                lemma_assistant_block_reads_back(blocks[i]);
            }
            assert(decoded_assistant_blocks(items)->0 =~= kept_message(message)->Assistant_blocks);
        },
    }
}

/// Whether the arguments of a message's tool calls read back exactly within a depth.
pub open spec fn arguments_read_back(message: MessageModel, depth: nat) -> bool {
    match message {
        MessageModel::User { .. } => true,
        MessageModel::Assistant { blocks } => forall|i: int|
            0 <= i < blocks.len() ==> (#[trigger] blocks[i] matches AssistantBlockModel::ToolCall {
                args,
                ..
            } ==> json::reads_back(args, depth)),
    }
}

proof fn lemma_text_record_reads_back(document: JsonModel, depth: nat)
    requires
        document is Object,
        depth >= 1,
        forall|key: Seq<char>| #[trigger]
            document->Object_0.dom().contains(key) ==> document->Object_0[key] is Text
                || document->Object_0[key] is Null,
    ensures
        json::reads_back(document, depth),
{
    let entries = document->Object_0;
    assert forall|key: Seq<char>| entries.dom().contains(key) implies json::reads_back(
        #[trigger] entries[key],
        (depth - 1) as nat,
    ) by {
        assert(document->Object_0.dom().contains(key));
    }
}

proof fn lemma_single_reads_back(key: Seq<char>, value: JsonModel, depth: nat)
    requires
        depth >= 1,
        json::reads_back(value, (depth - 1) as nat),
    ensures
        json::reads_back(single(key, value), depth),
{
}

proof fn lemma_result_text_reads_back(content: ToolResultModel)
    ensures
        json::reads_back(encoded_result(content), 4),
{
    let items = content.blocks.map_values(
        |block: ToolResultBlockModel| encoded_result_block(block),
    );
    assert forall|i: int| 0 <= i < items.len() implies json::reads_back(#[trigger] items[i], 2) by {
        let block = content.blocks[i];
        if let ToolResultBlockModel::Image { source } = block {
            lemma_text_record_reads_back(encoded_source(source), 1);
            let entries = encoded_result_block(block)->Object_0;
            assert forall|key: Seq<char>| entries.dom().contains(key) implies json::reads_back(
                #[trigger] entries[key],
                1,
            ) by {}
        } else {
            lemma_text_record_reads_back(encoded_result_block(block), 2);
        }
    }
    assert(json::reads_back(JsonModel::Array(items), 3));
    let entries = encoded_result(content)->Object_0;
    assert forall|key: Seq<char>| entries.dom().contains(key) implies json::reads_back(
        #[trigger] entries[key],
        3,
    ) by {}
}

proof fn lemma_user_block_text_reads_back(block: UserBlockModel)
    ensures
        json::reads_back(encoded_user_block(block), 6),
{
    match block {
        UserBlockModel::Text { text, .. } => {
            let body = single("text"@, JsonModel::Text(text));
            lemma_single_reads_back("text"@, JsonModel::Text(text), 5);
            lemma_single_reads_back("Text"@, body, 6);
        },
        UserBlockModel::ToolResult { call_id, content, .. } => {
            lemma_result_text_reads_back(content);
            let entries = map![
                "call_id"@ => JsonModel::Text(call_id),
                "content"@ => encoded_result(content),
            ];
            assert forall|key: Seq<char>| entries.dom().contains(key) implies json::reads_back(
                #[trigger] entries[key],
                4,
            ) by {}
            assert(json::reads_back(JsonModel::Object(entries), 5));
            lemma_single_reads_back("ToolResult"@, JsonModel::Object(entries), 6);
        },
        UserBlockModel::Image { source, .. } => {
            lemma_text_record_reads_back(encoded_source(source), 4);
            lemma_single_reads_back("source"@, encoded_source(source), 5);
            lemma_single_reads_back("Image"@, single("source"@, encoded_source(source)), 6);
        },
        UserBlockModel::Document { source, .. } => {
            lemma_text_record_reads_back(encoded_source(source), 4);
            lemma_single_reads_back("source"@, encoded_source(source), 5);
            lemma_single_reads_back("Document"@, single("source"@, encoded_source(source)), 6);
        },
    }
}

proof fn lemma_assistant_block_text_reads_back(block: AssistantBlockModel, depth: nat)
    requires
        depth >= 2,
        block matches AssistantBlockModel::ToolCall { args, .. } ==> json::reads_back(
            args,
            (depth - 2) as nat,
        ),
    ensures
        json::reads_back(encoded_assistant_block(block), depth),
{
    let inner = (depth - 1) as nat;
    match block {
        AssistantBlockModel::Text { text, .. } => {
            lemma_single_reads_back("text"@, JsonModel::Text(text), inner);
            lemma_single_reads_back("Text"@, single("text"@, JsonModel::Text(text)), depth);
        },
        AssistantBlockModel::ToolCall { id, name, args, .. } => {
            let entries = map![
                "id"@ => JsonModel::Text(id),
                "name"@ => JsonModel::Text(name),
                "args"@ => args,
            ];
            assert forall|key: Seq<char>| entries.dom().contains(key) implies json::reads_back(
                #[trigger] entries[key],
                (inner - 1) as nat,
            ) by {}
            assert(json::reads_back(JsonModel::Object(entries), inner));
            lemma_single_reads_back("ToolCall"@, JsonModel::Object(entries), depth);
        },
        AssistantBlockModel::Reasoning { text, signature } => {
            let body = JsonModel::Object(
                map![
                    "text"@ => JsonModel::Text(text),
                    "signature"@ => encoded_optional_text(signature),
                ],
            );
            lemma_text_record_reads_back(body, inner);
            lemma_single_reads_back("Reasoning"@, body, depth);
        },
        AssistantBlockModel::RedactedReasoning { data } => {
            lemma_single_reads_back("data"@, JsonModel::Text(data), inner);
            lemma_single_reads_back(
                "RedactedReasoning"@,
                single("data"@, JsonModel::Text(data)),
                depth,
            );
        },
    }
}

/// The text of a message reads back exactly where the arguments of its tool calls do.
pub proof fn message_text_reads_back(message: MessageModel, depth: nat)
    requires
        depth >= 9,
        arguments_read_back(message, (depth - 5) as nat),
    ensures
        json::reads_back(encoded_message(message), depth),
{
    let inner = (depth - 3) as nat;
    match message {
        MessageModel::User { blocks } => {
            let items = blocks.map_values(|block: UserBlockModel| encoded_user_block(block));
            assert forall|i: int| 0 <= i < items.len() implies json::reads_back(
                #[trigger] items[i],
                inner,
            ) by {
                lemma_user_block_text_reads_back(blocks[i]);
                json::reads_back_deeper(items[i], 6, inner);
            }
            let list = JsonModel::Array(items);
            assert(json::reads_back(list, (depth - 2) as nat));
            lemma_single_reads_back("blocks"@, list, (depth - 1) as nat);
            lemma_single_reads_back("User"@, single("blocks"@, list), depth);
        },
        MessageModel::Assistant { blocks } => {
            let items = blocks.map_values(
                |block: AssistantBlockModel| encoded_assistant_block(block),
            );
            assert forall|i: int| 0 <= i < items.len() implies json::reads_back(
                #[trigger] items[i],
                inner,
            ) by {
                assert(message->Assistant_blocks[i] == blocks[i]);
                lemma_assistant_block_text_reads_back(blocks[i], inner);
            }
            let list = JsonModel::Array(items);
            assert(json::reads_back(list, (depth - 2) as nat));
            lemma_single_reads_back("blocks"@, list, (depth - 1) as nat);
            lemma_single_reads_back("Assistant"@, single("blocks"@, list), depth);
        },
    }
}

} // verus!
