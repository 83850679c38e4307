//! What a server's tool answers, as text for a model.

use vstd::prelude::*;
use vstd::string::*;
use vstd::utf8::*;

use crate::text::{self, decimal_text, join};

verus! {

/// One block of a tool's answer.
#[derive(Debug, Clone)]
pub enum Content {
    Text(String),
    /// A picture in base64.
    Image { data: String, mime_type: String },
    /// A sound in base64.
    Audio { data: String, mime_type: String },
    /// A resource that came with the answer.
    Resource,
    /// A resource that the answer points to.
    ResourceLink { uri: String },
}

/// The placeholder of binary data of some kind.
pub open spec fn data_text(kind: Seq<char>, data: Seq<char>, mime_type: Seq<char>) -> Seq<char> {
    "["@ + kind + ": "@ + text::decimal(encode_utf8(data).len()) + " base64 chars, "@ + mime_type
        + "]"@
}

/// A block as text: text stands for itself, anything else for a short placeholder.
pub open spec fn content_text(block: Content) -> Seq<char> {
    match block {
        Content::Text(text) => text@,
        Content::Image { data, mime_type } => data_text("image"@, data@, mime_type@),
        Content::Audio { data, mime_type } => data_text("audio"@, data@, mime_type@),
        Content::Resource => "[embedded resource]"@,
        Content::ResourceLink { uri } => "[resource: "@ + uri@ + "]"@,
    }
}

/// An answer as text: its blocks on lines of their own.
pub open spec fn answer_text(content: Seq<Content>) -> Seq<char> {
    text::join_text(content.map_values(|block: Content| content_text(block)), "\n"@)
}

fn placeholder(kind: &str, data: &String, mime_type: &String) -> (r: String)
    ensures
        r@ == data_text(kind@, data@, mime_type@),
{
    let mut out = "[".to_owned();
    out.append(kind);
    out.append(": ");
    let size = decimal_text(data.as_str().as_bytes().len() as u64);
    out.append(size.as_str());
    out.append(" base64 chars, ");
    out.append(mime_type.as_str());
    out.append("]");
    out
}

fn block_text(block: &Content) -> (r: String)
    ensures
        r@ == content_text(*block),
{
    match block {
        Content::Text(text) => text.clone(),
        Content::Image { data, mime_type } => placeholder("image", data, mime_type),
        Content::Audio { data, mime_type } => placeholder("audio", data, mime_type),
        Content::Resource => "[embedded resource]".to_owned(),
        Content::ResourceLink { uri } => {
            let mut out = "[resource: ".to_owned();
            out.append(uri.as_str());
            out.append("]");
            out
        },
    }
}

/// Writes an answer as text.
pub fn stringify_content(content: &Vec<Content>) -> (r: String)
    ensures
        r@ == answer_text(content@),
{
    let mut parts: Vec<String> = Vec::new();
    let mut i: usize = 0;
    while i < content.len()
        invariant
            i <= content.len(),
            text::texts(parts@) == content@.take(i as int).map_values(
                |block: Content| content_text(block),
            ),
        decreases content.len() - i,
    {
        let ghost before = parts@;
        parts.push(block_text(&content[i]));
        assert(text::texts(parts@) =~= text::texts(before).push(content_text(content@[i as int])));
        assert(text::texts(parts@) =~= content@.take(i as int + 1).map_values(
            |block: Content| content_text(block),
        ));
        i = i + 1;
    }
    assert(content@.take(i as int) =~= content@);
    join(&parts, "\n")
}

} // verus!
