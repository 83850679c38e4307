//! Tools of servers: how they are named and what their answers become.

use vstd::prelude::*;
use vstd::utf8::*;

use super::texts;
use crate::mcp::connection::{self, ServerTool};
use crate::mcp::content::{self, Content};
use crate::mcp::naming;
use crate::mcp::tool::McpTool;
use crate::request::ToolTag;
use crate::text;

verus! {

/// An answer is its blocks in order, one to a line; a text block stands for itself, with nothing
/// added or taken away.
pub proof fn answers_are_their_blocks(content: Seq<Content>, text: String, block: Content)
    ensures
        content::content_text(Content::Text(text)) == text@,
        content::answer_text(Seq::empty()) == Seq::<char>::empty(),
        content::answer_text(seq![block]) == content::content_text(block),
        content.len() > 0 ==> content::answer_text(content.push(block)) == content::answer_text(
            content,
        ).push('\n') + content::content_text(block),
{
    let parts = content.map_values(|b: Content| content::content_text(b));
    let more = content.push(block).map_values(|b: Content| content::content_text(b));
    assert(Seq::<Content>::empty().map_values(|b: Content| content::content_text(b))
        =~= Seq::empty());
    assert(seq![block].map_values(|b: Content| content::content_text(b))[0]
        == content::content_text(block));
    if content.len() > 0 {
        assert(more.drop_last() =~= parts);
        reveal_strlit("\n");
        let lines = text::join_text(parts, "\n"@);
        assert(lines + "\n"@ + content::content_text(block) =~= lines.push('\n')
            + content::content_text(block));
    }
}

/// Data that is no text is named by its kind, its size and its media type, and not shown itself:
/// data of one size and media type look the same. A linked resource is named by its address.
pub proof fn data_is_not_shown(a: String, b: String, mime_type: String, uri: String)
    requires
        encode_utf8(a@).len() == encode_utf8(b@).len(),
    ensures
        content::content_text(Content::Image { data: a, mime_type }) == content::content_text(
            Content::Image { data: b, mime_type },
        ),
        content::content_text(Content::Audio { data: a, mime_type }) == content::content_text(
            Content::Audio { data: b, mime_type },
        ),
        text::has_part(content::content_text(Content::Image { data: a, mime_type }), mime_type@),
        text::has_part(
            content::content_text(Content::Image { data: a, mime_type }),
            text::decimal(encode_utf8(a@).len()),
        ),
        text::has_part(content::content_text(Content::ResourceLink { uri }), uri@),
{
    let size = text::decimal(encode_utf8(a@).len());
    let shown = content::content_text(Content::Image { data: a, mime_type });
    let front = "["@ + "image"@ + ": "@;
    assert(shown =~= (front + size + " base64 chars, "@) + mime_type@ + "]"@);
    texts::parts_are_found(shown, mime_type@, front + size + " base64 chars, "@, "]"@);
    assert(shown =~= front + size + (" base64 chars, "@ + mime_type@ + "]"@));
    texts::parts_are_found(shown, size, front, " base64 chars, "@ + mime_type@ + "]"@);
    texts::parts_are_found(uri@, uri@, "[resource: "@, "]"@);
}

/// A tool is offered under a name of its server and with the server's own name kept for calls, with
/// the server's description, schema and two tags: that it reaches the network, and where it is from.
pub proof fn tools_are_offered(label: Seq<char>, tool: ServerTool, offered: McpTool)
    requires
        connection::offers(label, tool, offered),
    ensures
        offered.name_for_engine@ == naming::composed(label, tool.name@),
        offered.definition.name@ == offered.name_for_engine@,
        offered.name_at_server@ == tool.name@,
        tool.description matches Some(d) ==> offered.definition.description@ == d@,
        tool.description is None ==> offered.definition.description@.len() == 0,
        offered.definition.input_schema == tool.input_schema,
        offered.definition.tags@.len() == 2,
        offered.definition.tags@[0] is Network,
        offered.definition.tags@[1] matches ToolTag::Custom(tag) && tag@ == "mcp"@,
        offered.definition.cache_control is None,
{
}

/// Names are repaired character by character: what may stand in a name stays where it is, and
/// anything else becomes an underscore there.
pub proof fn names_are_repaired_in_place(s: Seq<char>, i: int)
    requires
        0 <= i < s.len(),
    ensures
        naming::sanitized(s).len() == s.len(),
        ({
            let c = s[i];
            let good = 'a' <= c <= 'z' || 'A' <= c <= 'Z' || '0' <= c <= '9' || c == '_' || c == '-';
            naming::sanitized(s)[i] == (if good {
                c
            } else {
                '_'
            })
        }),
        naming::sanitized(naming::sanitized(s)) == naming::sanitized(s),
{
    assert(naming::sanitized(naming::sanitized(s)) =~= naming::sanitized(s));
}

/// A name holds the server's label and the tool's name, repaired. One that is too long keeps its
/// first 59 characters and ends in an underscore and four hexadecimal digits.
pub proof fn names_say_server_and_tool(label: Seq<char>, tool: Seq<char>)
    ensures
        ({
            let full = naming::sanitized("mcp__"@ + label + "__"@ + tool);
            let name = naming::composed(label, tool);
            &&& full.len() <= 64 ==> name == full
            &&& full.len() > 64 ==> {
                &&& name.len() == 64
                &&& name.take(59) == full.take(59)
                &&& name[59] == '_'
                &&& forall|i: int|
                    60 <= i < 64 ==> '0' <= #[trigger] name[i] <= '9' || 'a' <= name[i] <= 'f'
            }
        }),
        naming::sanitized("mcp__"@ + label + "__"@ + tool).len() == label.len() + tool.len() + 7,
{
    reveal_strlit("mcp__");
    reveal_strlit("__");
    assert("mcp__"@.len() == 5);
    assert("__"@.len() == 2);
    let full = naming::sanitized("mcp__"@ + label + "__"@ + tool);
    if full.len() > 64 {
        let name = naming::composed(label, tool);
        let hash = naming::hash_text(full);
        assert(name =~= full.take(59) + seq!['_'] + hash);
        assert(name.take(59) =~= full.take(59));
        assert forall|i: int| 60 <= i < 64 implies '0' <= #[trigger] name[i] <= '9' || 'a'
            <= name[i] <= 'f' by {
            assert(name[i] == hash[i - 60]);
        }
    }
}

/// The number that a hexadecimal digit stands for.
pub open spec fn digit_value(c: char) -> int {
    if '0' <= c <= '9' {
        c as u32 - '0' as u32
    } else {
        c as u32 - 'a' as u32 + 10
    }
}

/// The hash of a name is the 32-bit FNV-1a of its bytes, taken one after the other, and its low 16
/// bits are what the four digits say, the highest first.
pub proof fn hashes_are_fnv(bytes: Seq<u8>, byte: u8, s: Seq<char>)
    ensures
        naming::fnv1a(Seq::empty()) == 0x811c_9dc5,
        naming::fnv1a(bytes.push(byte)) == ((naming::fnv1a(bytes) ^ (byte as u32)) * 0x0100_0193)
            % 0x1_0000_0000,
        ({
            let digits = naming::hash_text(s);
            &&& digits.len() == 4
            &&& digit_value(digits[0]) * 0x1000 + digit_value(digits[1]) * 0x100 + digit_value(
                digits[2],
            ) * 0x10 + digit_value(digits[3]) == naming::fnv1a(encode_utf8(s)) % 0x1_0000
        }),
{
    assert(bytes.push(byte).drop_last() =~= bytes);
    assert(bytes.push(byte).last() == byte);
    let n = naming::fnv1a(encode_utf8(s)) as int % 65536;
    lemma_digit_value(n / 4096 % 16);
    lemma_digit_value(n / 256 % 16);
    lemma_digit_value(n / 16 % 16);
    lemma_digit_value(n % 16);
    lemma_digits_weigh(n);
}

proof fn lemma_digit_value(d: int)
    requires
        0 <= d < 16,
    ensures
        digit_value(text::hex_char(d)) == d,
{
}

proof fn lemma_digits_weigh(n: int)
    requires
        0 <= n < 65536,
    ensures
        n / 4096 % 16 * 4096 + n / 256 % 16 * 256 + n / 16 % 16 * 16 + n % 16 == n,
{
    assert(n / 4096 % 16 == n / 4096);
    assert(n / 256 == n / 4096 * 16 + n / 256 % 16);
    assert(n / 16 == n / 256 * 16 + n / 16 % 16);
    assert(n == n / 16 * 16 + n % 16);
}

} // verus!
