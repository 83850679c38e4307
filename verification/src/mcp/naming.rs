//! Names under which a server's tools are offered to a model.
//!
//! A tool is called `mcp__<server>__<tool>`, so that tools of several servers can stand side by
//! side. Providers accept names of up to 64 letters, digits, `_` and `-`: other characters become
//! `_`, and a name that is too long is cut and ends in a hash of the whole.

use vstd::prelude::*;
use vstd::string::*;
use vstd::utf8::*;

use crate::text::{self, chars_of, text_of};

verus! {

/// Longest name that providers accept.
pub const MAX_TOOL_NAME_LEN: usize = 64;

/// Whether a character may stand in a tool name.
pub open spec fn name_char(c: char) -> bool {
    ||| 'a' <= c <= 'z'
    ||| 'A' <= c <= 'Z'
    ||| '0' <= c <= '9'
    ||| c == '_'
    ||| c == '-'
}

/// Whether all characters of a text may stand in a tool name.
pub open spec fn name_chars(s: Seq<char>) -> bool {
    forall|i: int| 0 <= i < s.len() ==> name_char(#[trigger] s[i])
}

/// A text with `_` for each character that may not stand in a tool name.
pub open spec fn sanitized(s: Seq<char>) -> Seq<char> {
    s.map_values(
        |c: char|
            if name_char(c) {
                c
            } else {
                '_'
            },
    )
}

/// FNV-1a with 32 bits.
pub open spec fn fnv1a(bytes: Seq<u8>) -> u32
    decreases bytes.len(),
{
    if bytes.len() == 0 {
        2_166_136_261
    } else {
        (((fnv1a(bytes.drop_last()) ^ (bytes.last() as u32)) * 16_777_619) % 0x1_0000_0000) as u32
    }
}

/// The four hexadecimal digits of a number below 65536.
pub open spec fn hex4(n: int) -> Seq<char> {
    seq![
        text::hex_char(n / 4096 % 16),
        text::hex_char(n / 256 % 16),
        text::hex_char(n / 16 % 16),
        text::hex_char(n % 16),
    ]
}

/// The low 16 bits of a text's hash in hexadecimal.
pub open spec fn hash_text(s: Seq<char>) -> Seq<char> {
    hex4(fnv1a(encode_utf8(s)) as int % 65536)
}

/// A text cut to `max` characters, the last five of which are `_` and its hash.
pub open spec fn cut_with_hash(s: Seq<char>, max: int) -> Seq<char> {
    let head = if max - 5 <= s.len() {
        max - 5
    } else {
        s.len() as int
    };
    s.take(head) + seq!['_'] + hash_text(s)
}

/// The name of a server's tool before it is made acceptable.
pub open spec fn raw_name(server_label: Seq<char>, tool_name: Seq<char>) -> Seq<char> {
    "mcp__"@ + server_label + "__"@ + tool_name
}

/// The name of a server's tool.
pub open spec fn composed(server_label: Seq<char>, tool_name: Seq<char>) -> Seq<char> {
    let name = sanitized(raw_name(server_label, tool_name));
    if name.len() <= MAX_TOOL_NAME_LEN {
        name
    } else {
        cut_with_hash(name, MAX_TOOL_NAME_LEN as int)
    }
}

/// Replaces what may not stand in a tool name.
pub fn sanitize(s: &str) -> (r: String)
    ensures
        r@ == sanitized(s@),
{
    let mut out = String::new();
    for c in it: s.chars()
        invariant
            it.seq() == s@,
            out@ == sanitized(s@.take(it.index() as int)),
    {
        assert(sanitized(s@.take(it.index() as int + 1)) =~= sanitized(
            s@.take(it.index() as int),
        ).push(
            if name_char(c) {
                c
            } else {
                '_'
            },
        ));
        if ('a' <= c && c <= 'z') || ('A' <= c && c <= 'Z') || ('0' <= c && c <= '9') || c == '_'
            || c == '-' {
            out.push(c);
        } else {
            out.push('_');
        }
    }
    assert(s@.take(s@.len() as int) =~= s@);
    out
}

fn hex_digit(d: u32) -> (c: char)
    requires
        d < 16,
    ensures
        c == text::hex_char(d as int),
{
    if d < 10 {
        (48u8 + d as u8) as char
    } else {
        (87u8 + d as u8) as char
    }
}

/// The low 16 bits of a text's hash in hexadecimal.
pub fn short_hash(s: &str) -> (r: String)
    ensures
        r@ == hash_text(s@),
{
    let bytes = s.as_bytes();
    let mut hash: u32 = 2_166_136_261;
    let mut i: usize = 0;
    while i < bytes.len()
        invariant
            bytes@ == encode_utf8(s@),
            i <= bytes@.len(),
            hash == fnv1a(bytes@.take(i as int)),
        decreases bytes.len() - i,
    {
        assert(bytes@.take(i as int + 1).drop_last() =~= bytes@.take(i as int));
        hash = hash ^ (bytes[i] as u32);
        hash = hash.wrapping_mul(16_777_619);
        i = i + 1;
    }
    assert(bytes@.take(i as int) =~= bytes@);
    let low: u32 = hash % 65536;
    let mut out = String::new();
    out.push(hex_digit(low / 4096 % 16));
    out.push(hex_digit(low / 256 % 16));
    out.push(hex_digit(low / 16 % 16));
    out.push(hex_digit(low % 16));
    assert(out@ =~= hex4(low as int));
    out
}

/// Cuts a text to `max` characters, the last five of which are `_` and its hash.
pub fn truncate_with_hash(s: &str, max: usize) -> (r: String)
    requires
        max >= 5,
    ensures
        r@ == cut_with_hash(s@, max as int),
{
    let chars = chars_of(s);
    let head: usize = if max - 5 <= chars.len() {
        max - 5
    } else {
        chars.len()
    };
    let mut out = text_of(&chars, 0, head);
    out.push('_');
    let hash = short_hash(s);
    out.append(hash.as_str());
    assert(out@ =~= cut_with_hash(s@, max as int));
    out
}

/// The name under which a server's tool is offered.
pub fn compose(server_label: &str, tool_name: &str) -> (r: String)
    ensures
        r@ == composed(server_label@, tool_name@),
{
    let mut raw = "mcp__".to_owned();
    raw.append(server_label);
    raw.append("__");
    raw.append(tool_name);
    let name = sanitize(raw.as_str());
    if chars_of(name.as_str()).len() <= MAX_TOOL_NAME_LEN {
        name
    } else {
        truncate_with_hash(name.as_str(), MAX_TOOL_NAME_LEN)
    }
}

/// Every name is one that providers accept: from 1 to 64 letters, digits, `_` and `-`, and all
/// names of server tools begin with `mcp__`.
pub proof fn names_are_accepted(server_label: Seq<char>, tool_name: Seq<char>)
    ensures
        1 <= composed(server_label, tool_name).len() <= MAX_TOOL_NAME_LEN,
        name_chars(composed(server_label, tool_name)),
        composed(server_label, tool_name).take(5) == "mcp__"@,
{
    reveal_strlit("mcp__");
    let raw = raw_name(server_label, tool_name);
    let name = sanitized(raw);
    assert(raw.take(5) =~= "mcp__"@);
    assert(name.take(5) =~= "mcp__"@) by {
        assert forall|i: int| 0 <= i < 5 implies name[i] == raw[i] && raw[i] == "mcp__"@[i] by {
            assert(raw[i] == raw.take(5)[i]);
        }
    }
    let r = composed(server_label, tool_name);
    assert(r.take(5) =~= name.take(5));
}

/// A name that is acceptable as it is stays as it is.
pub proof fn good_names_are_kept(server_label: Seq<char>, tool_name: Seq<char>)
    requires
        name_chars(raw_name(server_label, tool_name)),
        raw_name(server_label, tool_name).len() <= MAX_TOOL_NAME_LEN,
    ensures
        composed(server_label, tool_name) == raw_name(server_label, tool_name),
{
    assert(sanitized(raw_name(server_label, tool_name)) =~= raw_name(server_label, tool_name));
}

/// Tools of one server whose names need no repair never share a name.
pub proof fn good_names_do_not_collide(
    server_label: Seq<char>,
    tool_name: Seq<char>,
    other: Seq<char>,
)
    requires
        name_chars(raw_name(server_label, tool_name)),
        raw_name(server_label, tool_name).len() <= MAX_TOOL_NAME_LEN,
        name_chars(raw_name(server_label, other)),
        raw_name(server_label, other).len() <= MAX_TOOL_NAME_LEN,
        tool_name != other,
    ensures
        composed(server_label, tool_name) != composed(server_label, other),
{
    good_names_are_kept(server_label, tool_name);
    good_names_are_kept(server_label, other);
    let front = "mcp__"@ + server_label + "__"@;
    let a = raw_name(server_label, tool_name);
    let b = raw_name(server_label, other);
    if a == b {
        assert(tool_name =~= a.subrange(front.len() as int, a.len() as int));
        assert(other =~= b.subrange(front.len() as int, b.len() as int));
    }
}

proof fn lemma_hex_char_injective(a: int, b: int)
    requires
        0 <= a < 16,
        0 <= b < 16,
        text::hex_char(a) == text::hex_char(b),
    ensures
        a == b,
{
    assert(text::hex_char(a) as int == if a < 10 {
        48 + a
    } else {
        87 + a
    });
    assert(text::hex_char(b) as int == if b < 10 {
        48 + b
    } else {
        87 + b
    });
}

proof fn lemma_digits(n: int)
    requires
        0 <= n < 65536,
    ensures
        n == 4096 * (n / 4096 % 16) + 256 * (n / 256 % 16) + 16 * (n / 16 % 16) + n % 16,
{
    let a = n / 16;
    let b = a / 16;
    let c = b / 16;
    assert(n / 256 == b);
    assert(n / 4096 == c);
    assert(c < 16);
    assert(c % 16 == c);
    assert(n == 16 * a + n % 16);
    assert(a == 16 * b + a % 16);
    assert(b == 16 * c + b % 16);
}

proof fn lemma_hex4_injective(m: int, n: int)
    requires
        0 <= m < 65536,
        0 <= n < 65536,
        hex4(m) == hex4(n),
    ensures
        m == n,
{
    assert(m / 4096 % 16 == n / 4096 % 16) by {
        assert(hex4(m)[0] == hex4(n)[0]);
        lemma_hex_char_injective(m / 4096 % 16, n / 4096 % 16);
    }
    assert(m / 256 % 16 == n / 256 % 16) by {
        assert(hex4(m)[1] == hex4(n)[1]);
        lemma_hex_char_injective(m / 256 % 16, n / 256 % 16);
    }
    assert(m / 16 % 16 == n / 16 % 16) by {
        assert(hex4(m)[2] == hex4(n)[2]);
        lemma_hex_char_injective(m / 16 % 16, n / 16 % 16);
    }
    assert(m % 16 == n % 16) by {
        assert(hex4(m)[3] == hex4(n)[3]);
        lemma_hex_char_injective(m % 16, n % 16);
    }
    lemma_digits(m);
    lemma_digits(n);
}

/// Names that were cut are told apart by their hashes: two of them are the same only where the
/// low 16 bits of the hashes of the whole names are, and their beginnings.
pub proof fn cut_names_differ_by_hash(a: Seq<char>, b: Seq<char>)
    requires
        a.len() > MAX_TOOL_NAME_LEN,
        b.len() > MAX_TOOL_NAME_LEN,
    ensures
        cut_with_hash(a, MAX_TOOL_NAME_LEN as int) == cut_with_hash(b, MAX_TOOL_NAME_LEN as int)
            <==> a.take(59) == b.take(59) && fnv1a(encode_utf8(a)) % 65536 == fnv1a(encode_utf8(b))
            % 65536,
{
    let x = cut_with_hash(a, MAX_TOOL_NAME_LEN as int);
    let y = cut_with_hash(b, MAX_TOOL_NAME_LEN as int);
    let m = fnv1a(encode_utf8(a)) as int % 65536;
    let n = fnv1a(encode_utf8(b)) as int % 65536;
    assert(x == a.take(59) + seq!['_'] + hex4(m));
    assert(y == b.take(59) + seq!['_'] + hex4(n));
    if x == y {
        assert(a.take(59) =~= x.take(59));
        assert(b.take(59) =~= y.take(59));
        assert(hex4(m) =~= x.subrange(60, 64));
        assert(hex4(n) =~= y.subrange(60, 64));
        lemma_hex4_injective(m, n);
    }
}

} // verus!
