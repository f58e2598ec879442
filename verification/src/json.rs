//! A generic JSON tree and the trusted bridge to the `serde_json` parser.
//!
//! Upstream error bodies and success envelopes are inspected as untyped
//! trees (their shapes are not contractually stable), so the library owns a
//! small tree type and verified lookups over it; only the act of parsing a
//! text into that tree is delegated to `serde_json`.

use vstd::prelude::*;

verus! {

/// The library's own model of a parsed JSON document. A number keeps its
/// numeral as written; an object keeps its entries in parse order, with
/// distinct keys as the parser hands them out.
pub enum JsonNode {
    Null,
    Bool(bool),
    Number(String),
    Text(String),
    Array(Vec<JsonNode>),
    Object(Vec<(String, JsonNode)>),
}

/// The tree that a given text parses to as JSON, or `None` where the text is
/// not well-formed JSON. Parsing depends on the text alone; the exact
/// relation is the JSON grammar and is left uninterpreted.
pub uninterp spec fn spec_parse_json(s: Seq<char>) -> Option<JsonNode>;

#[verifier::external_type_specification]
#[verifier::external_body]
pub struct ExJsonValue(serde_json::Value);

/// The bridge from `serde_json`'s tree to the library's: one arm per
/// variant, moving fields. It carries no contract of its own; it is the
/// conversion that `parse_json`'s body applies, and `parse_json`'s contract
/// is what the library relies on.
#[verifier::external_body]
fn node_of_value(v: serde_json::Value) -> JsonNode {
    match v {
        serde_json::Value::Null => JsonNode::Null,
        serde_json::Value::Bool(b) => JsonNode::Bool(b),
        serde_json::Value::Number(n) => JsonNode::Number(n.to_string()),
        serde_json::Value::String(s) => JsonNode::Text(s),
        serde_json::Value::Array(a) => JsonNode::Array(
            a.into_iter().map(|e| node_of_value(e)).collect(),
        ),
        serde_json::Value::Object(o) => JsonNode::Object(
            o.into_iter().map(|(k, e)| (k, node_of_value(e))).collect(),
        ),
    }
}

/// Relies on `serde_json::from_str::<serde_json::Value>`: a well-formed JSON
/// text parses to its tree, any other text is rejected, and the outcome
/// depends on the text alone.
#[verifier::external_body]
pub fn parse_json(body: &str) -> (r: Option<JsonNode>)
    ensures
        r == spec_parse_json(body@),
{
    match serde_json::from_str::<serde_json::Value>(body) {
        Ok(v) => Some(node_of_value(v)),
        Err(_) => None,
    }
}

/// The value under `key` in a run of object entries: the first entry whose
/// key matches, searched from index `i` on.
pub open spec fn spec_entries_get_from(
    entries: Seq<(String, JsonNode)>,
    key: Seq<char>,
    i: int,
) -> Option<JsonNode>
    decreases entries.len() - i,
{
    if i < 0 || i >= entries.len() {
        None
    } else if entries[i].0@ == key {
        Some(entries[i].1)
    } else {
        spec_entries_get_from(entries, key, i + 1)
    }
}

/// The value under `key` when `node` is an object that has that key.
pub open spec fn spec_get_field(node: JsonNode, key: Seq<char>) -> Option<JsonNode> {
    match node {
        JsonNode::Object(entries) => spec_entries_get_from(entries@, key, 0),
        _ => None,
    }
}

/// The `i`-th element when `node` is an array of at least `i + 1` elements.
pub open spec fn spec_get_index(node: JsonNode, i: int) -> Option<JsonNode> {
    match node {
        JsonNode::Array(items) => if 0 <= i && i < items@.len() {
            Some(items@[i])
        } else {
            None
        },
        _ => None,
    }
}

/// The character content when `node` is a JSON string.
pub open spec fn spec_as_text(node: JsonNode) -> Option<Seq<char>> {
    match node {
        JsonNode::Text(s) => Some(s@),
        _ => None,
    }
}

/// Looks up `key` in an object node, as `Value::get` does on an object:
/// `None` on any other kind of node or when the key is absent.
pub fn get_field<'a>(node: &'a JsonNode, key: &str) -> (r: Option<&'a JsonNode>)
    ensures
        match r {
            Some(n) => spec_get_field(*node, key@) == Some(*n),
            None => spec_get_field(*node, key@) is None,
        },
{
    match node {
        JsonNode::Object(entries) => {
            let n = entries.len();
            let mut i: usize = 0;
            while i < n
                invariant
                    0 <= i <= n,
                    n == entries@.len(),
                    spec_get_field(*node, key@) == spec_entries_get_from(entries@, key@, i as int),
                    node matches JsonNode::Object(e) && e@ == entries@,
                decreases n - i,
            {
                if crate::text::str_eq(entries[i].0.as_str(), key) {
                    return Some(&entries[i].1);
                }
                i += 1;
            }
            None
        },
        _ => None,
    }
}

/// The `i`-th element of an array node, as `Value::get` does on an array.
pub fn get_index<'a>(node: &'a JsonNode, i: usize) -> (r: Option<&'a JsonNode>)
    ensures
        match r {
            Some(n) => spec_get_index(*node, i as int) == Some(*n),
            None => spec_get_index(*node, i as int) is None,
        },
{
    match node {
        JsonNode::Array(items) => {
            if i < items.len() {
                Some(&items[i])
            } else {
                None
            }
        },
        _ => None,
    }
}

/// The string content of a node, as `Value::as_str` gives it.
pub fn as_text<'a>(node: &'a JsonNode) -> (r: Option<&'a String>)
    ensures
        match r {
            Some(t) => spec_as_text(*node) == Some(t@),
            None => spec_as_text(*node) is None,
        },
{
    match node {
        JsonNode::Text(s) => Some(s),
        _ => None,
    }
}

/// The lower-case hexadecimal digit character for `d` in `0 ..= 15`.
pub open spec fn hex_char(d: int) -> char {
    if d == 0 { '0' }
    else if d == 1 { '1' }
    else if d == 2 { '2' }
    else if d == 3 { '3' }
    else if d == 4 { '4' }
    else if d == 5 { '5' }
    else if d == 6 { '6' }
    else if d == 7 { '7' }
    else if d == 8 { '8' }
    else if d == 9 { '9' }
    else if d == 10 { 'a' }
    else if d == 11 { 'b' }
    else if d == 12 { 'c' }
    else if d == 13 { 'd' }
    else if d == 14 { 'e' }
    else { 'f' }
}

fn hex_of(d: u32) -> (c: char)
    requires
        d < 16,
    ensures
        c == hex_char(d as int),
{
    if d == 0 { '0' }
    else if d == 1 { '1' }
    else if d == 2 { '2' }
    else if d == 3 { '3' }
    else if d == 4 { '4' }
    else if d == 5 { '5' }
    else if d == 6 { '6' }
    else if d == 7 { '7' }
    else if d == 8 { '8' }
    else if d == 9 { '9' }
    else if d == 10 { 'a' }
    else if d == 11 { 'b' }
    else if d == 12 { 'c' }
    else if d == 13 { 'd' }
    else if d == 14 { 'e' }
    else { 'f' }
}

/// How one character appears inside a JSON string literal: the short escapes
/// for quote, backslash and the common control characters, a `\u00..` escape
/// for any other control character, the character itself otherwise.
pub open spec fn escape_char(c: char) -> Seq<char> {
    if c == '"' { seq!['\\', '"'] }
    else if c == '\\' { seq!['\\', '\\'] }
    else if c == '\u{8}' { seq!['\\', 'b'] }
    else if c == '\t' { seq!['\\', 't'] }
    else if c == '\n' { seq!['\\', 'n'] }
    else if c == '\u{C}' { seq!['\\', 'f'] }
    else if c == '\r' { seq!['\\', 'r'] }
    else if (c as u32) < 32 {
        seq!['\\', 'u', '0', '0', hex_char((c as u32) as int / 16), hex_char((c as u32) as int % 16)]
    } else {
        seq![c]
    }
}

/// The body of the JSON string literal denoting `s`, from index `i` on.
pub open spec fn spec_escape_from(s: Seq<char>, i: int) -> Seq<char>
    decreases s.len() - i,
{
    if i < 0 || i >= s.len() {
        Seq::empty()
    } else {
        escape_char(s[i]) + spec_escape_from(s, i + 1)
    }
}

/// The body of the JSON string literal denoting `s`.
pub open spec fn spec_json_escape(s: Seq<char>) -> Seq<char> {
    spec_escape_from(s, 0)
}

fn push_escaped(out: &mut String, c: char)
    ensures
        final(out)@ == old(out)@ + escape_char(c),
{
    if c == '"' {
        crate::text::push_char(out, '\\');
        crate::text::push_char(out, '"');
    } else if c == '\\' {
        crate::text::push_char(out, '\\');
        crate::text::push_char(out, '\\');
    } else if c == '\u{8}' {
        crate::text::push_char(out, '\\');
        crate::text::push_char(out, 'b');
    } else if c == '\t' {
        crate::text::push_char(out, '\\');
        crate::text::push_char(out, 't');
    } else if c == '\n' {
        crate::text::push_char(out, '\\');
        crate::text::push_char(out, 'n');
    } else if c == '\u{C}' {
        crate::text::push_char(out, '\\');
        crate::text::push_char(out, 'f');
    } else if c == '\r' {
        crate::text::push_char(out, '\\');
        crate::text::push_char(out, 'r');
    } else if (c as u32) < 32 {
        let code: u32 = c as u32;
        crate::text::push_char(out, '\\');
        crate::text::push_char(out, 'u');
        crate::text::push_char(out, '0');
        crate::text::push_char(out, '0');
        crate::text::push_char(out, hex_of(code / 16));
        crate::text::push_char(out, hex_of(code % 16));
    } else {
        crate::text::push_char(out, c);
    }
    assert(out@ =~= old(out)@ + escape_char(c));
}

/// Appends the body of the JSON string literal denoting `s` to `out`.
pub fn append_json_escaped(out: &mut String, s: &str)
    ensures
        final(out)@ == old(out)@ + spec_json_escape(s@),
{
    let len = s.unicode_len();
    let mut i: usize = 0;
    while i < len
        invariant
            0 <= i <= len,
            len == s@.len(),
            out@ + spec_escape_from(s@, i as int) == old(out)@ + spec_json_escape(s@),
        decreases len - i,
    {
        let ghost prev = out@;
        push_escaped(out, s.get_char(i));
        proof {
            assert(out@ + spec_escape_from(s@, i + 1) =~= prev + spec_escape_from(s@, i as int));
        }
        i += 1;
    }
    assert(out@ =~= out@ + spec_escape_from(s@, len as int));
}

/// Whether `node` is an array, as `Value::is_array` reports it.
pub fn is_array_node(node: &JsonNode) -> (r: bool)
    ensures
        r == (node matches JsonNode::Array(_)),
{
    match node {
        JsonNode::Array(_) => true,
        _ => false,
    }
}

} // verus!
