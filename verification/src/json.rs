//! Trusted boundary to the JSON parser, and the library's own model of a
//! parsed document. The remote control plane answers with JSON text;
//! `serde_json` parses it, and the one trusted conversion reads the parsed
//! value, variant by variant, into the `JsonNode` tree that the verified
//! decoders in `envelope` work on. What the parser yields on a given text
//! is named `parse_of`: a function of the text alone.

use vstd::prelude::*;
use vstd::string::StringExecFns;

verus! {

/// A parsed JSON document, holding what the decoders read: integer
/// numbers, strings, booleans, arrays and objects. A number that does not
/// fit a signed 64-bit integer (a float, or a larger unsigned value) is
/// kept only as `OtherNum`, since no decoder reads such a value.
#[derive(Debug)]
pub enum JsonNode {
    Null,
    Bool(bool),
    /// A number readable as a signed 64-bit integer.
    Int(i64),
    /// A number readable as no signed 64-bit integer.
    OtherNum,
    Text(String),
    Array(Vec<JsonNode>),
    /// Object members in the parser's order; the parser's map keeps keys
    /// unique.
    Object(Vec<JsonMember>),
}

/// One member of a JSON object.
#[derive(Debug)]
pub struct JsonMember {
    pub key: String,
    pub value: JsonNode,
}

/// What the JSON parser yields on a text: nothing when the text is not
/// valid JSON, else the document tree.
pub uninterp spec fn parse_of(s: Seq<char>) -> Option<JsonNode>;

#[verifier::external_type_specification]
#[verifier::external_body]
pub struct ExValue(serde_json::Value);

/// Relies on serde_json::from_str: whether a text parses, and what it
/// parses to, depend on the text alone.
#[verifier::external_body]
pub fn parse_json(s: &str) -> (r: Option<JsonNode>)
    ensures
        r == parse_of(s@),
{
    serde_json::from_str::<serde_json::Value>(s).ok().map(convert)
}

/// Relies on serde_json::Value: reads each variant into the library's
/// tree, one arm each, and on serde_json::Number::as_i64 for the integer
/// reading of a number.
#[verifier::external_body]
fn convert(v: serde_json::Value) -> JsonNode {
    match v {
        serde_json::Value::Null => JsonNode::Null,
        serde_json::Value::Bool(b) => JsonNode::Bool(b),
        serde_json::Value::Number(n) => n.as_i64().map(JsonNode::Int).unwrap_or(
            JsonNode::OtherNum,
        ),
        serde_json::Value::String(t) => JsonNode::Text(t),
        serde_json::Value::Array(a) => JsonNode::Array(a.into_iter().map(convert).collect()),
        serde_json::Value::Object(m) => JsonNode::Object(
            m.into_iter().map(|(k, w)| JsonMember { key: k, value: convert(w) }).collect(),
        ),
    }
}

/// The member under a key among an object's members: the first pair that
/// carries it (the parser keeps keys unique).
pub open spec fn spec_member(members: Seq<JsonMember>, key: Seq<char>) -> Option<JsonNode>
    decreases members.len(),
{
    if members.len() == 0 {
        None
    } else if members[0].key@ == key {
        Some(members[0].value)
    } else {
        spec_member(members.drop_first(), key)
    }
}

/// The member of a document under a key; nothing when the document is not
/// an object or the key is absent.
pub open spec fn spec_field(doc: JsonNode, key: Seq<char>) -> Option<JsonNode> {
    match doc {
        JsonNode::Object(members) => spec_member(members@, key),
        _ => None,
    }
}

/// Looks a key up among an object's members.
fn get_member<'a>(members: &'a Vec<JsonMember>, key: &str) -> (r: Option<&'a JsonNode>)
    ensures
        match r {
            Some(n) => spec_member(members@, key@) == Some(*n),
            None => spec_member(members@, key@) is None,
        },
{
    let k = String::from_str(key);
    let n = members.len();
    let mut i: usize = 0;
    proof {
        assert(members@.skip(0) =~= members@);
    }
    while i < n
        invariant
            i <= n,
            n == members@.len(),
            k@ == key@,
            spec_member(members@.skip(i as int), key@) == spec_member(members@, key@),
        decreases n - i,
    {
        proof {
            assert(members@.skip(i as int)[0] == members@[i as int]);
            assert(members@.skip(i as int).drop_first() =~= members@.skip(i + 1));
        }
        if members[i].key == k {
            return Some(&members[i].value);
        }
        i = i + 1;
    }
    proof {
        assert(members@.skip(n as int) =~= Seq::<JsonMember>::empty());
    }
    None
}

/// The member of a document under a key.
pub fn field_node<'a>(doc: &'a JsonNode, key: &str) -> (r: Option<&'a JsonNode>)
    ensures
        match r {
            Some(n) => spec_field(*doc, key@) == Some(*n),
            None => spec_field(*doc, key@) is None,
        },
{
    match doc {
        JsonNode::Object(members) => get_member(members, key),
        _ => None,
    }
}

} // verus!
