//! Payload formatting.
//!
//! A raw payload that parses as JSON is re-serialized with a pretty, compact
//! formatter (nested values indented, small arrays and objects kept on one
//! line); anything else is returned verbatim. The fallback is silent: plain
//! text and malformed JSON are fully supported payloads.

use vstd::prelude::*;

verus! {

/// Whether a raw payload parses as a JSON value and re-serializes through the
/// compact pretty formatter; a function of the payload text alone.
pub uninterp spec fn json_renders(raw: Seq<char>) -> bool;

/// The pretty, compact serialization of a payload for which `json_renders`
/// holds; a function of the payload text alone.
pub uninterp spec fn json_pretty(raw: Seq<char>) -> Seq<char>;

/// Relies on `serde_json::from_str::<Value>` and on serialization with
/// `json_pretty_compact::PrettyCompactFormatter`: whether the text parses
/// and re-serializes, and the pretty form when it does, depend on the text
/// alone.
#[verifier::external_body]
fn pretty_print_json(raw: &str) -> (r: Option<String>)
    ensures
        r is Some <==> json_renders(raw@),
        r matches Some(p) ==> p@ == json_pretty(raw@),
{
    let value: serde_json::Value = match serde_json::from_str(raw) {
        Ok(v) => v,
        Err(_) => return None,
    };
    let mut buffer = Vec::new();
    let formatter = json_pretty_compact::PrettyCompactFormatter::new();
    let mut ser = serde_json::Serializer::with_formatter(&mut buffer, formatter);
    match serde::ser::Serialize::serialize(&value, &mut ser) {
        Ok(()) => Some(String::from_utf8_lossy(&buffer).into_owned()),
        Err(_) => None,
    }
}

/// What `format_payload` returns: the pretty form of a payload that renders
/// as JSON, the payload itself otherwise.
pub open spec fn spec_format_payload(raw: Seq<char>) -> Seq<char> {
    if json_renders(raw) {
        json_pretty(raw)
    } else {
        raw
    }
}

/// Renders a raw payload: pretty-printed when it parses as JSON, verbatim
/// otherwise.
pub fn format_payload(payload: &str) -> (r: String)
    ensures
        r@ == spec_format_payload(payload@),
{
    match pretty_print_json(payload) {
        Some(p) => p,
        None => payload.to_owned(),
    }
}

/// Law: a payload that does not render as JSON is returned exactly as it
/// came; the fallback never alters the text.
pub proof fn lemma_payload_fallback_verbatim(raw: Seq<char>)
    requires
        !json_renders(raw),
    ensures
        spec_format_payload(raw) == raw,
{
}

} // verus!
