//! The trusted boundary to serde_json: message bodies are parsed or wrapped
//! and re-rendered in compact form before they reach the message cache. The
//! renderings are named, not spelled out; each depends on the input text
//! alone.

use vstd::prelude::*;

verus! {

/// The compact rendering of `s` parsed as JSON; nothing when `s` is not
/// valid JSON.
pub uninterp spec fn json_normalized(s: Seq<char>) -> Option<Seq<char>>;

/// The compact rendering of the one-entry object mapping "text" to `s`.
pub uninterp spec fn json_text_body(s: Seq<char>) -> Seq<char>;

/// The compact rendering of the one-entry object mapping "raw" to `s`.
pub uninterp spec fn json_raw_body(s: Seq<char>) -> Seq<char>;

/// Relies on serde_json::from_str and serde_json::Value's compact
/// rendering: `s` parsed and rendered back, or nothing when `s` is not
/// valid JSON. Both depend on the text alone.
#[verifier::external_body]
pub fn normalize_json(s: &str) -> (r: Option<String>)
    ensures
        match r {
            Some(t) => json_normalized(s@) == Some(t@),
            None => json_normalized(s@) is None,
        },
{
    match serde_json::from_str::<serde_json::Value>(s) {
        Ok(v) => Some(v.to_string()),
        Err(_) => None,
    }
}

/// Relies on serde_json::Value's compact rendering of the object built as
/// {"text": s}; the result depends on `s` alone.
#[verifier::external_body]
pub fn render_text_body(s: &str) -> (r: String)
    ensures
        r@ == json_text_body(s@),
{
    let mut m = serde_json::Map::new();
    m.insert("text".to_string(), serde_json::Value::String(s.to_string()));
    serde_json::Value::Object(m).to_string()
}

/// Relies on serde_json::Value's compact rendering of the object built as
/// {"raw": s}; the result depends on `s` alone.
#[verifier::external_body]
pub fn render_raw_body(s: &str) -> (r: String)
    ensures
        r@ == json_raw_body(s@),
{
    let mut m = serde_json::Map::new();
    m.insert("raw".to_string(), serde_json::Value::String(s.to_string()));
    serde_json::Value::Object(m).to_string()
}

} // verus!
