//! The JSON boundary: trusted readers over `serde_json`.
//!
//! Incoming datagrams are arbitrary JSON from the devices, so they are parsed
//! by `serde_json`, not by the library. Each reader below extracts one thing
//! the core logic needs, as a plain value; what it returns is given a name
//! (an uninterpreted function of the input text), and the verified logic is
//! stated over those names.

use vstd::prelude::*;

verus! {

/// The characters the bytes decode to under UTF-8, if they are valid UTF-8.
pub uninterp spec fn utf8_text(data: Seq<u8>) -> Option<Seq<char>>;

/// Whether the text parses as one JSON value.
pub uninterp spec fn json_ok(text: Seq<char>) -> bool;

/// The string under the top-level `method` key, if the text parses as a JSON
/// object with one.
pub uninterp spec fn json_method_of(text: Seq<char>) -> Option<Seq<char>>;

/// The string under `params.mac`, if the text parses as a JSON object
/// with one.
pub uninterp spec fn json_params_mac_of(text: Seq<char>) -> Option<Seq<char>>;

/// The top-level `params` value re-rendered as JSON text (`null` when the
/// object has no `params`), if the text parses at all.
pub uninterp spec fn json_params_text_of(text: Seq<char>) -> Option<Seq<char>>;

/// The string under `result.mac`, if the text parses as a JSON object
/// with one.
pub uninterp spec fn json_result_mac_of(text: Seq<char>) -> Option<Seq<char>>;

/// Relies on std's `String::from_utf8`: returns the string the bytes encode
/// when they are valid UTF-8, and the rendered error otherwise.
#[verifier::external_body]
pub(crate) fn bytes_to_text(data: Vec<u8>) -> (r: Result<String, String>)
    ensures
        match r {
            Ok(t) => utf8_text(data@) == Some(t@),
            Err(_) => utf8_text(data@) is None,
        },
{
    String::from_utf8(data).map_err(|e| e.to_string())
}

/// Relies on `serde_json::from_str::<Value>`: succeeds exactly when the text
/// is one well-formed JSON value, and renders the parse error otherwise.
#[verifier::external_body]
pub(crate) fn json_check(text: &str) -> (r: Result<(), String>)
    ensures
        (r is Ok) == json_ok(text@),
{
    match serde_json::from_str::<serde_json::Value>(text) {
        Ok(_) => Ok(()),
        Err(e) => Err(e.to_string()),
    }
}

/// Relies on `serde_json::from_str::<Value>`, `Value::get` and
/// `Value::as_str`: the top-level `method` string of the parsed object,
/// `None` when the text does not parse or carries none.
#[verifier::external_body]
pub(crate) fn json_method(text: &str) -> (r: Option<String>)
    ensures
        match r {
            Some(m) => json_method_of(text@) == Some(m@),
            None => json_method_of(text@) is None,
        },
{
    let value: serde_json::Value = serde_json::from_str(text).ok()?;
    Some(value.get("method")?.as_str()?.to_string())
}

/// Relies on `serde_json::from_str::<Value>`, `Value::get` and
/// `Value::as_str`: the `params.mac` string of the parsed object, `None`
/// when the text does not parse or carries none.
#[verifier::external_body]
pub(crate) fn json_params_mac(text: &str) -> (r: Option<String>)
    ensures
        match r {
            Some(m) => json_params_mac_of(text@) == Some(m@),
            None => json_params_mac_of(text@) is None,
        },
{
    let value: serde_json::Value = serde_json::from_str(text).ok()?;
    Some(value.get("params")?.get("mac")?.as_str()?.to_string())
}

/// Relies on `serde_json::from_str::<Value>`, `Value::get` and
/// `serde_json::to_string`: the top-level `params` value rendered back to
/// JSON text, a JSON `null` when the object has none, and `None` when the
/// text does not parse.
#[verifier::external_body]
pub(crate) fn json_params_value(text: &str) -> (r: Option<String>)
    ensures
        match r {
            Some(p) => json_params_text_of(text@) == Some(p@),
            None => json_params_text_of(text@) is None,
        },
{
    let value: serde_json::Value = serde_json::from_str(text).ok()?;
    let params = value.get("params").cloned().unwrap_or(serde_json::Value::Null);
    serde_json::to_string(&params).ok()
}

/// Relies on `serde_json::from_str::<Value>`, `Value::get` and
/// `Value::as_str`: the `result.mac` string of the parsed object, `None`
/// when the text does not parse or carries none.
#[verifier::external_body]
pub(crate) fn json_result_mac(text: &str) -> (r: Option<String>)
    ensures
        match r {
            Some(m) => json_result_mac_of(text@) == Some(m@),
            None => json_result_mac_of(text@) is None,
        },
{
    let value: serde_json::Value = serde_json::from_str(text).ok()?;
    Some(value.get("result")?.get("mac")?.as_str()?.to_string())
}

} // verus!
