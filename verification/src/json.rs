//! The two JSON operations the catalogue needs from `serde_json`: reading a string member
//! of an object, and writing an object of one string member.
use vstd::prelude::*;
use crate::folders::opt_view;

verus! {

/// The string member `key` of the JSON object written in `text`: `None` when `text` is
/// not JSON, is not an object, has no member `key`, or that member is not a string.
pub uninterp spec fn json_str_field(text: Seq<char>, key: Seq<char>) -> Option<Seq<char>>;

/// `serde_json::from_str::<serde_json::Value>(text)`, then the member `key` read with
/// `Value::get` and `Value::as_str`. The parse is a function of the text alone; its
/// result is named `json_str_field`, not spelled out.
#[verifier::external_body]
pub(crate) fn json_str_field_of(text: &str, key: &str) -> (r: Option<String>)
    ensures
        opt_view(r) == json_str_field(text@, key@),
{
    let v: serde_json::Value = serde_json::from_str(text).ok()?;
    v.get(key)?.as_str().map(|s| s.to_string())
}

/// The text that `serde_json::to_string_pretty` writes for an object whose one member
/// `key` holds the string `value`.
pub uninterp spec fn json_object(key: Seq<char>, value: Seq<char>) -> Seq<char>;

/// `serde_json::to_string_pretty` of the object `{key: value}`, built as a
/// `serde_json::Value`. Serializing a `Value` into memory does not fail (the error arm
/// is never taken). The text is named `json_object`, not spelled out; what is stated of
/// it is that reading its member `key` back gives `value`, since the serializer escapes
/// every character that the parser unescapes.
#[verifier::external_body]
pub(crate) fn json_object_of(key: &str, value: &str) -> (r: String)
    ensures
        r@ == json_object(key@, value@),
        json_str_field(r@, key@) == Some(value@),
{
    let mut m = serde_json::Map::new();
    m.insert(key.to_string(), serde_json::Value::String(value.to_string()));
    serde_json::to_string_pretty(&serde_json::Value::Object(m)).unwrap_or_default()
}

} // verus!
