use vstd::prelude::*;

verus! {

/// The string field `key` of the JSON document `doc`, as serde_json reads it:
/// `None` when `doc` is not JSON, `Some(None)` when the document has no field
/// `key` holding a string, `Some(Some(v))` when it holds the string `v`.
pub uninterp spec fn json_str_field(doc: Seq<char>, key: Seq<char>) -> Option<Option<Seq<char>>>;

/// The JSON string literal that serde_json writes for a text: quoted and escaped.
pub uninterp spec fn json_quoted(s: Seq<char>) -> Seq<char>;

/// The texts of a field read, as mathematical sequences.
pub open spec fn field_view(r: Option<Option<String>>) -> Option<Option<Seq<char>>> {
    match r {
        Some(Some(v)) => Some(Some(v@)),
        Some(None) => Some(None),
        None => None,
    }
}

/// Relies on `serde_json::from_str` into a `serde_json::Value`, then
/// `Value::get(key)` and `Value::as_str`: parses `doc` and reads its string field.
#[verifier::external_body]
pub(crate) fn read_str_field(doc: &str, key: &str) -> (r: Option<Option<String>>)
    ensures
        field_view(r) == json_str_field(doc@, key@),
{
    match serde_json::from_str::<serde_json::Value>(doc) {
        Ok(v) => Some(v.get(key).and_then(|f| f.as_str()).map(|f| f.to_string())),
        Err(_) => None,
    }
}

/// Relies on `serde_json::Value::String` and its `Display`, which writes the
/// value as a JSON string literal.
#[verifier::external_body]
pub(crate) fn quote_json(s: &str) -> (r: String)
    ensures
        r@ == json_quoted(s@),
{
    serde_json::Value::String(s.to_string()).to_string()
}

} // verus!
