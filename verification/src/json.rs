use vstd::prelude::*;

verus! {

/// A parsed JSON document as plain values, so that the shape checks
/// and field reads downstream are ordinary verified code. Object
/// members come in the order the parser hands them out, with keys
/// unique (the parser merges duplicated member names, the last value
/// standing). A number is kept only as far as the catalog needs it:
/// either an unsigned integer in range, or the bare fact that some
/// other number stood there.
pub enum Json {
    Null,
    Bool(bool),
    UInt(u64),
    OtherNum,
    Str(String),
    Array(Vec<Json>),
    Object(Vec<(String, Json)>),
}

/// The document the parser builds from the text: None when the text is
/// refused, Some of the tree when it is accepted. The parser's verdict
/// and the tree are functions of the text alone, which is all this
/// name claims; nothing else is assumed of it.
pub uninterp spec fn json_doc_of(s: Seq<char>) -> Option<Json>;

#[verifier::external_type_specification]
#[verifier::external_body]
pub struct ExValue(serde_json::Value);

/// Rebuilds a parsed value as the library's own tree, one arm per
/// variant of the parser's value type, moving the fields over. Part of
/// the parse boundary below.
#[verifier::external_body]
fn tree_of_value(v: &serde_json::Value) -> Json {
    match v {
        serde_json::Value::Null => Json::Null,
        serde_json::Value::Bool(b) => Json::Bool(*b),
        serde_json::Value::Number(n) => match n.as_u64() {
            Some(u) => Json::UInt(u),
            None => Json::OtherNum,
        },
        serde_json::Value::String(s) => Json::Str(s.clone()),
        serde_json::Value::Array(a) => Json::Array(a.iter().map(tree_of_value).collect()),
        serde_json::Value::Object(o) => Json::Object(
            o.iter().map(|(k, x)| (k.clone(), tree_of_value(x))).collect(),
        ),
    }
}

/// Relies on serde_json::from_str::<Value>: it returns Ok exactly when
/// the text is a JSON document the parser accepts, its verdict and the
/// parsed value are functions of the text alone, and a duplicated
/// member name is merged with the last value standing.
#[verifier::external_body]
pub(crate) fn parse_json(s: &str) -> (r: Option<Json>)
    ensures
        r == json_doc_of(s@),
{
    serde_json::from_str::<serde_json::Value>(s).ok().map(|v| tree_of_value(&v))
}

} // verus!
