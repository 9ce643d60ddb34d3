use vstd::prelude::*;

verus! {

/// The JSON string found at the JSON pointer `pointer` (RFC 6901) in the
/// document `text`; `None` when `text` is no JSON document, nothing stands at
/// `pointer`, or what stands there is not a string.
pub uninterp spec fn json_string_at(text: Seq<char>, pointer: Seq<char>) -> Option<Seq<char>>;

/// Whether `text` is a JSON document in which nothing, or `null`, stands at
/// the JSON pointer `pointer` (RFC 6901).
pub uninterp spec fn json_null_or_absent_at(text: Seq<char>, pointer: Seq<char>) -> bool;

/// The pretty-printed JSON text of an object whose members are `fields`, a
/// missing value written as `null`.
pub uninterp spec fn pretty_json_object(fields: Seq<(Seq<char>, Option<Seq<char>>)>) -> Seq<char>;

/// The view of an optional string.
pub open spec fn opt_text(o: Option<String>) -> Option<Seq<char>> {
    match o {
        Some(s) => Some(s@),
        None => None,
    }
}

/// The view of a list of object members.
pub open spec fn fields_view(fields: Seq<(String, Option<String>)>) -> Seq<(Seq<char>, Option<Seq<char>>)> {
    fields.map_values(|f: (String, Option<String>)| (f.0@, opt_text(f.1)))
}

/// A member name that a JSON pointer names as it is: no `/` and no `~`.
pub open spec fn plain_key(k: Seq<char>) -> bool {
    forall|j: int| 0 <= j < k.len() ==> k[j] != '/' && k[j] != '~'
}

/// Member names that are plain and pairwise distinct.
pub open spec fn plain_distinct_keys(fields: Seq<(Seq<char>, Option<Seq<char>>)>) -> bool {
    &&& forall|i: int| 0 <= i < fields.len() ==> plain_key(#[trigger] fields[i].0)
    &&& forall|i: int, j: int|
        0 <= i < j < fields.len() ==> #[trigger] fields[i].0 != #[trigger] fields[j].0
}

/// Relies on `serde_json::from_str` into a `serde_json::Value` and on
/// `serde_json::Value::pointer`: the string at a pointer depends on the text
/// and the pointer alone.
#[verifier::external_body]
pub(crate) fn string_at(text: &str, pointer: &str) -> (r: Option<String>)
    ensures
        opt_text(r) == json_string_at(text@, pointer@),
{
    let doc: serde_json::Value = serde_json::from_str(text).ok()?;
    match doc.pointer(pointer) {
        Some(serde_json::Value::String(s)) => Some(s.clone()),
        _ => None,
    }
}

/// Relies on `serde_json::from_str` into a `serde_json::Value` and on
/// `serde_json::Value::pointer`: whether a member is missing or `null`
/// depends on the text and the pointer alone.
#[verifier::external_body]
pub(crate) fn null_or_absent_at(text: &str, pointer: &str) -> (r: bool)
    ensures
        r == json_null_or_absent_at(text@, pointer@),
{
    let doc: serde_json::Value = match serde_json::from_str(text) {
        Ok(doc) => doc,
        Err(_) => return false,
    };
    match doc.pointer(pointer) {
        None | Some(serde_json::Value::Null) => true,
        _ => false,
    }
}

/// Relies on `serde_json::to_string_pretty` of a `serde_json::Value::Object`
/// built from `fields`: the text depends on the members alone; a `Value` of
/// strings and `null` written to a `Vec` cannot fail; and serde_json reads
/// the text back, each member under its pointer, `null` as no string.
#[verifier::external_body]
pub(crate) fn object_text(fields: &Vec<(String, Option<String>)>) -> (r: Option<String>)
    ensures
        r is Some,
        r matches Some(t) ==> t@ == pretty_json_object(fields_view(fields@)),
        r matches Some(t) ==> plain_distinct_keys(fields_view(fields@)) ==> forall|i: int|
            0 <= i < fields@.len() ==> {
                let f = #[trigger] fields_view(fields@)[i];
                &&& json_string_at(t@, seq!['/'] + f.0) == f.1
                &&& json_null_or_absent_at(t@, seq!['/'] + f.0) == (f.1 is None)
            },
{
    let object: serde_json::Map<String, serde_json::Value> = fields
        .iter()
        .map(|f| (f.0.clone(), f.1.clone().map_or(serde_json::Value::Null, serde_json::Value::String)))
        .collect();
    serde_json::to_string_pretty(&serde_json::Value::Object(object)).ok()
}

} // verus!
