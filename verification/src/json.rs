//! JSON text of the response body.
//!
//! String literals are escaped by `serde_json`; the object around them is
//! framed here.

use vstd::prelude::*;
use vstd::string::StringExecFns;

verus! {

/// The JSON string literal that `serde_json` writes for the text `s`: the
/// text between double quotes, with the characters that JSON reserves escaped.
pub uninterp spec fn json_string(s: Seq<char>) -> Seq<char>;

/// Calls `serde_json::to_string` on a string slice.
///
/// Trusted: the result is a function of the text alone, named
/// [`json_string`], and the call succeeds. `serde_json` documents failure only
/// for values whose `Serialize` impl fails or that hold a map with non-string
/// keys; a string slice is neither.
#[verifier::external_body]
fn quote(s: &str) -> (lit: Option<String>)
    ensures
        lit is Some,
        lit.unwrap()@ == json_string(s@),
{
    serde_json::to_string(s).ok()
}

/// The JSON string literal for `s`.
fn string_literal(s: &str) -> (lit: String)
    ensures
        lit@ == json_string(s@),
{
    match quote(s) {
        Some(t) => t,
        None => unreached(),
    }
}

/// The JSON object of a record whose three members are already JSON values:
/// `{"id":<id>,"name":<name>,"author":<author>}`, with no white space.
pub open spec fn record_object(id: Seq<char>, name: Seq<char>, author: Seq<char>) -> Seq<char> {
    "{\"id\":"@ + id + ",\"name\":"@ + name + ",\"author\":"@ + author + "}"@
}

/// The JSON value of an optional text: its string literal, or `null`.
pub open spec fn optional_string(s: Option<Seq<char>>) -> Seq<char> {
    match s {
        Some(t) => json_string(t),
        None => "null"@,
    }
}

/// The JSON text of a record with the given field values.
pub open spec fn record_json(id: Option<Seq<char>>, name: Seq<char>, author: Seq<char>) -> Seq<
    char,
> {
    record_object(optional_string(id), json_string(name), json_string(author))
}

/// Frames three JSON values as the object of a record.
pub fn frame_record(id: &str, name: &str, author: &str) -> (text: String)
    ensures
        text@ == record_object(id@, name@, author@),
{
    let mut text = String::from_str("{\"id\":");
    text.append(id);
    text.append(",\"name\":");
    text.append(name);
    text.append(",\"author\":");
    text.append(author);
    text.append("}");
    text
}

/// The JSON text of a record with the given field values.
pub fn encode_record(id: Option<&str>, name: &str, author: &str) -> (text: String)
    ensures
        text@ == record_json(
            match id {
                Some(i) => Some(i@),
                None => None,
            },
            name@,
            author@,
        ),
{
    let id_value = match id {
        Some(i) => string_literal(i),
        None => String::from_str("null"),
    };
    let name_value = string_literal(name);
    let author_value = string_literal(author);
    frame_record(id_value.as_str(), name_value.as_str(), author_value.as_str())
}

} // verus!
