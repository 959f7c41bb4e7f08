use vstd::prelude::*;

verus! {

/// `serde_json::Value`, one JSON value. Nothing inside it is seen here.
#[verifier::external_type_specification]
#[verifier::external_body]
pub struct ExValue(serde_json::Value);

/// `serde_json::Error`, why a text could not be read as JSON.
#[verifier::external_type_specification]
#[verifier::external_body]
pub struct ExJsonError(serde_json::Error);

/// What `serde_json::from_str` makes of a text. `None`: the text is not one
/// JSON value. `Some(m)`: it is, and `m` holds the members of that value
/// whose value is a string, by key (no member where the value is not an
/// object).
pub uninterp spec fn json_parsed(text: Seq<char>) -> Option<Map<Seq<char>, Seq<char>>>;

/// The members of a JSON value whose value is a string, by key. A value that
/// is not an object has none.
pub uninterp spec fn json_strings(value: serde_json::Value) -> Map<Seq<char>, Seq<char>>;

/// Trusted: `serde_json::from_str` at type `Value`. The call fails exactly on
/// the texts that `json_parsed` maps to `None`; the value it returns has the
/// string members that `json_parsed` gives for the text.
#[verifier::external_body]
pub(crate) fn parse_json(text: &str) -> (r: Result<serde_json::Value, serde_json::Error>)
    ensures
        match r {
            Ok(value) => json_parsed(text@) == Some(json_strings(value)),
            Err(_) => json_parsed(text@) is None,
        },
{
    serde_json::from_str(text)
}

/// Trusted: `Value`'s indexing by a key, followed by `Value::as_str`.
/// Indexing gives `Null` where the value is not an object or has no such
/// member, and `as_str` gives `None` for all but a string: the result is the
/// text of the string member under `key`, if there is one.
#[verifier::external_body]
pub(crate) fn json_text_at<'a>(value: &'a serde_json::Value, key: &str) -> (r: Option<&'a str>)
    ensures
        match r {
            Some(text) => {
                &&& json_strings(*value).contains_key(key@)
                &&& json_strings(*value)[key@] == text@
            },
            None => !json_strings(*value).contains_key(key@),
        },
{
    value[key].as_str()
}

} // verus!
