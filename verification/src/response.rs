use vstd::prelude::*;
use crate::failure::Failure;
use crate::json::{json_parsed, json_text_at, parse_json};

verus! {

/// The short link that a response body of the shortening service carries:
/// the string under the key `id` of the JSON object that the body is.
/// `None` where the body is not JSON, is not an object, has no `id`, or has
/// an `id` that is not a string.
pub open spec fn response_id(body: Seq<char>) -> Option<Seq<char>> {
    match json_parsed(body) {
        Some(members) => if members.contains_key("id"@) {
            Some(members["id"@])
        } else {
            None
        },
        None => None,
    }
}

/// Turns what was found under `id` into the short link, or into the failure
/// that its absence is.
pub fn short_link_of(id: Option<&str>) -> (r: Result<String, Failure>)
    ensures
        match id {
            Some(text) => r matches Ok(link) && link@ == text@,
            None => r == Err::<String, Failure>(Failure::Response),
        },
{
    match id {
        Some(text) => Ok(text.to_owned()),
        None => Err(Failure::Response),
    }
}

/// Reads the short link out of a response body. Every body without one is
/// a `Failure::Response`.
pub fn extract_id(body: &str) -> (r: Result<String, Failure>)
    ensures
        match r {
            Ok(link) => response_id(body@) == Some(link@),
            Err(failure) => {
                &&& response_id(body@) is None
                &&& failure == Failure::Response
            },
        },
{
    match parse_json(body) {
        Ok(value) => short_link_of(json_text_at(&value, "id")),
        Err(_) => Err(Failure::Response),
    }
}

} // verus!
