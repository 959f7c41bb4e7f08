use vstd::prelude::*;
use bson::Document;
use crate::document::{document_fields, empty_document, no_fields, set_text, text_at};
use crate::failure::Failure;

verus! {

/// The database that holds the short links.
pub const DATABASE: &'static str = "test_db";

/// The collection that holds the short links, one record for each.
pub const COLLECTION: &'static str = "bitly";

/// The fields of the query that finds the record of `url`: `url` alone.
pub open spec fn filter_fields(url: Seq<char>) -> Map<Seq<char>, Option<Seq<char>>> {
    no_fields().insert("url"@, Some(url))
}

/// The fields of the record that keeps `short` as the short link of `url`.
pub open spec fn record_fields(
    url: Seq<char>,
    short: Seq<char>,
) -> Map<Seq<char>, Option<Seq<char>>> {
    no_fields().insert("url"@, Some(url)).insert("short"@, Some(short))
}

/// The short link that a record with these fields holds: the text of its
/// field `short`, if it has one that is a string.
pub open spec fn short_of(fields: Map<Seq<char>, Option<Seq<char>>>) -> Option<Seq<char>> {
    if fields.contains_key("short"@) {
        fields["short"@]
    } else {
        None
    }
}

/// Builds the query for the record of `url`: an exact match on the field
/// `url`.
pub fn lookup_filter(url: &str) -> (filter: Document)
    ensures
        document_fields(filter) == filter_fields(url@),
{
    let mut filter = empty_document();
    set_text(&mut filter, "url", url);
    filter
}

/// Builds the record that is stored once `url` has been shortened to
/// `short`.
pub fn link_record(url: &str, short: &str) -> (record: Document)
    ensures
        document_fields(record) == record_fields(url@, short@),
{
    let mut record = empty_document();
    set_text(&mut record, "url", url);
    set_text(&mut record, "short", short);
    record
}

/// Reads the short link out of a record that the store returned. A record
/// without a string under `short` is a `Failure::Store`.
pub fn stored_short(record: &Document) -> (r: Result<String, Failure>)
    ensures
        match r {
            Ok(short) => short_of(document_fields(*record)) == Some(short@),
            Err(failure) => {
                &&& short_of(document_fields(*record)) is None
                &&& failure == Failure::Store
            },
        },
{
    match text_at(record, "short") {
        Ok(text) => Ok(text.to_owned()),
        Err(_) => Err(Failure::Store),
    }
}

} // verus!
