use vstd::prelude::*;
use bson::document::ValueAccessError;
use bson::Document;

verus! {

/// `bson::Document`, one record of the store or one query to it. Nothing
/// inside it is seen here.
#[verifier::external_type_specification]
#[verifier::external_body]
pub struct ExDocument(bson::Document);

/// `bson::document::ValueAccessError`, why a field could not be read.
#[verifier::external_type_specification]
#[verifier::external_body]
pub struct ExValueAccessError(bson::document::ValueAccessError);

/// The fields of a document by key: `Some` of the text where the field's
/// value is a string, `None` where it is of another kind.
pub uninterp spec fn document_fields(document: Document) -> Map<Seq<char>, Option<Seq<char>>>;

/// The fields of a document that has none.
pub open spec fn no_fields() -> Map<Seq<char>, Option<Seq<char>>> {
    Map::empty()
}

/// Trusted: `Document::new`. The new document has no field.
#[verifier::external_body]
pub(crate) fn empty_document() -> (document: Document)
    ensures
        document_fields(document) == no_fields(),
{
    Document::new()
}

/// Trusted: `Document::insert` with a key and a text. Afterwards the field
/// under the key is a string with that text; the other fields are as before.
#[verifier::external_body]
pub(crate) fn set_text(document: &mut Document, key: &str, text: &str)
    ensures
        document_fields(*final(document)) == document_fields(*old(document)).insert(
            key@,
            Some(text@),
        ),
{
    document.insert(key, text);
}

/// Trusted: `Document::get_str`. The call succeeds exactly when the document
/// has a field under the key whose value is a string, and gives its text.
#[verifier::external_body]
pub(crate) fn text_at<'a>(
    document: &'a Document,
    key: &str,
) -> (r: Result<&'a str, ValueAccessError>)
    ensures
        match r {
            Ok(text) => {
                &&& document_fields(*document).contains_key(key@)
                &&& document_fields(*document)[key@] == Some(text@)
            },
            Err(_) => {
                ||| !document_fields(*document).contains_key(key@)
                ||| document_fields(*document)[key@] is None
            },
        },
{
    document.get_str(key)
}

} // verus!
