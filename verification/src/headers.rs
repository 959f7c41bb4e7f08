use vstd::prelude::*;
use vstd::utf8::encode_utf8;
use reqwest::header::{HeaderMap, HeaderName, HeaderValue, InvalidHeaderValue};

verus! {

/// `reqwest::header::HeaderMap`, the headers of a request. Nothing inside
/// it is seen here.
#[verifier::external_type_specification]
#[verifier::external_body]
#[verifier::reject_recursive_types(T)]
pub struct ExHeaderMap<T>(reqwest::header::HeaderMap<T>);

/// `reqwest::header::HeaderValue`, the value of one header.
#[verifier::external_type_specification]
#[verifier::external_body]
pub struct ExHeaderValue(reqwest::header::HeaderValue);

/// `reqwest::header::HeaderName`, the name of one header.
#[verifier::external_type_specification]
#[verifier::external_body]
pub struct ExHeaderName(reqwest::header::HeaderName);

/// `reqwest::header::InvalidHeaderValue`, why a text cannot be a header
/// value.
#[verifier::external_type_specification]
#[verifier::external_body]
pub struct ExInvalidHeaderValue(reqwest::header::InvalidHeaderValue);

/// The headers that a map holds: for each name in it, the values under that
/// name, in order, each as its bytes.
pub uninterp spec fn header_entries(headers: HeaderMap) -> Map<Seq<char>, Seq<Seq<u8>>>;

/// The map without any header.
pub open spec fn no_headers() -> Map<Seq<char>, Seq<Seq<u8>>> {
    Map::empty()
}

/// The bytes of a header value.
pub uninterp spec fn header_value_bytes(value: HeaderValue) -> Seq<u8>;

/// A header name as text, in lower case.
pub uninterp spec fn header_name_text(name: HeaderName) -> Seq<char>;

/// A byte that may stand in a header value built from text: any byte from 32
/// on but 127, and the tab.
pub open spec fn value_byte(byte: u8) -> bool {
    (byte >= 32 && byte != 127) || byte == 9
}

/// A byte that may stand in a header value built from a constant: the
/// visible ASCII characters, the space and the tab.
pub open spec fn visible_byte(byte: u8) -> bool {
    (byte >= 32 && byte < 127) || byte == 9
}

/// Every byte may stand in a header value built from text.
pub open spec fn value_bytes(bytes: Seq<u8>) -> bool {
    forall|i: int| 0 <= i < bytes.len() ==> value_byte(#[trigger] bytes[i])
}

/// Every byte may stand in a header value built from a constant.
pub open spec fn visible_bytes(bytes: Seq<u8>) -> bool {
    forall|i: int| 0 <= i < bytes.len() ==> visible_byte(#[trigger] bytes[i])
}

/// The number of names below which `HeaderMap::insert` cannot run out of
/// room. The map panics only when its table would have to grow past 32768
/// slots, and a table of 32768 slots is made to grow only when a fifth of
/// it at least is taken.
pub const HEADER_ROOM: usize = 6554;

/// Trusted: `HeaderMap::new`. The new map holds no header.
#[verifier::external_body]
pub(crate) fn empty_headers() -> (headers: HeaderMap)
    ensures
        header_entries(headers) == no_headers(),
{
    HeaderMap::new()
}

/// Trusted: `HeaderMap::insert`. Below `HEADER_ROOM` names the call does not
/// panic. Afterwards the name has the given value and no other; the other
/// names keep what they had.
#[verifier::external_body]
pub(crate) fn set_header(headers: &mut HeaderMap, name: HeaderName, value: HeaderValue)
    requires
        header_entries(*old(headers)).dom().finite(),
        header_entries(*old(headers)).dom().len() < HEADER_ROOM,
    ensures
        header_entries(*final(headers)) == header_entries(*old(headers)).insert(
            header_name_text(name),
            seq![header_value_bytes(value)],
        ),
{
    headers.insert(name, value);
}

/// Trusted: `HeaderValue::from_static`, which panics on a byte that is not
/// visible. The value holds the bytes of the text.
#[verifier::external_body]
pub(crate) fn static_value(text: &'static str) -> (value: HeaderValue)
    requires
        visible_bytes(encode_utf8(text@)),
    ensures
        header_value_bytes(value) == encode_utf8(text@),
{
    HeaderValue::from_static(text)
}

/// Trusted: `HeaderValue::from_str`. The call succeeds exactly when every
/// byte of the text may stand in a header value, and the value then holds
/// those bytes.
#[verifier::external_body]
pub(crate) fn text_value(text: &str) -> (r: Result<HeaderValue, InvalidHeaderValue>)
    ensures
        r is Ok <==> value_bytes(encode_utf8(text@)),
        r matches Ok(value) ==> header_value_bytes(value) == encode_utf8(text@),
{
    HeaderValue::from_str(text)
}

/// Trusted: the constant `CONTENT_TYPE`, the name `content-type`.
#[verifier::external_body]
pub(crate) fn content_type() -> (name: HeaderName)
    ensures
        header_name_text(name) == "content-type"@,
{
    reqwest::header::CONTENT_TYPE
}

/// Trusted: the constant `AUTHORIZATION`, the name `authorization`.
#[verifier::external_body]
pub(crate) fn authorization() -> (name: HeaderName)
    ensures
        header_name_text(name) == "authorization"@,
{
    reqwest::header::AUTHORIZATION
}

} // verus!
