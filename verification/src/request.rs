use vstd::prelude::*;
use vstd::utf8::{
    encode_scalar, encode_utf8, has_width_1_encoding, has_width_2_encoding,
    has_width_3_encoding, is_ascii_chars, is_ascii_chars_encode_utf8, last_continuation_byte,
    leading_byte_width_1, leading_byte_width_2, leading_byte_width_3, leading_byte_width_4,
    second_last_continuation_byte, third_last_continuation_byte,
};
use reqwest::header::HeaderMap;
use crate::failure::Failure;
use crate::headers::{
    authorization, content_type, empty_headers, header_entries, no_headers, set_header,
    static_value, text_value, value_byte, value_bytes, visible_bytes,
};

verus! {

/// Where shortening requests are posted.
pub const SHORTEN_ENDPOINT: &'static str = "https://api-ssl.bitly.com/v4/shorten";

/// The request body that asks the shortening service for a short link to
/// `url`.
pub open spec fn request_body(url: Seq<char>) -> Seq<char> {
    "{ \"long_url\": \""@ + url + "\" }"@
}

/// A character that may stand in a header: anything but the control
/// characters, of which only the tab is allowed.
pub open spec fn header_char(c: char) -> bool {
    (c >= ' ' && c != '\u{7f}') || c == '\t'
}

/// A text that may stand in a header.
pub open spec fn fits_header(text: Seq<char>) -> bool {
    forall|i: int| 0 <= i < text.len() ==> header_char(#[trigger] text[i])
}

/// The headers of a shortening request made with `token`: the content type
/// of JSON, and the token as a bearer credential.
pub open spec fn request_headers(token: Seq<char>) -> Map<Seq<char>, Seq<Seq<u8>>> {
    let content_type = seq![encode_utf8("application/json"@)];
    let authorization = seq![encode_utf8("Bearer "@ + token)];
    no_headers().insert("content-type"@, content_type).insert("authorization"@, authorization)
}

/// A request to the shortening service, ready to be posted.
#[derive(Debug, PartialEq)]
pub struct ShortenRequest {
    /// The address that the request is posted to.
    pub endpoint: String,
    /// The headers of the request.
    pub headers: HeaderMap,
    /// The body of the request.
    pub body: String,
}

/// A shortening request as plain values.
pub struct RequestView {
    pub endpoint: Seq<char>,
    pub headers: Map<Seq<char>, Seq<Seq<u8>>>,
    pub body: Seq<char>,
}

impl View for ShortenRequest {
    type V = RequestView;

    open spec fn view(&self) -> RequestView {
        RequestView {
            endpoint: self.endpoint@,
            headers: header_entries(self.headers),
            body: self.body@,
        }
    }
}

/// The request that asks the shortening service, in the name of `token`, for
/// a short link to `url`.
pub open spec fn request_for(url: Seq<char>, token: Seq<char>) -> RequestView {
    RequestView {
        endpoint: SHORTEN_ENDPOINT@,
        headers: request_headers(token),
        body: request_body(url),
    }
}

/// The bytes that encode one character may all stand in a header value
/// exactly when the character may stand in a header.
proof fn lemma_scalar_bytes(c: char)
    ensures
        value_bytes(encode_scalar(c as u32)) <==> header_char(c),
{
    let s = c as u32;
    let bytes = encode_scalar(s);
    if has_width_1_encoding(s) {
        assert(s as u8 == leading_byte_width_1(s)) by (bit_vector)
            requires
                has_width_1_encoding(s),
        ;
        assert(bytes[0] == s as u8);
        if header_char(c) {
            assert forall|i: int| 0 <= i < bytes.len() implies value_byte(#[trigger] bytes[i]) by {
                assert(i == 0);
            }
        }
        if value_bytes(bytes) {
            assert(value_byte(bytes[0]));
        }
    } else {
        assert(leading_byte_width_2(s) >= 0x80 && leading_byte_width_3(s) >= 0x80
            && leading_byte_width_4(s) >= 0x80 && last_continuation_byte(s) >= 0x80
            && second_last_continuation_byte(s) >= 0x80 && third_last_continuation_byte(s)
            >= 0x80) by (bit_vector);
        assert forall|i: int| 0 <= i < bytes.len() implies value_byte(#[trigger] bytes[i]) by {
            if has_width_2_encoding(s) {
                assert(i == 0 || i == 1);
            } else if has_width_3_encoding(s) {
                assert(i == 0 || i == 1 || i == 2);
            } else {
                assert(i == 0 || i == 1 || i == 2 || i == 3);
            }
        }
        assert(header_char(c));
    }
}

/// A text may stand in a header exactly when every byte of its UTF-8
/// encoding may stand in a header value.
pub proof fn lemma_header_bytes(text: Seq<char>)
    ensures
        value_bytes(encode_utf8(text)) <==> fits_header(text),
    decreases text.len(),
{
    if text.len() > 0 {
        let head = encode_scalar(text[0] as u32);
        let rest = text.drop_first();
        let tail = encode_utf8(rest);
        lemma_scalar_bytes(text[0]);
        lemma_header_bytes(rest);
        assert(encode_utf8(text) == head + tail);
        if value_bytes(head + tail) {
            assert forall|i: int| 0 <= i < head.len() implies value_byte(#[trigger] head[i]) by {
                assert(head[i] == (head + tail)[i]);
            }
            assert forall|i: int| 0 <= i < tail.len() implies value_byte(#[trigger] tail[i]) by {
                assert(tail[i] == (head + tail)[i + head.len()]);
            }
            assert forall|i: int| 0 <= i < text.len() implies header_char(#[trigger] text[i]) by {
                if i > 0 {
                    assert(text[i] == rest[i - 1]);
                }
            }
        }
        if fits_header(text) {
            assert forall|i: int| 0 <= i < rest.len() implies header_char(#[trigger] rest[i]) by {
                assert(rest[i] == text[i + 1]);
            }
            assert(header_char(text[0]));
            assert forall|i: int| 0 <= i < (head + tail).len() implies value_byte(
                #[trigger] (head + tail)[i],
            ) by {
                if i < head.len() {
                    assert((head + tail)[i] == head[i]);
                } else {
                    assert((head + tail)[i] == tail[i - head.len()]);
                }
            }
        }
    }
}

/// Builds the body of a shortening request: a JSON object whose only member,
/// `long_url`, is the given URL. The URL is copied as it is.
pub fn create_data(url: &str) -> (body: String)
    ensures
        body@ == request_body(url@),
{
    let mut body = String::from_str("{ \"long_url\": \"");
    body.append(url);
    body.append("\" }");
    body
}

/// Builds the headers of a shortening request: `content-type` with the
/// value `application/json`, and `authorization` with the token behind
/// `Bearer `. A token that cannot stand in a header is a `Failure::Remote`.
pub fn create_headers(token: &str) -> (r: Result<HeaderMap, Failure>)
    ensures
        match r {
            Ok(headers) => {
                &&& fits_header(token@)
                &&& header_entries(headers) == request_headers(token@)
            },
            Err(failure) => {
                &&& !fits_header(token@)
                &&& failure == Failure::Remote
            },
        },
{
    let mut headers = empty_headers();
    proof {
        reveal_strlit("application/json");
        assert(is_ascii_chars("application/json"@));
        is_ascii_chars_encode_utf8("application/json"@);
        assert(visible_bytes(encode_utf8("application/json"@)));
    }
    set_header(&mut headers, content_type(), static_value("application/json"));
    let mut credential = String::from_str("Bearer ");
    credential.append(token);
    proof {
        reveal_strlit("Bearer ");
        lemma_header_bytes(credential@);
        if fits_header(token@) {
            assert forall|i: int| 0 <= i < credential@.len() implies header_char(
                #[trigger] credential@[i],
            ) by {
                if i >= 7 {
                    assert(credential@[i] == token@[i - 7]);
                }
            }
        }
        if fits_header(credential@) {
            assert forall|i: int| 0 <= i < token@.len() implies header_char(
                #[trigger] token@[i],
            ) by {
                assert(token@[i] == credential@[i + 7]);
            }
        }
    }
    match text_value(credential.as_str()) {
        Ok(value) => {
            set_header(&mut headers, authorization(), value);
            Ok(headers)
        },
        Err(_) => Err(Failure::Remote),
    }
}

/// Builds the request that asks for a short link to `url`: a POST to
/// `SHORTEN_ENDPOINT` with the headers of `create_headers` and the body of
/// `create_data`. The request is not sent here. A token that cannot stand in
/// a header is a `Failure::Remote`.
pub fn shorten_request(url: &str, token: &str) -> (r: Result<ShortenRequest, Failure>)
    ensures
        match r {
            Ok(request) => {
                &&& fits_header(token@)
                &&& request@ == request_for(url@, token@)
            },
            Err(failure) => {
                &&& !fits_header(token@)
                &&& failure == Failure::Remote
            },
        },
{
    match create_headers(token) {
        Ok(headers) => Ok(
            ShortenRequest {
                endpoint: String::from_str(SHORTEN_ENDPOINT),
                headers,
                body: create_data(url),
            },
        ),
        Err(failure) => Err(failure),
    }
}

} // verus!
