use reqwest::header::{HeaderMap, HeaderName, HeaderValue, AUTHORIZATION, CONTENT_TYPE};
use url_shortener::failure::Failure;
use url_shortener::headers::HEADER_ROOM;
use url_shortener::request::{create_data, create_headers, shorten_request, SHORTEN_ENDPOINT};

#[test]
fn create_data_wraps_the_url() {
    assert_eq!(
        create_data("https://www.rust-lang.org/"),
        "{ \"long_url\": \"https://www.rust-lang.org/\" }"
    );
}

#[test]
fn create_data_of_the_empty_url() {
    assert_eq!(create_data(""), "{ \"long_url\": \"\" }");
}

#[test]
fn create_data_is_json_with_the_url_under_long_url() {
    let body = create_data("https://example.com/a?b=c");
    let value: serde_json::Value = serde_json::from_str(&body).unwrap();
    assert_eq!(value["long_url"].as_str(), Some("https://example.com/a?b=c"));
    assert_eq!(value.as_object().unwrap().len(), 1);
}

#[test]
fn create_data_copies_the_url_as_it_is() {
    assert_eq!(create_data("a\"b"), "{ \"long_url\": \"a\"b\" }");
}

#[test]
fn create_headers_holds_two_headers() {
    let headers = create_headers("abc123").unwrap();
    assert_eq!(headers.len(), 2);
    assert_eq!(headers.keys_len(), 2);
    assert_eq!(headers.get(CONTENT_TYPE).unwrap().as_bytes(), b"application/json");
    assert_eq!(headers.get(AUTHORIZATION).unwrap().as_bytes(), b"Bearer abc123");
}

#[test]
fn create_headers_names_are_lower_case() {
    let headers = create_headers("t").unwrap();
    let mut names: Vec<String> = headers.keys().map(|name| name.as_str().to_string()).collect();
    names.sort();
    assert_eq!(names, vec!["authorization".to_string(), "content-type".to_string()]);
}

#[test]
fn create_headers_takes_the_empty_token() {
    let headers = create_headers("").unwrap();
    assert_eq!(headers.get(AUTHORIZATION).unwrap().as_bytes(), b"Bearer ");
}

#[test]
fn create_headers_takes_a_tab_and_a_space() {
    let headers = create_headers("a\tb c").unwrap();
    assert_eq!(headers.get(AUTHORIZATION).unwrap().as_bytes(), b"Bearer a\tb c");
}

#[test]
fn create_headers_takes_characters_beyond_ascii() {
    let headers = create_headers("cl\u{e9}").unwrap();
    assert_eq!(headers.get(AUTHORIZATION).unwrap().as_bytes(), "Bearer cl\u{e9}".as_bytes());
}

#[test]
fn create_headers_rejects_a_line_break() {
    assert_eq!(create_headers("abc\ndef"), Err(Failure::Remote));
    assert_eq!(create_headers("abc\r"), Err(Failure::Remote));
}

#[test]
fn create_headers_rejects_control_characters() {
    assert_eq!(create_headers("\u{0}"), Err(Failure::Remote));
    assert_eq!(create_headers("a\u{1f}"), Err(Failure::Remote));
    assert_eq!(create_headers("a\u{7f}b"), Err(Failure::Remote));
}

#[test]
fn create_headers_takes_the_characters_next_to_the_refused_ones() {
    assert!(create_headers(" ").is_ok());
    assert!(create_headers("~").is_ok());
    assert!(create_headers("\u{80}").is_ok());
}

#[test]
fn shorten_request_puts_the_parts_together() {
    let request = shorten_request("https://www.rust-lang.org/", "secret").unwrap();
    assert_eq!(request.endpoint, "https://api-ssl.bitly.com/v4/shorten");
    assert_eq!(request.endpoint, SHORTEN_ENDPOINT);
    assert_eq!(request.body, "{ \"long_url\": \"https://www.rust-lang.org/\" }");
    assert_eq!(request.headers, create_headers("secret").unwrap());
    assert_eq!(request.headers.get(AUTHORIZATION).unwrap().as_bytes(), b"Bearer secret");
}

#[test]
fn shorten_request_rejects_a_token_that_fits_no_header() {
    assert_eq!(shorten_request("https://www.rust-lang.org/", "se\ncret"), Err(Failure::Remote));
}

#[test]
fn header_map_has_room_for_the_names_it_is_trusted_with() {
    let mut headers = HeaderMap::new();
    let mut count: usize = 0;
    while count < HEADER_ROOM {
        let name = HeaderName::from_bytes(format!("x-name-{}", count).as_bytes()).unwrap();
        assert!(headers.insert(name, HeaderValue::from_static("v")).is_none());
        count += 1;
    }
    assert_eq!(headers.keys_len(), HEADER_ROOM);
}
