use url_shortener::failure::Failure;
use url_shortener::response::{extract_id, short_link_of};

#[test]
fn extract_id_reads_the_id_member() {
    let body = "{\"id\": \"bit.ly/3y5R16y\", \"link\": \"https://bit.ly/3y5R16y\"}";
    assert_eq!(extract_id(body), Ok("bit.ly/3y5R16y".to_string()));
}

#[test]
fn extract_id_of_an_object_with_id_alone() {
    assert_eq!(extract_id("{\"id\":\"b\"}"), Ok("b".to_string()));
}

#[test]
fn extract_id_takes_the_empty_id() {
    assert_eq!(extract_id("{\"id\": \"\"}"), Ok(String::new()));
}

#[test]
fn extract_id_unescapes_the_id() {
    assert_eq!(extract_id("{\"id\": \"a\\/b\\u0041\"}"), Ok("a/bA".to_string()));
}

#[test]
fn extract_id_rejects_a_body_without_id() {
    assert_eq!(extract_id("{\"link\": \"x\"}"), Err(Failure::Response));
    assert_eq!(extract_id("{}"), Err(Failure::Response));
}

#[test]
fn extract_id_rejects_an_id_that_is_no_string() {
    assert_eq!(extract_id("{\"id\": 7}"), Err(Failure::Response));
    assert_eq!(extract_id("{\"id\": null}"), Err(Failure::Response));
    assert_eq!(extract_id("{\"id\": [\"b\"]}"), Err(Failure::Response));
}

#[test]
fn extract_id_rejects_a_body_that_is_no_object() {
    assert_eq!(extract_id("[\"id\"]"), Err(Failure::Response));
    assert_eq!(extract_id("\"id\""), Err(Failure::Response));
}

#[test]
fn extract_id_rejects_a_body_that_is_no_json() {
    assert_eq!(extract_id(""), Err(Failure::Response));
    assert_eq!(extract_id("<html>"), Err(Failure::Response));
    assert_eq!(extract_id("{\"id\": \"b\""), Err(Failure::Response));
    assert_eq!(extract_id("{\"id\": \"b\"} x"), Err(Failure::Response));
}

#[test]
fn short_link_of_what_was_found() {
    assert_eq!(short_link_of(Some("bit.ly/3y5R16y")), Ok("bit.ly/3y5R16y".to_string()));
    assert_eq!(short_link_of(None), Err(Failure::Response));
}
