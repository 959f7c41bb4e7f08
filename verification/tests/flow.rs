use bson::Document;
use url_shortener::failure::Failure;
use url_shortener::flow::{announce_line, report_line, target_url, Action, Event, Stage};
use url_shortener::link::{link_record, lookup_filter};
use url_shortener::request::shorten_request;

const SETTINGS: &str =
    "{\"bitlyAccessToken\": \"token\", \"clientURI\": \"mongodb://localhost:27017\"}";

fn command_line(url: &str) -> Vec<String> {
    vec!["shortener".to_string(), url.to_string()]
}

fn looking(url: &str, token: &str) -> Stage {
    Stage::Looking { url: url.to_string(), token: token.to_string() }
}

fn failed(failure: Failure) -> (Stage, Action) {
    (Stage::Failed { failure }, Action::Abort { failure })
}

#[test]
fn target_url_is_the_first_argument() {
    assert_eq!(
        target_url(&command_line("https://www.rust-lang.org/")),
        Ok("https://www.rust-lang.org/".to_string())
    );
}

#[test]
fn target_url_passes_over_further_arguments() {
    let args = vec!["shortener".to_string(), "a".to_string(), "b".to_string()];
    assert_eq!(target_url(&args), Ok("a".to_string()));
}

#[test]
fn target_url_needs_an_argument() {
    assert_eq!(target_url(&vec!["shortener".to_string()]), Err(Failure::MissingArgument));
    assert_eq!(target_url(&Vec::new()), Err(Failure::MissingArgument));
}

#[test]
fn report_line_names_the_database() {
    assert_eq!(report_line("b"), "From database: b");
    assert_eq!(report_line(""), "From database: ");
}

#[test]
fn announce_line_names_the_new_link() {
    assert_eq!(announce_line("bit.ly/3y5R16y"), "Newly created: bit.ly/3y5R16y");
    assert_eq!(announce_line(""), "Newly created: ");
}

#[test]
fn launch_asks_for_the_settings() {
    let (stage, action) = Stage::Idle.step(Event::Launched { args: command_line("bitly") });
    assert_eq!(stage, Stage::LoadingSettings { url: "bitly".to_string() });
    assert_eq!(action, Action::ReadSettings { path: "config.json".to_string() });
}

#[test]
fn launch_without_argument_fails() {
    let args = vec!["shortener".to_string()];
    assert_eq!(Stage::Idle.step(Event::Launched { args }), failed(Failure::MissingArgument));
}

#[test]
fn idle_takes_no_other_event() {
    assert_eq!(Stage::Idle.step(Event::Connected), failed(Failure::MissingArgument));
    assert_eq!(Stage::Idle.step(Event::Failed), failed(Failure::MissingArgument));
}

#[test]
fn connect_to_database() {
    let stage = Stage::LoadingSettings { url: "bitly".to_string() };
    let (stage, action) = stage.step(Event::SettingsRead { text: SETTINGS.to_string() });
    assert_eq!(
        stage,
        Stage::Connecting { url: "bitly".to_string(), token: "token".to_string() }
    );
    assert_eq!(
        action,
        Action::Connect {
            client_uri: "mongodb://localhost:27017".to_string(),
            database: "test_db".to_string(),
            collection: "bitly".to_string(),
        }
    );
}

#[test]
fn settings_without_a_key_fail() {
    let stage = Stage::LoadingSettings { url: "bitly".to_string() };
    let text = "{\"bitlyAccessToken\": \"token\"}".to_string();
    assert_eq!(stage.step(Event::SettingsRead { text }), failed(Failure::Settings));
}

#[test]
fn settings_that_cannot_be_read_fail() {
    let stage = Stage::LoadingSettings { url: "bitly".to_string() };
    assert_eq!(stage.step(Event::Failed), failed(Failure::Settings));
    let stage = Stage::LoadingSettings { url: "bitly".to_string() };
    assert_eq!(stage.step(Event::NotFound), failed(Failure::Settings));
}

#[test]
fn connection_leads_to_the_lookup() {
    let stage = Stage::Connecting { url: "bitly".to_string(), token: "token".to_string() };
    let (stage, action) = stage.step(Event::Connected);
    assert_eq!(stage, looking("bitly", "token"));
    assert_eq!(action, Action::FindOne { filter: lookup_filter("bitly") });
}

#[test]
fn connection_refused_fails() {
    let stage = Stage::Connecting { url: "bitly".to_string(), token: "token".to_string() };
    assert_eq!(stage.step(Event::Failed), failed(Failure::Connection));
}

#[test]
fn read_value_from_database() {
    let mut record = Document::new();
    record.insert("url", "bitly");
    record.insert("short", "b");
    let (stage, action) = looking("bitly", "token").step(Event::Found { record });
    assert_eq!(stage, Stage::Done);
    assert_eq!(action, Action::Report { line: "From database: b".to_string() });
}

#[test]
fn found_record_without_short_fails() {
    let mut record = Document::new();
    record.insert("url", "bitly");
    assert_eq!(looking("bitly", "token").step(Event::Found { record }), failed(Failure::Store));
}

#[test]
fn lookup_that_fails_fails() {
    assert_eq!(looking("bitly", "token").step(Event::Failed), failed(Failure::Store));
    assert_eq!(looking("bitly", "token").step(Event::Stored), failed(Failure::Store));
}

#[test]
fn miss_leads_to_the_request() {
    let (stage, action) = looking("https://www.rust-lang.org/", "token").step(Event::NotFound);
    assert_eq!(stage, Stage::Shortening { url: "https://www.rust-lang.org/".to_string() });
    let request = shorten_request("https://www.rust-lang.org/", "token").unwrap();
    assert_eq!(action, Action::Post { request });
}

#[test]
fn miss_with_a_token_that_fits_no_header_fails() {
    assert_eq!(looking("bitly", "to\nken").step(Event::NotFound), failed(Failure::Remote));
}

#[test]
fn check_shortener() {
    let stage = Stage::Shortening { url: "https://www.rust-lang.org/".to_string() };
    let body = "{\"created_at\": \"2021-06-30T12:00:00+0000\", \"id\": \"bit.ly/3y5R16y\", \
                \"link\": \"https://bit.ly/3y5R16y\", \
                \"long_url\": \"https://www.rust-lang.org/\"}";
    let (stage, action) = stage.step(Event::Responded { body: body.to_string() });
    assert_eq!(stage, Stage::Storing);
    assert_eq!(
        action,
        Action::Record {
            line: "Newly created: bit.ly/3y5R16y".to_string(),
            record: link_record("https://www.rust-lang.org/", "bit.ly/3y5R16y"),
        }
    );
}

#[test]
fn response_without_id_fails() {
    let stage = Stage::Shortening { url: "bitly".to_string() };
    let body = "{\"message\": \"FORBIDDEN\"}".to_string();
    assert_eq!(stage.step(Event::Responded { body }), failed(Failure::Response));
}

#[test]
fn response_that_is_no_json_fails() {
    let stage = Stage::Shortening { url: "bitly".to_string() };
    let body = "Bad Gateway".to_string();
    assert_eq!(stage.step(Event::Responded { body }), failed(Failure::Response));
}

#[test]
fn request_that_fails_fails() {
    let stage = Stage::Shortening { url: "bitly".to_string() };
    assert_eq!(stage.step(Event::Failed), failed(Failure::Remote));
}

#[test]
fn stored_record_ends_the_run() {
    assert_eq!(Stage::Storing.step(Event::Stored), (Stage::Done, Action::Exit));
}

#[test]
fn insert_that_fails_fails() {
    assert_eq!(Stage::Storing.step(Event::Failed), failed(Failure::Store));
}

#[test]
fn done_stays_done() {
    assert_eq!(Stage::Done.step(Event::Connected), (Stage::Done, Action::Exit));
    assert_eq!(Stage::Done.step(Event::Failed), (Stage::Done, Action::Exit));
}

#[test]
fn failed_stays_failed() {
    let stage = Stage::Failed { failure: Failure::Remote };
    assert_eq!(stage.step(Event::Stored), failed(Failure::Remote));
    let stage = Stage::Failed { failure: Failure::Settings };
    let event = Event::Launched { args: command_line("bitly") };
    assert_eq!(stage.step(event), failed(Failure::Settings));
}
