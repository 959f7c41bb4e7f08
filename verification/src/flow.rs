use vstd::prelude::*;
use bson::Document;
use crate::document::document_fields;
use crate::failure::Failure;
use crate::link::{
    filter_fields, link_record, lookup_filter, record_fields, short_of, stored_short, COLLECTION,
    DATABASE,
};
use crate::request::{fits_header, request_for, shorten_request, RequestView, ShortenRequest};
use crate::response::{extract_id, response_id};
use crate::settings::{settings_of, Settings, SETTINGS_FILE};

verus! {

/// How far a run has come. Each stage but the first and the last two waits
/// for the outcome of the action that led to it.
#[derive(Debug, PartialEq)]
pub enum Stage {
    /// Nothing has happened yet.
    Idle,
    /// The settings are being read.
    LoadingSettings { url: String },
    /// The connection to the store is being made.
    Connecting { url: String, token: String },
    /// The store is being asked for the record of the URL.
    Looking { url: String, token: String },
    /// The shortening service is being asked.
    Shortening { url: String },
    /// The new record is being stored.
    Storing,
    /// The run has ended well.
    Done,
    /// The run has ended with a failure.
    Failed { failure: Failure },
}

/// What the outside world reports back to a run.
#[derive(Debug, PartialEq)]
pub enum Event {
    /// The program was started with these arguments, its own name first.
    Launched { args: Vec<String> },
    /// The settings were read: this is their text.
    SettingsRead { text: String },
    /// The store accepted the connection.
    Connected,
    /// The store has a record that matches the query.
    Found { record: Document },
    /// The store has no record that matches the query.
    NotFound,
    /// The shortening service answered, with a status that is no error and
    /// with this body.
    Responded { body: String },
    /// The store took the new record.
    Stored,
    /// The action could not be carried out, or the other side answered with
    /// an error.
    Failed,
}

/// What a run asks the outside world to do next.
#[derive(Debug, PartialEq)]
pub enum Action {
    /// Read the text of the settings from the file of this name.
    ReadSettings { path: String },
    /// Connect to the document store, and there to this collection of this
    /// database.
    Connect { client_uri: String, database: String, collection: String },
    /// Ask the collection for one record that matches the query.
    FindOne { filter: Document },
    /// Post the request to the shortening service.
    Post { request: ShortenRequest },
    /// Print the line and end the run with success.
    Report { line: String },
    /// Print the line, then insert the record into the collection.
    Record { line: String, record: Document },
    /// End the run with success.
    Exit,
    /// End the run with this failure.
    Abort { failure: Failure },
}

/// A stage as plain values.
pub enum StageView {
    Idle,
    LoadingSettings { url: Seq<char> },
    Connecting { url: Seq<char>, token: Seq<char> },
    Looking { url: Seq<char>, token: Seq<char> },
    Shortening { url: Seq<char> },
    Storing,
    Done,
    Failed { failure: Failure },
}

/// An event as plain values.
pub enum EventView {
    Launched { args: Seq<Seq<char>> },
    SettingsRead { text: Seq<char> },
    Connected,
    Found { record: Map<Seq<char>, Option<Seq<char>>> },
    NotFound,
    Responded { body: Seq<char> },
    Stored,
    Failed,
}

/// An action as plain values.
pub enum ActionView {
    ReadSettings { path: Seq<char> },
    Connect { client_uri: Seq<char>, database: Seq<char>, collection: Seq<char> },
    FindOne { filter: Map<Seq<char>, Option<Seq<char>>> },
    Post { request: RequestView },
    Report { line: Seq<char> },
    Record { line: Seq<char>, record: Map<Seq<char>, Option<Seq<char>>> },
    Exit,
    Abort { failure: Failure },
}

impl View for Stage {
    type V = StageView;

    open spec fn view(&self) -> StageView {
        match *self {
            Stage::Idle => StageView::Idle,
            Stage::LoadingSettings { url } => StageView::LoadingSettings { url: url@ },
            Stage::Connecting { url, token } => StageView::Connecting { url: url@, token: token@ },
            Stage::Looking { url, token } => StageView::Looking { url: url@, token: token@ },
            Stage::Shortening { url } => StageView::Shortening { url: url@ },
            Stage::Storing => StageView::Storing,
            Stage::Done => StageView::Done,
            Stage::Failed { failure } => StageView::Failed { failure },
        }
    }
}

impl View for Event {
    type V = EventView;

    open spec fn view(&self) -> EventView {
        match *self {
            Event::Launched { args } => EventView::Launched { args: args.deep_view() },
            Event::SettingsRead { text } => EventView::SettingsRead { text: text@ },
            Event::Connected => EventView::Connected,
            Event::Found { record } => EventView::Found { record: document_fields(record) },
            Event::NotFound => EventView::NotFound,
            Event::Responded { body } => EventView::Responded { body: body@ },
            Event::Stored => EventView::Stored,
            Event::Failed => EventView::Failed,
        }
    }
}

impl View for Action {
    type V = ActionView;

    open spec fn view(&self) -> ActionView {
        match *self {
            Action::ReadSettings { path } => ActionView::ReadSettings { path: path@ },
            Action::Connect { client_uri, database, collection } => ActionView::Connect {
                client_uri: client_uri@,
                database: database@,
                collection: collection@,
            },
            Action::FindOne { filter } => ActionView::FindOne { filter: document_fields(filter) },
            Action::Post { request } => ActionView::Post { request: request@ },
            Action::Report { line } => ActionView::Report { line: line@ },
            Action::Record { line, record } => ActionView::Record {
                line: line@,
                record: document_fields(record),
            },
            Action::Exit => ActionView::Exit,
            Action::Abort { failure } => ActionView::Abort { failure },
        }
    }
}

/// The URL that a command line names: its first argument after the
/// program's own name. Further arguments are not looked at.
pub open spec fn url_of(args: Seq<Seq<char>>) -> Option<Seq<char>> {
    if args.len() >= 2 {
        Some(args[1])
    } else {
        None
    }
}

/// The line that reports a short link found in the store.
pub open spec fn report_text(short: Seq<char>) -> Seq<char> {
    "From database: "@ + short
}

/// The line that announces a short link just made.
pub open spec fn announce_text(short: Seq<char>) -> Seq<char> {
    "Newly created: "@ + short
}

/// The end of a run by a failure.
pub open spec fn halt(failure: Failure) -> (StageView, ActionView) {
    (StageView::Failed { failure }, ActionView::Abort { failure })
}

/// What a run does at `stage` when `event` comes in: the stage it moves to
/// and the action it asks for. An event that does not answer the action
/// that the stage waits for counts as that action having failed.
pub open spec fn next(stage: StageView, event: EventView) -> (StageView, ActionView) {
    match stage {
        StageView::Idle => match event {
            EventView::Launched { args } => match url_of(args) {
                Some(url) => (
                    StageView::LoadingSettings { url },
                    ActionView::ReadSettings { path: SETTINGS_FILE@ },
                ),
                None => halt(Failure::MissingArgument),
            },
            _ => halt(Failure::MissingArgument),
        },
        StageView::LoadingSettings { url } => match event {
            EventView::SettingsRead { text } => match settings_of(text) {
                Some((token, client_uri)) => (
                    StageView::Connecting { url, token },
                    ActionView::Connect {
                        client_uri,
                        database: DATABASE@,
                        collection: COLLECTION@,
                    },
                ),
                None => halt(Failure::Settings),
            },
            _ => halt(Failure::Settings),
        },
        StageView::Connecting { url, token } => match event {
            EventView::Connected => (
                StageView::Looking { url, token },
                ActionView::FindOne { filter: filter_fields(url) },
            ),
            _ => halt(Failure::Connection),
        },
        StageView::Looking { url, token } => match event {
            EventView::Found { record } => match short_of(record) {
                Some(short) => (StageView::Done, ActionView::Report { line: report_text(short) }),
                None => halt(Failure::Store),
            },
            EventView::NotFound => if fits_header(token) {
                (
                    StageView::Shortening { url },
                    ActionView::Post { request: request_for(url, token) },
                )
            } else {
                halt(Failure::Remote)
            },
            _ => halt(Failure::Store),
        },
        StageView::Shortening { url } => match event {
            EventView::Responded { body } => match response_id(body) {
                Some(short) => (
                    StageView::Storing,
                    ActionView::Record {
                        line: announce_text(short),
                        record: record_fields(url, short),
                    },
                ),
                None => halt(Failure::Response),
            },
            _ => halt(Failure::Remote),
        },
        StageView::Storing => match event {
            EventView::Stored => (StageView::Done, ActionView::Exit),
            _ => halt(Failure::Store),
        },
        StageView::Done => (StageView::Done, ActionView::Exit),
        StageView::Failed { failure } => halt(failure),
    }
}

/// Picks the URL to shorten out of the command line. A command line
/// without an argument is a `Failure::MissingArgument`.
pub fn target_url(args: &Vec<String>) -> (r: Result<String, Failure>)
    ensures
        match r {
            Ok(url) => url_of(args.deep_view()) == Some(url@),
            Err(failure) => {
                &&& url_of(args.deep_view()) is None
                &&& failure == Failure::MissingArgument
            },
        },
{
    if args.len() >= 2 {
        Ok(args[1].clone())
    } else {
        Err(Failure::MissingArgument)
    }
}

/// Writes the line that reports a short link found in the store.
pub fn report_line(short: &str) -> (line: String)
    ensures
        line@ == report_text(short@),
{
    let mut line = String::from_str("From database: ");
    line.append(short);
    line
}

/// Writes the line that announces a short link just made.
pub fn announce_line(short: &str) -> (line: String)
    ensures
        line@ == announce_text(short@),
{
    let mut line = String::from_str("Newly created: ");
    line.append(short);
    line
}

/// Ends a run by a failure.
fn stop(failure: Failure) -> (r: (Stage, Action))
    ensures
        (r.0@, r.1@) == halt(failure),
{
    (Stage::Failed { failure }, Action::Abort { failure })
}

impl Stage {
    /// Takes a run one step on: from this stage and the event that came in
    /// to the next stage and the action to carry out, as `next` says.
    pub fn step(self, event: Event) -> (r: (Stage, Action))
        ensures
            (r.0@, r.1@) == next(self@, event@),
    {
        match self {
            Stage::Idle => match event {
                Event::Launched { args } => match target_url(&args) {
                    Ok(url) => (
                        Stage::LoadingSettings { url },
                        Action::ReadSettings { path: String::from_str(SETTINGS_FILE) },
                    ),
                    Err(failure) => stop(failure),
                },
                _ => stop(Failure::MissingArgument),
            },
            Stage::LoadingSettings { url } => match event {
                Event::SettingsRead { text } => match Settings::from_json(text.as_str()) {
                    Ok(settings) => (
                        Stage::Connecting { url, token: settings.access_token },
                        Action::Connect {
                            client_uri: settings.client_uri,
                            database: String::from_str(DATABASE),
                            collection: String::from_str(COLLECTION),
                        },
                    ),
                    Err(failure) => stop(failure),
                },
                _ => stop(Failure::Settings),
            },
            Stage::Connecting { url, token } => match event {
                Event::Connected => {
                    let filter = lookup_filter(url.as_str());
                    (Stage::Looking { url, token }, Action::FindOne { filter })
                },
                _ => stop(Failure::Connection),
            },
            Stage::Looking { url, token } => match event {
                Event::Found { record } => match stored_short(&record) {
                    Ok(short) => {
                        let line = report_line(short.as_str());
                        (Stage::Done, Action::Report { line })
                    },
                    Err(failure) => stop(failure),
                },
                Event::NotFound => match shorten_request(url.as_str(), token.as_str()) {
                    Ok(request) => (Stage::Shortening { url }, Action::Post { request }),
                    Err(failure) => stop(failure),
                },
                _ => stop(Failure::Store),
            },
            Stage::Shortening { url } => match event {
                Event::Responded { body } => match extract_id(body.as_str()) {
                    Ok(short) => {
                        let line = announce_line(short.as_str());
                        let record = link_record(url.as_str(), short.as_str());
                        (Stage::Storing, Action::Record { line, record })
                    },
                    Err(failure) => stop(failure),
                },
                _ => stop(Failure::Remote),
            },
            Stage::Storing => match event {
                Event::Stored => (Stage::Done, Action::Exit),
                _ => stop(Failure::Store),
            },
            Stage::Done => (Stage::Done, Action::Exit),
            Stage::Failed { failure } => stop(failure),
        }
    }
}

} // verus!
