use vstd::prelude::*;
use crate::failure::Failure;
use crate::json::{json_parsed, json_text_at, parse_json};

verus! {

/// The name of the file that holds the settings.
pub const SETTINGS_FILE: &'static str = "config.json";

/// The two strings that a run needs from its configuration.
#[derive(Debug, PartialEq, Eq)]
pub struct Settings {
    /// The bearer credential for the shortening service.
    pub access_token: String,
    /// The connection string of the document store.
    pub client_uri: String,
}

/// What a settings text holds: the strings under `bitlyAccessToken` and
/// `clientURI` of the JSON object that the text is, in that order. `None`
/// where the text is not such an object.
pub open spec fn settings_of(text: Seq<char>) -> Option<(Seq<char>, Seq<char>)> {
    match json_parsed(text) {
        Some(members) => {
            if members.contains_key("bitlyAccessToken"@) && members.contains_key("clientURI"@) {
                Some((members["bitlyAccessToken"@], members["clientURI"@]))
            } else {
                None
            }
        },
        None => None,
    }
}

impl Settings {
    /// Puts together the settings from what was found under the two keys.
    /// Either one missing is a `Failure::Settings`.
    pub fn from_members(
        access_token: Option<&str>,
        client_uri: Option<&str>,
    ) -> (r: Result<Settings, Failure>)
        ensures
            match (access_token, client_uri) {
                (Some(token), Some(uri)) => {
                    &&& r matches Ok(settings)
                    &&& settings.access_token@ == token@
                    &&& settings.client_uri@ == uri@
                },
                _ => r == Err::<Settings, Failure>(Failure::Settings),
            },
    {
        match (access_token, client_uri) {
            (Some(token), Some(uri)) => Ok(
                Settings { access_token: token.to_owned(), client_uri: uri.to_owned() },
            ),
            _ => Err(Failure::Settings),
        }
    }

    /// Reads the settings from the text of a configuration file. A text that
    /// is not a JSON object with strings under both keys is a
    /// `Failure::Settings`.
    pub fn from_json(text: &str) -> (r: Result<Settings, Failure>)
        ensures
            match r {
                Ok(settings) => settings_of(text@) == Some(
                    (settings.access_token@, settings.client_uri@),
                ),
                Err(failure) => {
                    &&& settings_of(text@) is None
                    &&& failure == Failure::Settings
                },
            },
    {
        match parse_json(text) {
            Ok(value) => Settings::from_members(
                json_text_at(&value, "bitlyAccessToken"),
                json_text_at(&value, "clientURI"),
            ),
            Err(_) => Err(Failure::Settings),
        }
    }
}

} // verus!
