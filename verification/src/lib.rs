//! A client for a link-shortening service that remembers its answers in a
//! document store.
//!
//! Given a URL, a run first asks the store for a record of it. If there is
//! one, the short link in it is reported. If there is none, the shortening
//! service is asked once, its answer is announced, and a record of it is
//! inserted. Any failure ends the run at once.
//!
//! The library decides and never acts. `flow` holds the run as a state
//! machine: a step takes the event that the outside world reports and gives
//! the action to carry out next. `request`, `response`, `settings` and `link`
//! hold what a step builds and reads. `world` is a model of the outside
//! world, and `laws` states what every run does in it. `json`, `document`
//! and `headers` hold what is taken on trust from the crates that read
//! JSON, build BSON documents and build HTTP headers.
//!
//! Nothing here keeps two runs apart. Two runs for one new URL that overlap
//! may both find no record, and both insert one: the store is asked before
//! the insert, and is not told to refuse a second record of a URL.

pub mod document;
pub mod failure;
pub mod flow;
pub mod headers;
pub mod json;
pub mod laws;
pub mod link;
pub mod request;
pub mod response;
pub mod settings;
pub mod world;
