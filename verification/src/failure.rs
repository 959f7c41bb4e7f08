use vstd::prelude::*;

verus! {

/// Why a run of the shortener stopped without a result. No failure is
/// recovered from: each one ends the run.
#[derive(Clone, Copy, Debug, PartialEq, Eq, Structural)]
pub enum Failure {
    /// No URL was given on the command line.
    MissingArgument,
    /// The settings could not be read, or lack a string the run needs.
    Settings,
    /// The document store refused the connection.
    Connection,
    /// A query or an insert failed, or a stored record has no short link.
    Store,
    /// The shortening service could not be asked: the access token cannot
    /// stand in a header, the transport failed, or the status was an error.
    Remote,
    /// The service's answer is not JSON with a string under `id`.
    Response,
}

} // verus!
