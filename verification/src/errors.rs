//! The error taxonomy: configuration errors surface before anything starts,
//! backend errors abort the enclosing generation run.

use vstd::prelude::*;

verus! {

/// A configuration problem, reported before any backend or schedule
/// activity begins.
#[derive(Clone, Copy, Debug, PartialEq, Eq, Structural)]
pub enum ConfigError {
    /// The announcement interval lies outside 1..=60 minutes.
    BadInterval { given: u8 },
    /// The synthesis service base URL did not parse.
    BadUrl,
}

/// A failure of the synthesis backend or of its responses; any such failure
/// aborts the enclosing generation run with no retry and no partial resume.
#[derive(Clone, Copy, Debug, PartialEq, Eq, Structural)]
pub enum BackendError {
    /// The service answered with a non-success HTTP status.
    BadStatus { status: u16 },
    /// The request failed before any status was available.
    Transport,
    /// A stored audio query was not valid JSON and cannot be re-sent as
    /// structured data.
    MalformedQuery,
    /// A batched synthesis response was not a readable archive.
    MalformedArchive,
    /// A batched synthesis response did not hold one readable audio file
    /// per slot of the hour.
    IncompleteArchive,
    /// The service's reported version string was not a semantic version.
    MalformedVersion,
}

/// Whether an HTTP status code counts as success for the client: the 2xx
/// range.  Any other status becomes a `BadStatus` backend error.
pub fn status_is_success(code: u16) -> (r: bool)
    ensures
        r <==> 200 <= code <= 299,
{
    200 <= code && code <= 299
}

} // verus!
