//! The service version check: the reported version is held against the
//! minimum requirement by semantic-version range matching.  A mismatch is
//! never fatal; the caller decides how to react.

use vstd::prelude::*;
use crate::errors::BackendError;

verus! {

#[verifier::external_type_specification]
#[verifier::external_body]
pub struct ExSemverError(semver::Error);

/// Whether a text parses as a semantic-version requirement.
pub uninterp spec fn version_req_ok(s: Seq<char>) -> bool;

/// Whether a text parses as a semantic version.
pub uninterp spec fn version_ok(s: Seq<char>) -> bool;

/// Whether the version one text names satisfies the requirement another
/// text names; meaningful when both parse.
pub uninterp spec fn version_matches(req: Seq<char>, ver: Seq<char>) -> bool;

/// Relies on semver::VersionReq::parse, semver::Version::parse and
/// semver::VersionReq::matches: parsing and range matching depend on the
/// two texts alone.
#[verifier::external_body]
fn semver_match(required: &str, current: &str) -> (r: Result<bool, semver::Error>)
    ensures
        r is Ok <==> (version_req_ok(required@) && version_ok(current@)),
        r is Ok ==> r.unwrap() == version_matches(required@, current@),
{
    let req = semver::VersionReq::parse(required)?;
    let ver = semver::Version::parse(current)?;
    Ok(req.matches(&ver))
}

/// The minimum service version the generator expects.
pub open spec fn required_version_chars() -> Seq<char> {
    ">=0.24.0"@
}

/// The minimum-required version, as the text handed to the range matcher.
pub fn required_version() -> (r: &'static str)
    ensures
        r@ == required_version_chars(),
{
    ">=0.24.0"
}

/// Checks the service's reported version against the minimum requirement:
/// true when it satisfies the requirement, false when it does not, and a
/// backend error when the reported text is not a semantic version.
pub fn check_version(current: &str) -> (r: Result<bool, BackendError>)
    ensures
        r is Ok <==> version_req_ok(required_version_chars()) && version_ok(current@),
        r matches Ok(b) ==> b == version_matches(required_version_chars(), current@),
        r matches Err(e) ==> e == BackendError::MalformedVersion,
{
    match semver_match(required_version(), current) {
        Ok(b) => Ok(b),
        Err(_) => Err(BackendError::MalformedVersion),
    }
}

} // verus!
