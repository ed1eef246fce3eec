//! Configuration checks that run before any network or schedule activity:
//! the service base URL must parse as an absolute URL.

use vstd::prelude::*;
use crate::errors::ConfigError;

verus! {

#[verifier::external_type_specification]
#[verifier::external_body]
pub struct ExUrl(url::Url);

#[verifier::external_type_specification]
#[verifier::external_body]
pub struct ExUrlParseError(url::ParseError);

/// Whether a text parses as an absolute URL.
pub uninterp spec fn url_ok(s: Seq<char>) -> bool;

/// Relies on url::Url::parse: whether a text parses as an absolute URL
/// depends on the characters alone.
#[verifier::external_body]
fn parse_url(s: &str) -> (r: Result<url::Url, url::ParseError>)
    ensures
        r is Ok <==> url_ok(s@),
{
    url::Url::parse(s)
}

/// Parses the synthesis service's base URL; a text that is not an absolute
/// URL is a configuration error, reported before anything starts.
pub fn parse_base_url(s: &str) -> (r: Result<url::Url, ConfigError>)
    ensures
        r is Ok <==> url_ok(s@),
        r matches Err(e) ==> e == ConfigError::BadUrl,
{
    match parse_url(s) {
        Ok(u) => Ok(u),
        Err(_) => Err(ConfigError::BadUrl),
    }
}

} // verus!
