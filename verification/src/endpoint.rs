//! Resolution of an exchange server's base endpoint.
//!
//! URL construction may depend on runtime-validated components, so endpoint
//! resolution is fallible: a malformed endpoint text is a configuration
//! error, not a panic.

use vstd::prelude::*;
use crate::error::ConnectionError;

verus! {

#[verifier::external_type_specification]
#[verifier::external_body]
pub struct ExUrl(url::Url);

#[verifier::external_type_specification]
#[verifier::external_body]
pub struct ExParseError(url::ParseError);

/// Whether `url::Url::parse` accepts the given text. Parsing is a pure
/// function of the characters alone.
pub uninterp spec fn url_parse_ok(s: Seq<char>) -> bool;

/// The serialization a parsed [`url::Url`] value holds; the value determines
/// its text.
pub uninterp spec fn url_text(u: url::Url) -> Seq<char>;

/// The canonical serialization `url::Url::parse` gives a well-formed input:
/// a pure function of the characters alone.
pub uninterp spec fn url_canon(s: Seq<char>) -> Seq<char>;

/// Relies on `url::Url::parse`: deterministic in its input, it returns `Ok`
/// exactly when the text is a well-formed URL, and the parsed value holds
/// the canonical serialization of that text.
#[verifier::external_body]
fn try_parse_url(s: &str) -> (r: Result<url::Url, url::ParseError>)
    ensures
        r is Ok <==> url_parse_ok(s@),
        r matches Ok(u) ==> url_text(u) == url_canon(s@),
{
    url::Url::parse(s)
}

/// Resolve an endpoint's text to a connectable URL.
///
/// Returns the canonical URL of the text exactly when it is well-formed;
/// otherwise the offending text is reported as a configuration error.
pub fn parse_url(s: &str) -> (r: Result<url::Url, ConnectionError>)
    ensures
        r is Ok <==> url_parse_ok(s@),
        r matches Ok(u) ==> url_text(u) == url_canon(s@),
        r matches Err(e) ==> e matches ConnectionError::UrlParse(t) && t@ == s@,
{
    match try_parse_url(s) {
        Ok(base_url) => Ok(base_url),
        Err(_) => Err(ConnectionError::UrlParse(s.to_owned())),
    }
}

} // verus!
