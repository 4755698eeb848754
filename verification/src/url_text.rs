//! Turning the text of an endpoint URL into a parsed URL.
//!
//! Nothing in this file is proved: parsing is the work of the `url` crate.

use vstd::prelude::*;

verus! {

/// `url::Url`, opaque to the verifier: a parsed URL is handed on to the
/// caller's operation, never inspected.
#[verifier::external_type_specification]
#[verifier::external_body]
pub struct ExUrl(url::Url);

/// `url::ParseError`, opaque to the verifier.
#[verifier::external_type_specification]
#[verifier::external_body]
pub struct ExParseError(url::ParseError);

/// The description that belongs to a parse error: what its `Display`
/// writes.
pub uninterp spec fn parse_error_description(e: url::ParseError) -> Seq<char>;

/// What parsing a text as an absolute URL gives: what `Url::parse` returns
/// for it.
pub uninterp spec fn url_parse_result(text: Seq<char>) -> Result<url::Url, url::ParseError>;

/// `Url::parse` parses an absolute URL from a text, or says why it could
/// not. The outcome depends on the text alone; nothing is claimed of which
/// texts parse.
#[verifier::external_body]
pub(crate) fn parse_url(text: &str) -> (r: Result<url::Url, url::ParseError>)
    ensures
        r == url_parse_result(text@),
{
    url::Url::parse(text)
}

/// The `Display` of `url::ParseError` writes the fixed description of the
/// kind of error.
#[verifier::external_body]
pub(crate) fn parse_error_text(e: &url::ParseError) -> (text: String)
    ensures
        text@ == parse_error_description(*e),
{
    e.to_string()
}

} // verus!
