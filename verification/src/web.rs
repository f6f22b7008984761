//! Urls, as the `url` crate behind `reqwest` reads them.

use vstd::prelude::*;
use crate::text::str_equal;

verus! {

/// The scheme of a url, where the text parses as an absolute url.
pub uninterp spec fn parsed_scheme(text: Seq<char>) -> Option<Seq<char>>;

/// Whether a text parses as an absolute url.
pub open spec fn is_url(text: Seq<char>) -> bool {
    parsed_scheme(text) is Some
}

/// Whether a text is a url that can be fetched over the web.
pub open spec fn is_web_url(text: Seq<char>) -> bool {
    parsed_scheme(text) == Some("https"@) || parsed_scheme(text) == Some("http"@)
}

/// Calls `reqwest::Url::parse` and, on what it returns, `Url::scheme`:
/// whether the text parses, and the scheme it then has, depend on the text
/// alone.
#[verifier::external_body]
pub(crate) fn url_scheme_of(text: &str) -> (scheme: Option<String>)
    ensures
        scheme is Some == parsed_scheme(text@) is Some,
        scheme is Some ==> scheme->0@ == parsed_scheme(text@)->0,
{
    reqwest::Url::parse(text).ok().map(|url| url.scheme().to_string())
}

/// Whether `text` parses as an absolute url.
pub fn url_is_valid(text: &str) -> (valid: bool)
    ensures
        valid == is_url(text@),
{
    url_scheme_of(text).is_some()
}

/// Whether `text` is an `http` or `https` url.
pub fn url_is_web(text: &str) -> (web: bool)
    ensures
        web == is_web_url(text@),
{
    match url_scheme_of(text) {
        Some(scheme) => str_equal(scheme.as_str(), "https") || str_equal(scheme.as_str(), "http"),
        None => false,
    }
}

} // verus!
