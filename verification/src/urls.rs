//! Parsing of absolute URLs, done by the `url` parser that reqwest re-exports.
use vstd::prelude::*;

verus! {

/// The serialization of the URL that `reqwest::Url::parse` reads from
/// `input`, or `None` when `input` is not an absolute URL.
pub uninterp spec fn parsed_url(input: Seq<char>) -> Option<Seq<char>>;

/// The serialization of the URL that `reqwest::Url::parse_with_params`
/// builds from `input` and the single query pair (`key`, `value`), or `None`
/// when `input` is not an absolute URL.
pub uninterp spec fn parsed_url_with_param(input: Seq<char>, key: Seq<char>, value: Seq<char>) -> Option<
    Seq<char>,
>;

/// Calls `reqwest::Url::parse`. On success gives the URL's serialization;
/// on failure the parser's message, of which nothing is promised.
#[verifier::external_body]
pub(crate) fn parse_url(input: &str) -> (r: Result<String, String>)
    ensures
        match r {
            Ok(u) => parsed_url(input@) == Some(u@),
            Err(_) => parsed_url(input@) is None,
        },
{
    match reqwest::Url::parse(input) {
        Ok(u) => Ok(String::from(u)),
        Err(e) => Err(e.to_string()),
    }
}

/// Calls `reqwest::Url::parse_with_params` with one query pair. It parses
/// `input` as `Url::parse` does and, when that succeeds, appends the pair to
/// the query; so it fails exactly when `input` alone does not parse. On
/// failure it gives the parser's message, of which nothing is promised.
#[verifier::external_body]
pub(crate) fn parse_url_with_param(input: &str, key: &str, value: &str) -> (r: Result<
    String,
    String,
>)
    ensures
        (r is Ok) == (parsed_url(input@) is Some),
        match r {
            Ok(u) => parsed_url_with_param(input@, key@, value@) == Some(u@),
            Err(_) => parsed_url_with_param(input@, key@, value@) is None,
        },
{
    match reqwest::Url::parse_with_params(input, &[(key, value)]) {
        Ok(u) => Ok(String::from(u)),
        Err(e) => Err(e.to_string()),
    }
}

} // verus!
