//! Absolute URLs. Parsing and resolving are the `url` crate's work; a URL is held here
//! as the text that the crate writes for it.

use url::ParseError;
use url::Url;
use vstd::prelude::*;

verus! {

/// The text of the URL that `Url::parse` makes of `input`, if it makes one.
pub uninterp spec fn url_parsed(input: Seq<char>) -> Option<Seq<char>>;

/// The text of the URL that `Url::join` makes of `reference`, taken relative to the URL
/// that `base` is the text of, if it makes one.
pub uninterp spec fn url_joined(base: Seq<char>, reference: Seq<char>) -> Option<Seq<char>>;

/// Calls `Url::parse` and hands back the URL as text. The result depends on the input
/// alone; `url_parsed` is its name.
#[verifier::external_body]
pub(crate) fn parse_url(input: &str) -> (r: Result<String, ParseError>)
    ensures
        match r {
            Ok(text) => url_parsed(input@) == Some(text@),
            Err(_) => url_parsed(input@) is None,
        },
{
    match Url::parse(input) {
        Ok(url) => Ok(String::from(url)),
        Err(e) => Err(e),
    }
}

/// Calls `Url::join` on the URL that `base` is the text of, and hands back the URL as
/// text. The result depends on the two texts alone; `url_joined` is its name.
#[verifier::external_body]
pub(crate) fn join_url(base: &str, reference: &str) -> (r: Result<String, ParseError>)
    ensures
        match r {
            Ok(text) => url_joined(base@, reference@) == Some(text@),
            Err(_) => url_joined(base@, reference@) is None,
        },
{
    match Url::parse(base)?.join(reference) {
        Ok(url) => Ok(String::from(url)),
        Err(e) => Err(e),
    }
}

} // verus!
