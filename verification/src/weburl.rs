//! Validation of request addresses before the HTTP client gets to see
//! them, through the `url` crate's parser (reqwest re-exports its type).

use vstd::prelude::*;

verus! {

#[verifier::external_type_specification]
#[verifier::external_body]
pub struct ExUrl(reqwest::Url);

/// Whether the `url` crate's parser accepts `s`.  Which strings it accepts
/// is a grammar of many pages, a function of the characters alone, so the
/// set is named rather than spelt out.
pub uninterp spec fn url_parse_ok(s: Seq<char>) -> bool;

/// Relies on `Url::parse` of the `url` crate: it returns `Ok` exactly for
/// the addresses its grammar accepts, and that depends on `s` alone.
#[verifier::external_body]
fn parse_checked(s: &str) -> (r: Option<reqwest::Url>)
    ensures
        r is Some <==> url_parse_ok(s@),
{
    reqwest::Url::parse(s).ok()
}

/// The rejected input, handed back when the parser does not accept it.
#[derive(Debug)]
pub struct UrlParseError {
    pub input: String,
}

/// Checks that `s` is a well-formed address and hands it back unchanged;
/// an address the parser rejects comes back inside the error instead.
pub fn parse_url(s: &str) -> (r: Result<String, UrlParseError>)
    ensures
        r is Ok <==> url_parse_ok(s@),
        r matches Ok(out) ==> out@ == s@,
        r matches Err(e) ==> e.input@ == s@,
{
    match parse_checked(s) {
        Some(_parsed) => Ok(s.to_owned()),
        None => Err(UrlParseError { input: s.to_owned() }),
    }
}

} // verus!
