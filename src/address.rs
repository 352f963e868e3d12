use vstd::prelude::*;

use crate::error::HttpieError;

verus! {

/// Whether a string parses as an absolute URL (a scheme, then what that
/// scheme asks for), by the WHATWG URL rules.
pub uninterp spec fn parses_as_url(s: Seq<char>) -> bool;

/// Relies on `reqwest::Url::parse` (the `url` crate's `Url::parse`): it
/// accepts exactly the absolute URLs. With no base URL given, a string with
/// no `:` has no scheme and is refused as a relative URL.
#[verifier::external_body]
fn is_absolute_url(s: &str) -> (r: bool)
    ensures
        r == parses_as_url(s@),
        !s@.contains(':') ==> !r,
{
    reqwest::Url::parse(s).is_ok()
}

/// Checks that `s` is an absolute URL and hands it back unchanged (no
/// normalisation).
pub fn parse_url(s: &str) -> (r: Result<String, HttpieError>)
    ensures
        r is Ok <==> parses_as_url(s@),
        r matches Ok(u) ==> u@ == s@,
        r matches Err(e) ==> (e matches HttpieError::InvalidUrl(t) && t@ == s@),
        !s@.contains(':') ==> r is Err,
{
    if is_absolute_url(s) {
        Ok(s.to_owned())
    } else {
        Err(HttpieError::InvalidUrl(s.to_owned()))
    }
}

} // verus!
