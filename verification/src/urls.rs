//! Trusted view of the URL operations the flow needs.
//!
//! Parsing, joining and host extraction are the `url` crate's work; the
//! library only names their results. Both operations are functions of their
//! string arguments alone.

use vstd::prelude::*;

verus! {

/// The string of the URL obtained by parsing `base` as an absolute URL and
/// joining `input` against it, or nothing when either step fails.
pub uninterp spec fn spec_url_join(base: Seq<char>, input: Seq<char>) -> Option<Seq<char>>;

/// The domain of the URL obtained by parsing `u`, or nothing when `u` does
/// not parse or its host is not a domain name.
pub uninterp spec fn spec_url_domain(u: Seq<char>) -> Option<Seq<char>>;

/// Relies on `url::Url::parse` and `url::Url::join`: both are deterministic
/// in their string arguments, so the joined URL's text is a function of
/// `base` and `input`; either step failing yields nothing.
#[verifier::external_body]
pub fn join_url(base: &str, input: &str) -> (r: Option<String>)
    ensures
        match r {
            Some(u) => spec_url_join(base@, input@) == Some(u@),
            None => spec_url_join(base@, input@) is None,
        },
{
    match url::Url::parse(base) {
        Ok(b) => match b.join(input) {
            Ok(u) => Some(u.as_str().to_owned()),
            Err(_) => None,
        },
        Err(_) => None,
    }
}

/// Relies on `url::Url::parse` and `url::Url::domain`: both are deterministic
/// in the URL's text, so the domain is a function of `u`; a parse failure or
/// a non-domain host yields nothing.
#[verifier::external_body]
pub fn url_domain(u: &str) -> (r: Option<String>)
    ensures
        match r {
            Some(d) => spec_url_domain(u@) == Some(d@),
            None => spec_url_domain(u@) is None,
        },
{
    match url::Url::parse(u) {
        Ok(parsed) => parsed.domain().map(|d| d.to_owned()),
        Err(_) => None,
    }
}

} // verus!
