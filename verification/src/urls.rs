//! Parsing and normalization of URLs, carried as plain strings.

use vstd::prelude::*;

verus! {

/// The normalized serialization of `s` as a URL, when `s` parses as one: a
/// fixed function of the input string alone.
pub uninterp spec fn parsed_url(s: Seq<char>) -> Option<Seq<char>>;

/// Relies on `url::Url::parse`: deterministic in its input; the result is
/// serialized back to a string (`Url` implements `Display`), so an accepted
/// input comes back in normalized form and a rejected one yields nothing.
#[verifier::external_body]
pub(crate) fn parse_url(s: &str) -> (r: Option<String>)
    ensures
        match r {
            Some(u) => parsed_url(s@) == Some(u@),
            None => parsed_url(s@) is None,
        },
{
    match url::Url::parse(s) {
        Ok(u) => Some(u.to_string()),
        Err(_) => None,
    }
}

} // verus!
