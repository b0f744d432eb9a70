//! Field-format checks backed by the validator crate. What counts as a
//! well-formed email or URL is the crate's judgement; the library names those
//! judgements and reasons with the names.

use vstd::prelude::*;

verus! {

/// Whether the validator crate accepts the string as an email address.
pub uninterp spec fn is_email(s: Seq<char>) -> bool;

/// Whether the validator crate accepts the string as a URL.
pub uninterp spec fn is_url(s: Seq<char>) -> bool;

/// Relies on validator's `ValidateEmail` for `str`: whether the string is a
/// well-formed email address by the HTML5 rules. Its source rejects an empty
/// string outright.
#[verifier::external_body]
pub fn validate_email(s: &str) -> (r: bool)
    ensures
        r == is_email(s@),
        s@.len() == 0 ==> !r,
{
    validator::ValidateEmail::validate_email(&s)
}

/// Relies on validator's `ValidateUrl` for `str`: whether url's `Url::parse`
/// accepts the string.
#[verifier::external_body]
pub fn validate_url(s: &str) -> (r: bool)
    ensures
        r == is_url(s@),
{
    validator::ValidateUrl::validate_url(&s)
}

} // verus!
