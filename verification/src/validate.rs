//! Field validation shared by the request payloads: e-mail and URL
//! well-formedness are judged by the validator crate.

use vstd::prelude::*;

verus! {

/// Whether a string is a well-formed e-mail address in the validator crate's
/// judgement (the HTML5 e-mail grammar): a function of the characters alone.
pub uninterp spec fn spec_email_ok(s: Seq<char>) -> bool;

/// Whether a string parses as a URL in the validator crate's judgement
/// (the url crate's parser): a function of the characters alone.
pub uninterp spec fn spec_url_ok(s: Seq<char>) -> bool;

/// Relies on validator::ValidateEmail::validate_email for &str: the HTML5
/// e-mail grammar, decided by the characters alone.
#[verifier::external_body]
pub(crate) fn email_ok(s: &str) -> (r: bool)
    ensures
        r == spec_email_ok(s@),
{
    validator::ValidateEmail::validate_email(&s)
}

/// Relies on validator::ValidateUrl::validate_url for &str, which accepts
/// exactly what url::Url::parse accepts, decided by the characters alone.
#[verifier::external_body]
pub(crate) fn url_ok(s: &str) -> (r: bool)
    ensures
        r == spec_url_ok(s@),
{
    validator::ValidateUrl::validate_url(&s)
}

} // verus!
