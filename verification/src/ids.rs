//! Identifiers: entities are keyed by 128-bit ids, read from and written to
//! their canonical UUID text through the uuid crate.

use vstd::prelude::*;

verus! {

/// The id a UUID string denotes, if it is well-formed: the value that
/// `uuid::Uuid::parse_str` accepts, a function of the characters alone.
pub uninterp spec fn spec_uuid_parse(s: Seq<char>) -> Option<u128>;

/// The canonical hyphenated text of an id: what `uuid::Uuid` displays,
/// a function of the 128 bits alone.
pub uninterp spec fn spec_uuid_text(id: u128) -> Seq<char>;

/// Relies on uuid::Uuid::parse_str: accepts the hyphenated, simple, urn and
/// braced UUID formats and yields the 128-bit value; rejects everything else.
#[verifier::external_body]
pub(crate) fn uuid_parse(s: &str) -> (r: Option<u128>)
    ensures
        r == spec_uuid_parse(s@),
{
    uuid::Uuid::parse_str(s).ok().map(|u| u.as_u128())
}

/// Relies on uuid::Uuid's Display impl: formats the id as lowercase
/// hyphenated UUID text.
#[verifier::external_body]
pub(crate) fn uuid_format(id: u128) -> (r: String)
    ensures
        r@ == spec_uuid_text(id),
{
    format!("{}", uuid::Uuid::from_u128(id))
}

/// Relies on uuid::Uuid::new_v4: draws a fresh random id; nothing is promised
/// of its value.
#[verifier::external_body]
pub(crate) fn uuid_new_v4() -> u128 {
    uuid::Uuid::new_v4().as_u128()
}

/// An id that has been through UUID validation.
pub struct ValidatedUuid(pub u128);

impl ValidatedUuid {
    /// Create a new ValidatedUuid from an id.
    pub fn new(id: u128) -> (r: Self)
        ensures
            r.0 == id,
    {
        ValidatedUuid(id)
    }

    /// Get the inner id value.
    pub fn into_inner(self) -> (r: u128)
        ensures
            r == self.0,
    {
        self.0
    }

    /// Parse UUID text; `None` exactly on text that is not a UUID.
    pub fn parse(s: &str) -> (r: Option<ValidatedUuid>)
        ensures
            match spec_uuid_parse(s@) {
                Some(id) => r matches Some(v) && v.0 == id,
                None => r is None,
            },
    {
        match uuid_parse(s) {
            Some(id) => Some(ValidatedUuid(id)),
            None => None,
        }
    }

    /// The canonical text of this id.
    pub fn text(&self) -> (r: String)
        ensures
            r@ == spec_uuid_text(self.0),
    {
        uuid_format(self.0)
    }
}

} // verus!
