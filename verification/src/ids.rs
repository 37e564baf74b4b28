//! Identifiers: sessions and indexed sources are named by 128-bit values,
//! written and parsed in the textual UUID form by the `uuid` crate.

use vstd::prelude::*;

verus! {

/// The 128-bit value that the `uuid` crate's parser reads out of `s`:
/// `Some` exactly on the textual UUID forms it accepts, `None` otherwise.
pub uninterp spec fn uuid_value_of(s: Seq<char>) -> Option<u128>;

/// Relies on `uuid::Uuid::try_parse` and `Uuid::as_u128`: whether and how a
/// string parses depends on its characters alone.
#[verifier::external_body]
pub(crate) fn parse_uuid(s: &str) -> (r: Option<u128>)
    ensures
        r == uuid_value_of(s@),
{
    match uuid::Uuid::try_parse(s) {
        Ok(u) => Some(u.as_u128()),
        Err(_) => None,
    }
}

/// Relies on `uuid::Uuid::new_v4`: a freshly drawn random identifier.
/// The value is random, so nothing is promised of it.
#[verifier::external_body]
pub(crate) fn fresh_uuid() -> u128 {
    uuid::Uuid::new_v4().as_u128()
}

} // verus!
