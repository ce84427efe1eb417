//! Article identifiers. An identifier is a UUID, held as the 128-bit number
//! that its sixteen bytes spell, first byte highest. Making a fresh one and
//! reading one from text are left to the `uuid` crate.

use vstd::prelude::*;
use crate::error::ArticleError;

verus! {

/// `uuid` has the layout of a random UUID: version 4 in the high four bits
/// of its seventh byte, and the RFC 4122 variant, binary 10, in the high
/// two bits of its ninth.
pub open spec fn is_random_uuid(uuid: u128) -> bool {
    (uuid >> 76u128) & 0xf == 4 && (uuid >> 62u128) & 0x3 == 2
}

/// The number of the UUID that `uuid::Uuid::parse_str` reads from `text`,
/// or `None` where it rejects the text.
pub uninterp spec fn parsed_uuid(text: Seq<char>) -> Option<u128>;

/// A fresh identifier from `uuid::Uuid::new_v4`, as a number
/// (`Uuid::as_u128`). The bytes come from the operating system's random
/// source, so nothing is claimed of them beyond the version and variant
/// bits that `new_v4` sets. Should the random source fail, `new_v4` panics.
#[verifier::external_body]
pub(crate) fn random_uuid() -> (uuid: u128)
    ensures
        is_random_uuid(uuid),
{
    uuid::Uuid::new_v4().as_u128()
}

/// Reads a UUID from `text` with `uuid::Uuid::parse_str` and gives its
/// number (`Uuid::as_u128`), or `None` where the text is rejected. The
/// result depends on the text alone.
#[verifier::external_body]
fn parse_uuid(text: &str) -> (parsed: Option<u128>)
    ensures
        parsed == parsed_uuid(text@),
{
    match uuid::Uuid::parse_str(text) {
        Ok(uuid) => Some(uuid.as_u128()),
        Err(_) => None,
    }
}

/// What a parsed identifier means to a request: the identifier, or a
/// `ValidationError` where the text was no UUID.
pub open spec fn checked_id(parsed: Option<u128>) -> Result<u128, ArticleError> {
    match parsed {
        Some(uuid) => Ok(uuid),
        None => Err(ArticleError::ValidationError),
    }
}

/// Turns the outcome of parsing into the identifier or a
/// `ValidationError`.
pub fn check_id(parsed: Option<u128>) -> (id: Result<u128, ArticleError>)
    ensures
        id == checked_id(parsed),
{
    match parsed {
        Some(uuid) => Ok(uuid),
        None => Err(ArticleError::ValidationError),
    }
}

/// Reads an identifier from the text of a path segment: the identifier
/// where the text is a UUID, else a `ValidationError`.
pub fn parse_id(text: &str) -> (id: Result<u128, ArticleError>)
    ensures
        id == checked_id(parsed_uuid(text@)),
{
    check_id(parse_uuid(text))
}

} // verus!
