//! User identifiers. A user is known by a 128-bit number; on the wire and
//! inside a token it is written as a hyphenated UUID.

use vstd::prelude::*;

verus! {

/// The hyphenated text of the UUID whose 128 bits are `id`.
pub uninterp spec fn uuid_text(id: u128) -> Seq<char>;

/// The 128 bits of the UUID that `text` spells, if it spells one.
pub uninterp spec fn uuid_of_text(text: Seq<char>) -> Option<u128>;

/// Writes an identifier as text, by `uuid::Uuid::from_u128` and the
/// `to_string` of `uuid::Uuid`. Trusted: the text is named `uuid_text`,
/// and, as the `uuid` crate documents of every format it writes, parsing
/// that text gives the identifier back.
#[verifier::external_body]
pub(crate) fn format_user_id(id: u128) -> (text: String)
    ensures
        text@ == uuid_text(id),
        uuid_of_text(text@) == Some(id),
{
    uuid::Uuid::from_u128(id).to_string()
}

/// Reads an identifier from text, by `uuid::Uuid::parse_str` and
/// `uuid::Uuid::as_u128`. Trusted: the outcome is named `uuid_of_text`.
#[verifier::external_body]
pub(crate) fn parse_user_id(text: &str) -> (id: Option<u128>)
    ensures
        id == uuid_of_text(text@),
{
    match uuid::Uuid::parse_str(text) {
        Ok(parsed) => Some(parsed.as_u128()),
        Err(_) => None,
    }
}

/// Draws a new random identifier, by `uuid::Uuid::new_v4`. Trusted; nothing
/// is claimed of the value.
#[verifier::external_body]
pub(crate) fn fresh_user_id() -> (id: u128) {
    uuid::Uuid::new_v4().as_u128()
}

} // verus!
