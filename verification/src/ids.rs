//! Identifiers. Users, conversations and messages are identified by UUIDs; the
//! library holds one as the 128-bit number it stands for. Reading the text of
//! a UUID is left to the `uuid` crate; writing it is done here.

use crate::text::{hex_text, push_digits};
use vstd::prelude::*;

verus! {

/// A UUID, held as its 128-bit value (most significant byte first).
pub type Id = u128;

/// The canonical text of a UUID: its 32 lower-case hexadecimal digits in
/// groups of 8, 4, 4, 4 and 12, separated by hyphens.
pub open spec fn hyphenated(id: Id) -> Seq<char> {
    hex_text(id as nat / 0x1_0000_0000_0000_0000_0000_0000, 8) + seq!['-'] + hex_text(
        id as nat / 0x1_0000_0000_0000_0000_0000,
        4,
    ) + seq!['-'] + hex_text(id as nat / 0x1_0000_0000_0000_0000, 4) + seq!['-'] + hex_text(
        id as nat / 0x1_0000_0000_0000,
        4,
    ) + seq!['-'] + hex_text(id as nat, 12)
}

/// The identifier that `text` is read as, or `None` where `text` is not the
/// text of a UUID in any of the forms the `uuid` crate accepts.
pub uninterp spec fn uuid_parsed(text: Seq<char>) -> Option<Id>;

/// Calls `uuid::Uuid::try_parse` and takes the value of the UUID it returns.
///
/// Trusted: the parser is a function of the text alone, named by
/// [`uuid_parsed`].
#[verifier::external_body]
pub(crate) fn parse_uuid(text: &str) -> (parsed: Option<Id>)
    ensures
        parsed == uuid_parsed(text@),
{
    match uuid::Uuid::try_parse(text) {
        Ok(uuid) => Some(uuid.as_u128()),
        Err(_) => None,
    }
}

/// Writes an identifier as the canonical text of its UUID.
pub fn format_uuid(id: Id) -> (text: String)
    ensures
        text@ == hyphenated(id),
{
    let mut text = String::new();
    push_digits(&mut text, id / 0x1_0000_0000_0000_0000_0000_0000, 8, 16);
    text.push('-');
    push_digits(&mut text, id / 0x1_0000_0000_0000_0000_0000, 4, 16);
    text.push('-');
    push_digits(&mut text, id / 0x1_0000_0000_0000_0000, 4, 16);
    text.push('-');
    push_digits(&mut text, id / 0x1_0000_0000_0000, 4, 16);
    text.push('-');
    push_digits(&mut text, id, 12, 16);
    assert(text@ =~= hyphenated(id));
    text
}

} // verus!
