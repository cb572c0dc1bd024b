//! Identifiers as they cross the service's boundary: 128-bit values inside,
//! text outside.

use vstd::prelude::*;

verus! {

/// The nil identifier: all bits zero.
pub const NIL_UUID: u128 = 0;

/// The value of the UUID that `text` spells, if it spells one.
pub uninterp spec fn uuid_of_text(text: Seq<char>) -> Option<u128>;

/// How a UUID of the given value is written.
pub uninterp spec fn text_of_uuid(value: u128) -> Seq<char>;

/// Reads a UUID with `uuid::Uuid::parse_str`, which takes hexadecimal
/// digits with optional hyphens in any of the crate's formats, and gives
/// its 128 bits with `Uuid::as_u128`. Whether and as what a text is read
/// depends on the text alone; nothing more is claimed.
#[verifier::external_body]
fn read_uuid(text: &str) -> (r: Option<u128>)
    ensures
        r == uuid_of_text(text@),
{
    match uuid::Uuid::parse_str(text) {
        Ok(id) => Some(id.as_u128()),
        Err(_) => None,
    }
}

/// Writes the UUID made by `uuid::Uuid::from_u128` in the way its
/// `Display` does: hyphenated, which takes 36 characters and is one of
/// the formats that `Uuid::parse_str` reads back to the same value.
#[verifier::external_body]
fn write_uuid(value: u128) -> (text: String)
    ensures
        text@ == text_of_uuid(value),
        text@.len() == 36,
        uuid_of_text(text@) == Some(value),
{
    uuid::Uuid::from_u128(value).to_string()
}

/// The identifier to use for the outcome of reading one: the value that
/// was read, or the nil identifier if none was.
pub open spec fn or_nil(parsed: Option<u128>) -> u128 {
    match parsed {
        Some(value) => value,
        None => NIL_UUID,
    }
}

/// The identifier to use for the outcome of reading one.
pub fn uuid_or_nil(parsed: Option<u128>) -> (r: u128)
    ensures
        r == or_nil(parsed),
{
    match parsed {
        Some(value) => value,
        None => NIL_UUID,
    }
}

/// Parses `id` into a UUID. Text that is no UUID gives the nil UUID, so
/// that a malformed identifier is handled like one that names nothing.
pub fn parse_uuid(id: &str) -> (r: u128)
    ensures
        r == or_nil(uuid_of_text(id@)),
{
    uuid_or_nil(read_uuid(id))
}

/// The text of the identifier that stands for `uuid` in the query
/// language. Reading it back gives `uuid` again.
pub fn uuid_to_gql_id(uuid: u128) -> (id: String)
    ensures
        id@ == text_of_uuid(uuid),
        id@.len() == 36,
        or_nil(uuid_of_text(id@)) == uuid,
{
    write_uuid(uuid)
}

/// The UUID that an identifier of the query language stands for, or the
/// nil UUID if it stands for none.
pub fn gql_id_to_uuid(id: &str) -> (r: u128)
    ensures
        r == or_nil(uuid_of_text(id@)),
{
    parse_uuid(id)
}

} // verus!
