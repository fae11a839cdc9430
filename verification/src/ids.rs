//! Object identities: 128-bit uuids and their text form.
//!
//! A uuid is kept as its 128 bits. Text is read and written by the `uuid`
//! crate.

use vstd::prelude::*;
use crate::errors::DVError;
use crate::errors::DVResult;

verus! {

/// The uuid whose bits are all zero. Reserved nodes carry it.
pub const NIL_UUID: u128 = 0;

/// The bits of the uuid that `uuid::Uuid::parse_str` reads from `text`, or
/// `None` where it refuses the text. It accepts the simple, hyphenated, URN
/// and braced forms.
pub uninterp spec fn uuid_text_value(text: Seq<char>) -> Option<u128>;

/// The lower-case hexadecimal digit of a value below sixteen.
pub open spec fn spec_hex_digit(value: int) -> char {
    if value < 10 {
        (value + 48) as char
    } else {
        (value + 87) as char
    }
}

/// The 4-bit group number `index` of `bits`, counted from the most
/// significant one.
pub open spec fn spec_nibble(bits: u128, index: int) -> int {
    ((bits as int) / vstd::arithmetic::power::pow(16, (31 - index) as nat)) % 16
}

/// The hyphenated text of a uuid: 32 lower-case hexadecimal digits, most
/// significant first, in groups of 8, 4, 4, 4 and 12.
pub open spec fn spec_uuid_hyphenated(bits: u128) -> Seq<char> {
    Seq::new(
        36,
        |i: int|
            if i == 8 || i == 13 || i == 18 || i == 23 {
                '-'
            } else if i < 8 {
                spec_hex_digit(spec_nibble(bits, i))
            } else if i < 13 {
                spec_hex_digit(spec_nibble(bits, i - 1))
            } else if i < 18 {
                spec_hex_digit(spec_nibble(bits, i - 2))
            } else if i < 23 {
                spec_hex_digit(spec_nibble(bits, i - 3))
            } else {
                spec_hex_digit(spec_nibble(bits, i - 4))
            },
    )
}

/// Reads a uuid with `uuid::Uuid::parse_str` and gives its bits with
/// `uuid::Uuid::as_u128`.
#[verifier::external_body]
fn uuid_from_text(val: &str) -> (bits: Option<u128>)
    ensures
        bits == uuid_text_value(val@),
{
    uuid::Uuid::parse_str(val).ok().map(|id| id.as_u128())
}

/// Writes a uuid as `uuid::Uuid::from_u128` and `uuid::Uuid::hyphenated`
/// print it. `uuid::Uuid::parse_str` reads every form that the crate
/// prints, so the text is read back as the same uuid.
#[verifier::external_body]
fn uuid_text(bits: u128) -> (text: String)
    ensures
        text@ == spec_uuid_hyphenated(bits),
        uuid_text_value(text@) == Some(bits),
{
    uuid::Uuid::from_u128(bits).hyphenated().to_string()
}

/// What [`parse_uuid`] returns for `val` once the text has been read.
pub open spec fn spec_uuid_outcome(val: Seq<char>, parsed: Option<u128>, res: DVResult<u128>) -> bool {
    match parsed {
        Some(bits) => res == Ok::<u128, DVError>(bits),
        None => res matches Err(DVError::UuidParseError(s)) && s@ == val,
    }
}

/// Turns the reading of `val` into a result: the bits, or an error that
/// carries the refused text.
pub fn uuid_outcome(val: &str, parsed: Option<u128>) -> (res: DVResult<u128>)
    ensures
        spec_uuid_outcome(val@, parsed, res),
{
    match parsed {
        Some(bits) => Ok(bits),
        None => Err(DVError::UuidParseError(String::from_str(val))),
    }
}

/// Reads a uuid from text.
pub fn parse_uuid(val: &str) -> (res: DVResult<u128>)
    ensures
        spec_uuid_outcome(val@, uuid_text_value(val@), res),
{
    uuid_outcome(val, uuid_from_text(val))
}

/// The hyphenated text of a uuid. Reading the text gives the uuid back.
pub fn uuid_to_string(bits: u128) -> (text: String)
    ensures
        text@ == spec_uuid_hyphenated(bits),
        uuid_text_value(text@) == Some(bits),
{
    uuid_text(bits)
}

} // verus!
