//! Document ids: UUIDs, held as their 128-bit value (`Uuid::as_u128`).
use crate::hash::hex_digit;
use uuid::Uuid;
use vstd::prelude::*;

verus! {

/// The `i`-th hexadecimal digit (0 = most significant) of a 128-bit value.
pub open spec fn uuid_nibble(value: u128, i: int) -> int {
    ((value as int) / (vstd::arithmetic::power2::pow2((124 - 4 * i) as nat) as int)) % 16
}

/// The 32 lowercase hexadecimal digits of a 128-bit value.
pub open spec fn uuid_digits(value: u128) -> Seq<char> {
    Seq::new(32, |i: int| hex_digit(uuid_nibble(value, i)))
}

/// The hyphenated text of a UUID (`8-4-4-4-12` lowercase hexadecimal
/// digits), as `Uuid`'s `Display` writes it.
pub open spec fn uuid_text(value: u128) -> Seq<char> {
    let d = uuid_digits(value);
    d.subrange(0, 8) + seq!['-'] + d.subrange(8, 12) + seq!['-'] + d.subrange(12, 16) + seq!['-']
        + d.subrange(16, 20) + seq!['-'] + d.subrange(20, 32)
}

/// What `Uuid::parse_str` makes of a text: the UUID's 128-bit value, or the
/// text of the error (its `Display`) when the text is not a UUID.
pub uninterp spec fn uuid_parse_of(s: Seq<char>) -> Result<u128, Seq<char>>;

/// The UUID a text spells, or `None` when `Uuid::parse_str` refuses it.
pub open spec fn uuid_of_text(s: Seq<char>) -> Option<u128> {
    match uuid_parse_of(s) {
        Ok(v) => Some(v),
        Err(_) => None,
    }
}

/// The version field of a UUID (bits 76 to 79 of its value).
pub open spec fn uuid_version(value: u128) -> u128 {
    (value >> 76u128) & 0xfu128
}

/// The variant field of a UUID (bits 62 and 63 of its value).
pub open spec fn uuid_variant(value: u128) -> u128 {
    (value >> 62u128) & 0x3u128
}

/// What parsing a UUID text gives: its value, or the parser's message.
pub type UuidParse = Result<u128, String>;

/// A parse result with the error's text taken by its view.
pub open spec fn parse_result_view(r: Result<u128, String>) -> Result<u128, Seq<char>> {
    match r {
        Ok(v) => Ok(v),
        Err(m) => Err(m@),
    }
}

/// The value of a successful parse.
pub open spec fn parsed_value(r: UuidParse) -> Option<u128> {
    match r {
        Ok(v) => Some(v),
        Err(_) => None,
    }
}

/// Calls `Uuid::parse_str`, taking the value with `as_u128` and the error's
/// text with `to_string`. The result is named by `uuid_parse_of`; the crate's
/// parser reads a hyphenated text of lowercase hexadecimal digits as the UUID
/// it spells, which is also stated.
#[verifier::external_body]
pub fn parse_uuid(s: &str) -> (r: UuidParse)
    ensures
        uuid_parse_of(s@) == parse_result_view(r),
        forall|v: u128| s@ == uuid_text(v) ==> parsed_value(r) == Some(v),
{
    match Uuid::parse_str(s) {
        Ok(u) => Ok(u.as_u128()),
        Err(e) => Err(e.to_string()),
    }
}

/// Calls `Uuid::from_u128` and `to_string`: the hyphenated lowercase text,
/// which `Uuid::parse_str` reads back as the same UUID.
#[verifier::external_body]
pub fn uuid_to_string(value: u128) -> (r: String)
    ensures
        r@ == uuid_text(value),
        uuid_of_text(r@) == Some(value),
{
    Uuid::from_u128(value).to_string()
}

/// The big-endian value of a sequence of bytes.
pub open spec fn be_value(bytes: Seq<u8>) -> int
    decreases bytes.len(),
{
    if bytes.len() == 0 {
        0
    } else {
        be_value(bytes.drop_last()) * 256 + bytes.last()
    }
}

/// The bits of a UUID's value outside its version and variant fields.
pub open spec fn random_bits_mask() -> u128 {
    0xffff_ffff_ffff_0fff_3fff_ffff_ffff_ffffu128
}

/// Version 4 in the version field and `0b10` in the variant field.
pub open spec fn version4_bits() -> u128 {
    0x0000_0000_0000_4000_8000_0000_0000_0000u128
}

/// Calls `getrandom::fill` on 16 bytes: random bytes from the operating
/// system, `None` when the source fails. Nothing is stated of the bytes.
#[verifier::external_body]
fn random_bytes() -> (r: Option<[u8; 16]>) {
    let mut bytes = [0u8; 16];
    match getrandom::fill(&mut bytes) {
        Ok(()) => Some(bytes),
        Err(_) => None,
    }
}

/// Calls `Builder::from_random_bytes(..).into_uuid().as_u128()`: the bytes
/// read as a big-endian value, with the version field set to 4 and the
/// variant field to `0b10`.
#[verifier::external_body]
fn uuid_from_random_bytes(bytes: [u8; 16]) -> (r: u128)
    ensures
        r == ((be_value(bytes@) as u128) & random_bits_mask()) | version4_bits(),
{
    uuid::Builder::from_random_bytes(bytes).into_uuid().as_u128()
}

/// A fresh random (version 4) UUID, `None` when no random bytes can be had.
pub fn new_uuid_v4() -> (r: Option<u128>)
    ensures
        r matches Some(v) ==> uuid_version(v) == 4 && uuid_variant(v) == 2,
{
    match random_bytes() {
        Some(bytes) => {
            let v = uuid_from_random_bytes(bytes);
            let ghost x = be_value(bytes@) as u128;
            assert(((((x & 0xffff_ffff_ffff_0fff_3fff_ffff_ffff_ffffu128) | 0x0000_0000_0000_4000_8000_0000_0000_0000u128)
                >> 76u128) & 0xfu128) == 4u128) by (bit_vector);
            assert(((((x & 0xffff_ffff_ffff_0fff_3fff_ffff_ffff_ffffu128) | 0x0000_0000_0000_4000_8000_0000_0000_0000u128)
                >> 62u128) & 0x3u128) == 2u128) by (bit_vector);
            Some(v)
        },
        None => None,
    }
}

} // verus!
