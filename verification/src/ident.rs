//! The 128-bit identifiers by which two devices know each other.
//!
//! An identifier is held as a `u128`. The `uuid` crate draws fresh ones and
//! turns them into text and back.

use vstd::prelude::*;

verus! {

/// The sixteen lower-case hexadecimal digits.
pub open spec fn lower_digits() -> Seq<char> {
    seq!['0', '1', '2', '3', '4', '5', '6', '7', '8', '9', 'a', 'b', 'c', 'd', 'e', 'f']
}

/// The sixteen upper-case hexadecimal digits.
pub open spec fn upper_digits() -> Seq<char> {
    seq!['0', '1', '2', '3', '4', '5', '6', '7', '8', '9', 'A', 'B', 'C', 'D', 'E', 'F']
}

/// The `k`-th of the 32 hexadecimal places of `id`, counted from the most
/// significant.
pub open spec fn nibble(id: u128, k: int) -> int {
    ((id >> ((124 - 4 * k) as u128)) & 0xf) as int
}

/// `id` as 32 hexadecimal digits, most significant first.
pub open spec fn simple_text(id: u128, digits: Seq<char>) -> Seq<char> {
    Seq::new(32, |k: int| digits[nibble(id, k)])
}

/// `id` as five groups of 8, 4, 4, 4 and 12 hexadecimal digits with a hyphen
/// between them.
pub open spec fn hyphenated_text(id: u128, digits: Seq<char>) -> Seq<char> {
    let s = simple_text(id, digits);
    s.subrange(0, 8) + seq!['-'] + s.subrange(8, 12) + seq!['-'] + s.subrange(12, 16) + seq!['-']
        + s.subrange(16, 20) + seq!['-'] + s.subrange(20, 32)
}

/// The identifier that `uuid::Uuid::parse_str` reads from `text`, if it reads
/// one.
pub uninterp spec fn parsed_identifier(text: Seq<char>) -> Option<u128>;

/// `uuid::Uuid::new_v4`, as a number. The value is random; only the version
/// (4) and the variant (binary 10) that the crate sets in it are known.
#[verifier::external_body]
pub(crate) fn fresh_identifier() -> (id: u128)
    ensures
        (id >> 76u128) & 0xf == 4,
        (id >> 62u128) & 0x3 == 2,
{
    uuid::Uuid::new_v4().as_u128()
}

/// `uuid::Uuid::parse_str`, with the identifier as a number and the error
/// dropped. The outcome depends on the text alone.
#[verifier::external_body]
pub(crate) fn read_identifier(text: &str) -> (r: Option<u128>)
    ensures
        r == parsed_identifier(text@),
{
    match uuid::Uuid::parse_str(text) {
        Ok(id) => Some(id.as_u128()),
        Err(_) => None,
    }
}

/// The lower-case hyphenated form that `uuid` gives an identifier
/// (`Hyphenated::encode_lower`).
#[verifier::external_body]
pub(crate) fn hyphenated_lower(id: u128) -> (text: String)
    ensures
        text@ == hyphenated_text(id, lower_digits()),
{
    String::from(&*uuid::Uuid::from_u128(id).hyphenated().encode_lower(&mut uuid::Uuid::encode_buffer()))
}

/// The upper-case form without hyphens that `uuid` gives an identifier
/// (`Simple::encode_upper`).
#[verifier::external_body]
pub(crate) fn simple_upper(id: u128) -> (text: String)
    ensures
        text@ == simple_text(id, upper_digits()),
{
    String::from(&*uuid::Uuid::from_u128(id).simple().encode_upper(&mut uuid::Uuid::encode_buffer()))
}

} // verus!
