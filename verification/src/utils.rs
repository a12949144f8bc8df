//! Random identifiers for packs and modules.

use vstd::prelude::*;
use crate::text::digit_char;

verus! {

/// The lower-case hex character of a nibble `d` (`0 <= d < 16`).
pub open spec fn hex_char(d: nat) -> char {
    if d < 10 {
        digit_char(d)
    } else {
        ((d + 87) as u32) as char
    }
}

/// The 32 lower-case hex characters of 16 bytes, high nibble first.
pub open spec fn simple_uuid_text(b: Seq<u8>) -> Seq<char> {
    Seq::new(
        32,
        |i: int|
            if i % 2 == 0 {
                hex_char((b[i / 2] / 16) as nat)
            } else {
                hex_char((b[i / 2] % 16) as nat)
            },
    )
}

/// The hex characters of 16 bytes in groups of 8, 4, 4, 4 and 12, joined by `-`.
pub open spec fn hyphenated_uuid_text(b: Seq<u8>) -> Seq<char> {
    let s = simple_uuid_text(b);
    s.subrange(0, 8) + seq!['-'] + s.subrange(8, 12) + seq!['-'] + s.subrange(12, 16) + seq!['-']
        + s.subrange(16, 20) + seq!['-'] + s.subrange(20, 32)
}

/// Whether 16 bytes are those of a random (version 4, RFC 4122 variant) UUID:
/// the high nibble of byte 6 is 4 and the two high bits of byte 8 are `10`.
pub open spec fn is_v4_uuid_bytes(b: Seq<u8>) -> bool {
    &&& b.len() == 16
    &&& b[6] / 16 == 4
    &&& b[8] / 64 == 2
}

/// Calls `uuid::Uuid::new_v4` and hands out its 16 bytes (`into_bytes`). The bytes
/// are random except for the version and variant bits, which `new_v4` sets; the
/// contract states only those bits.
#[verifier::external_body]
fn new_v4_uuid_bytes() -> (r: [u8; 16])
    ensures
        is_v4_uuid_bytes(r@),
{
    uuid::Uuid::new_v4().into_bytes()
}

/// Formats 16 bytes with the `Display` impl of `uuid::Uuid` (built by `Uuid::from_bytes`),
/// which writes lower-case hex in the hyphenated 8-4-4-4-12 layout.
#[verifier::external_body]
fn format_uuid_hyphenated(b: [u8; 16]) -> (r: String)
    ensures
        r@ == hyphenated_uuid_text(b@),
{
    uuid::Uuid::from_bytes(b).to_string()
}

/// Formats 16 bytes with the `Display` impl of `uuid::fmt::Simple`
/// (`Uuid::from_bytes(b).simple()`), which writes 32 lower-case hex characters.
#[verifier::external_body]
fn format_uuid_simple(b: [u8; 16]) -> (r: String)
    ensures
        r@ == simple_uuid_text(b@),
{
    uuid::Uuid::from_bytes(b).simple().to_string()
}

/// Whether `s` is the hyphenated text of some random UUID.
pub open spec fn is_random_uuid_text(s: Seq<char>) -> bool {
    exists|b: Seq<u8>| is_v4_uuid_bytes(b) && s == hyphenated_uuid_text(b)
}

/// Whether `s` is the compact (hyphen-free) text of some random UUID.
pub open spec fn is_compact_uuid_text(s: Seq<char>) -> bool {
    exists|b: Seq<u8>| is_v4_uuid_bytes(b) && s == simple_uuid_text(b)
}

/// A fresh random UUID in its hyphenated form, such as
/// `67e55044-10b1-426f-9247-bb680e5fe0c8`.
pub fn create_random_uuid() -> (r: String)
    ensures
        is_random_uuid_text(r@),
        r@.len() == 36,
{
    let b = new_v4_uuid_bytes();
    let r = format_uuid_hyphenated(b);
    assert(is_v4_uuid_bytes(b@) && r@ == hyphenated_uuid_text(b@));
    r
}

/// A fresh random UUID in its compact form of 32 hex characters.
pub fn create_compact_uuid() -> (r: String)
    ensures
        is_compact_uuid_text(r@),
        r@.len() == 32,
{
    let b = new_v4_uuid_bytes();
    let r = format_uuid_simple(b);
    assert(is_v4_uuid_bytes(b@) && r@ == simple_uuid_text(b@));
    r
}

} // verus!
