//! Identifiers. Users, device UUIDs, linking sessions and connections are
//! named by UUIDs, which this crate holds as the 128-bit numbers they are.

use vstd::prelude::*;

verus! {

/// Bits of a UUID that hold its version and variant.
pub const VERSION_VARIANT_MASK: u128 = 0x0000_0000_0000_f000_c000_0000_0000_0000;

/// Those bits as a random (version 4) UUID has them.
pub const RANDOM_VERSION_VARIANT: u128 = 0x0000_0000_0000_4000_8000_0000_0000_0000;

/// Whether `x` is marked as a random (version 4) UUID.
pub open spec fn is_random_uuid(x: u128) -> bool {
    x & VERSION_VARIANT_MASK == RANDOM_VERSION_VARIANT
}

/// The lower-case hexadecimal digit of a number below 16.
pub open spec fn hex_digit(n: u128) -> char {
    seq!['0', '1', '2', '3', '4', '5', '6', '7', '8', '9', 'a', 'b', 'c', 'd', 'e', 'f'][n as int]
}

/// The `k`-th of the 32 hexadecimal digits of `x`, most significant first.
pub open spec fn nibble(x: u128, k: int) -> u128 {
    (x >> ((4 * (31 - k)) as u128)) & 0xf
}

/// How many hyphens stand before position `p` of a hyphenated UUID.
pub open spec fn hyphens_before(p: int) -> int {
    if p < 8 {
        0
    } else if p < 13 {
        1
    } else if p < 18 {
        2
    } else if p < 23 {
        3
    } else {
        4
    }
}

/// The hyphenated form of a UUID: its 32 lower-case hexadecimal digits, most
/// significant first, in groups of 8, 4, 4, 4 and 12.
pub open spec fn hyphenated(x: u128) -> Seq<char> {
    Seq::new(
        36,
        |p: int|
            if p == 8 || p == 13 || p == 18 || p == 23 {
                '-'
            } else {
                hex_digit(nibble(x, p - hyphens_before(p)))
            },
    )
}

/// A fresh random UUID, from `uuid::Uuid::new_v4` and `Uuid::as_u128`. Of the
/// number no more is known than its version and variant bits, which
/// `new_v4` sets to those of a random UUID.
#[verifier::external_body]
pub(crate) fn fresh_uuid() -> (r: u128)
    ensures
        is_random_uuid(r),
{
    uuid::Uuid::new_v4().as_u128()
}

/// The text of a UUID, from `uuid::Uuid::from_u128` and the `Display` of
/// `Uuid`, which writes the hyphenated lower-case form.
#[verifier::external_body]
fn display_uuid(x: u128) -> (r: String)
    ensures
        r@ == hyphenated(x),
{
    uuid::Uuid::from_u128(x).to_string()
}

/// The hyphenated text of a UUID.
pub fn uuid_text(x: u128) -> (r: String)
    ensures
        r@ == hyphenated(x),
        r@.len() == 36,
{
    display_uuid(x)
}

} // verus!
