//! The one-way hash under which a phone number can be looked up.

use vstd::prelude::*;
use vstd::string::*;
use vstd::utf8::encode_utf8;
use sha2::Digest;

verus! {

/// Length in bytes of a hash.
pub const HASH_LENGTH: usize = 32;

/// The SHA-256 hash of a byte string.
pub uninterp spec fn sha256(data: Seq<u8>) -> Seq<u8>;

/// The SHA-256 hash of a byte string, from `sha2::Sha256::digest`, which is a
/// function of the bytes alone and gives 32 bytes.
#[verifier::external_body]
fn sha256_of(data: &[u8]) -> (r: Vec<u8>)
    ensures
        r@ == sha256(data@),
        r@.len() == HASH_LENGTH,
{
    sha2::Sha256::digest(data).to_vec()
}

/// The hash that stands for a phone number: SHA-256 of its UTF-8 bytes.
pub open spec fn phone_hash_of(phone_number: Seq<char>) -> Seq<u8> {
    sha256(encode_utf8(phone_number))
}

/// The hash that stands for a phone number. Every account is created with
/// this hash, on whatever path it is created.
pub fn phone_hash(phone_number: &str) -> (r: Vec<u8>)
    ensures
        r@ == phone_hash_of(phone_number@),
        r@.len() == HASH_LENGTH,
{
    sha256_of(phone_number.as_bytes())
}

} // verus!
