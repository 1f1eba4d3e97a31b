//! The one digest this ledger uses: SHA-256 rendered as lowercase hex.
//! Transaction identities, authenticity tags, Merkle nodes and block hashes
//! are all such values.

use vstd::prelude::*;
use vstd::utf8::encode_utf8;
use crate::encode::bytes_to_hex;
use crate::encode::hex_str;
use crate::encode::lemma_hex_str_len;
use sha2::Digest;

verus! {

/// What SHA-256 computes of a byte sequence: a fixed function of the bytes
/// alone, the same in every process.
pub uninterp spec fn sha256_of(bytes: Seq<u8>) -> Seq<u8>;

/// Relies on sha2::Sha256::digest: the SHA-256 digest of the input bytes,
/// 32 bytes long and a function of the input alone.
#[verifier::external_body]
fn sha256_digest(data: &[u8]) -> (r: Vec<u8>)
    ensures
        r@ == sha256_of(data@),
        r@.len() == 32,
{
    sha2::Sha256::digest(data).to_vec()
}

/// The lowercase-hex SHA-256 digest of the UTF-8 bytes of a string.
pub open spec fn sha256_hex_of(s: Seq<char>) -> Seq<char> {
    hex_str(sha256_of(encode_utf8(s)))
}

/// Hashes a string and renders the digest in lowercase hex: always 64
/// characters, two for each of the 32 digest bytes.
pub fn sha256_hex(input: &str) -> (r: String)
    ensures
        r@ == sha256_hex_of(input@),
        r@.len() == 64,
{
    let digest = sha256_digest(input.as_bytes());
    proof {
        lemma_hex_str_len(digest@);
    }
    bytes_to_hex(&digest)
}

/// The all-zero sentinel standing where no real hash exists: the previous-hash
/// link of the genesis block and the commitment of an empty transaction set.
pub open spec fn zero_hash() -> Seq<char> {
    "0000000000000000000000000000000000000000000000000000000000000000"@
}

/// The all-zero sentinel as an owned string.
pub fn zero_hash_str() -> (r: String)
    ensures
        r@ == zero_hash(),
{
    String::from_str("0000000000000000000000000000000000000000000000000000000000000000")
}

} // verus!
