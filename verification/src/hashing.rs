use vstd::prelude::*;
use vstd::utf8::encode_utf8;
use sha2::{Digest, Sha256};
use crate::text::is_lower_hex;

verus! {

/// The SHA-256 digest of a byte string, written as lower-case hexadecimal.
pub uninterp spec fn sha256_hex_digest(data: Seq<u8>) -> Seq<char>;

/// Calls `sha2::Sha256::digest` and writes the 32-byte digest with the
/// `LowerHex` format of its byte array. Claimed: the text is the digest of
/// exactly the given bytes, and it is 64 lower-case hexadecimal characters
/// (two per byte, as that format writes them).
#[verifier::external_body]
fn sha256_hex(data: &[u8]) -> (result: String)
    ensures
        result@ == sha256_hex_digest(data@),
        result@.len() == 64,
        forall|i: int| 0 <= i < 64 ==> is_lower_hex(#[trigger] result@[i]),
{
    format!("{:x}", Sha256::digest(data))
}

/// The SHA-256 digest of the UTF-8 bytes of a text, in lower-case hex.
pub open spec fn sha256_of_text(text: Seq<char>) -> Seq<char> {
    sha256_hex_digest(encode_utf8(text))
}

/// Hashes the UTF-8 bytes of a text with SHA-256.
pub fn sha256_hash(text: &str) -> (result: String)
    ensures
        result@ == sha256_of_text(text@),
        result@.len() == 64,
        forall|i: int| 0 <= i < 64 ==> is_lower_hex(#[trigger] result@[i]),
{
    sha256_hex(text.as_bytes())
}

} // verus!
