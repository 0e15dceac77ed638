//! Content digests of model files.
use vstd::prelude::*;
use sha2::Digest;

verus! {

/// The lowercase hexadecimal SHA-256 digest of a byte sequence.
pub uninterp spec fn sha256_hex(data: Seq<u8>) -> Seq<char>;

/// Lowercase hexadecimal digits only.
pub open spec fn is_lower_hex(s: Seq<char>) -> bool {
    forall|i: int|
        0 <= i < s.len() ==> ('0' <= #[trigger] s[i] <= '9') || ('a' <= s[i] <= 'f')
}

/// Relies on `sha2::Sha256::digest`, rendered through the lower-hex
/// formatting of its output array: 32 bytes, two digits each.
#[verifier::external_body]
fn sha256_lower_hex(data: &[u8]) -> (r: String)
    ensures
        r@ == sha256_hex(data@),
        r@.len() == 64,
        is_lower_hex(r@),
{
    format!("{:x}", sha2::Sha256::digest(data))
}

/// The digest of a model file's full contents, as the object-store index
/// records it.
pub fn file_sha256(contents: &[u8]) -> (r: String)
    ensures
        r@ == sha256_hex(contents@),
        r@.len() == 64,
        is_lower_hex(r@),
{
    sha256_lower_hex(contents)
}

} // verus!
