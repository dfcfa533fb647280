//! The fingerprint by which a protected key is recognised.

use vstd::prelude::*;
use vstd::utf8::encode_utf8;
use vstd::utf8::encode_utf8_decode_utf8;

verus! {

/// The SHA-256 digest of a byte string.
pub uninterp spec fn sha256(data: Seq<u8>) -> Seq<u8>;

/// The SHA-256 digest of the bytes of a text in UTF-8.
pub open spec fn text_digest(text: Seq<char>) -> Seq<u8> {
    sha256(encode_utf8(text))
}

/// Hashes a byte string.
///
/// Calls `sha2::Sha256::digest`. The contract names its result: the digest is a
/// function of the bytes alone. That it is 32 bytes long is in the type.
#[verifier::external_body]
fn sha256_digest(data: &[u8]) -> (digest: [u8; 32])
    ensures
        digest@ == sha256(data@),
{
    <sha2::Sha256 as sha2::Digest>::digest(data).into()
}

/// The fingerprint of a protected key: the SHA-256 digest of its bytes.
pub fn protected_key_digest(protected_key: &str) -> (digest: [u8; 32])
    ensures
        digest@ == text_digest(protected_key@),
        digest@ == sha256(encode_utf8(protected_key@)),
{
    sha256_digest(protected_key.as_bytes())
}

/// Compares two fingerprints.
pub fn same_digest(a: &[u8; 32], b: &[u8; 32]) -> (same: bool)
    ensures
        same == (a@ == b@),
{
    let mut i: usize = 0;
    while i < 32
        invariant
            i <= 32,
            forall|j: int| 0 <= j < i ==> a@[j] == b@[j],
        decreases 32 - i,
    {
        if a[i] != b[i] {
            assert(a@[i as int] != b@[i as int]);
            return false;
        }
        i += 1;
    }
    assert(a@ =~= b@);
    true
}

/// Fingerprints distinguish keys as well as SHA-256 distinguishes byte strings:
/// two different keys with one fingerprint are themselves a collision, for their
/// bytes differ and have the same digest.
pub proof fn only_a_collision_confuses_keys(a: Seq<char>, b: Seq<char>)
    requires
        a != b,
        text_digest(a) == text_digest(b),
    ensures
        encode_utf8(a) != encode_utf8(b),
        sha256(encode_utf8(a)) == sha256(encode_utf8(b)),
{
    encode_utf8_decode_utf8(a);
    encode_utf8_decode_utf8(b);
}

} // verus!
