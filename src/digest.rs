use vstd::prelude::*;

use sha2::Digest;

verus! {

/// The SHA-256 digest of a byte sequence.
pub uninterp spec fn sha256_of(data: Seq<u8>) -> Seq<u8>;

/// Relies on `sha2::Sha256::digest`: the 32-byte SHA-256 digest of the input,
/// which depends on the input alone.
#[verifier::external_body]
fn sha256_digest(payload: &[u8]) -> (r: [u8; 32])
    ensures
        r@ == sha256_of(payload@),
{
    sha2::Sha256::digest(payload).into()
}

/// The digest that the remote signer signs: SHA-256 of the payload.
pub fn hash_payload(payload: &[u8]) -> (r: [u8; 32])
    ensures
        r@ == sha256_of(payload@),
        r@.len() == 32,
{
    sha256_digest(payload)
}

} // verus!
