use vstd::prelude::*;

verus! {

/// What is sent to the remote threshold signer: the digest to sign, the
/// derivation path that selects the key, and the key version.
pub struct SignRequest {
    pub payload: [u8; 32],
    pub path: String,
    pub key_version: u32,
}

impl SignRequest {
    pub fn new(payload: [u8; 32], path: String, key_version: u32) -> (r: SignRequest)
        ensures
            r.payload@ == payload@,
            r.path@ == path@,
            r.key_version == key_version,
    {
        SignRequest { payload, path, key_version }
    }
}

/// The remote signer's answer: the point R (a one-byte prefix then the
/// 32-byte X coordinate, in hexadecimal), the scalar s, and the recovery id.
pub struct SignResult {
    pub big_r: AffinePoint,
    pub s: Scalar,
    pub recovery_id: u8,
}

pub struct AffinePoint {
    pub affine_point: String,
}

pub struct Scalar {
    pub scalar: String,
}

} // verus!
