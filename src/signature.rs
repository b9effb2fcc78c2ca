use vstd::prelude::*;

use crate::error::EngineError;
use crate::hex_codec::{decode_hex, hex_decoded, is_hex, is_hex_digit};

verus! {

/// Number of hexadecimal digits of the point R: a prefix byte and 32 bytes.
pub const BIG_R_HEX_LEN: usize = 66;

/// Number of hexadecimal digits of the scalar s.
pub const S_HEX_LEN: usize = 64;

/// Number of bytes of an encoded signature.
pub const SIGNATURE_LEN: usize = 65;

/// The two components that the signer hands back are of the fixed lengths and
/// hold hexadecimal digits only.
pub open spec fn components_well_formed(big_r: Seq<char>, s: Seq<char>) -> bool {
    &&& big_r.len() == BIG_R_HEX_LEN
    &&& s.len() == S_HEX_LEN
    &&& forall|i: int| 0 <= i < big_r.len() ==> is_hex_digit(#[trigger] big_r[i])
    &&& forall|i: int| 0 <= i < s.len() ==> is_hex_digit(#[trigger] s[i])
}

/// The X coordinate of R: the bytes of `big_r` after its first two digits.
pub open spec fn r_bytes(big_r: Seq<char>) -> Seq<u8> {
    hex_decoded(big_r.subrange(2, big_r.len() as int))
}

/// The prefix byte of R: the byte of the first two digits of `big_r`.
pub open spec fn prefix_byte(big_r: Seq<char>) -> u8 {
    hex_decoded(big_r.subrange(0, 2))[0]
}

/// The ledger's signature layout: R, then s, then the prefix byte of R.
pub open spec fn signature_layout(big_r: Seq<char>, s: Seq<char>) -> Seq<u8> {
    r_bytes(big_r) + hex_decoded(s) + seq![prefix_byte(big_r)]
}

/// For well-formed components the encoded signature is 65 bytes: R in the
/// first 32, s in the next 32, and the prefix byte of R last.
pub proof fn lemma_signature_layout(big_r: Seq<char>, s: Seq<char>)
    requires
        components_well_formed(big_r, s),
    ensures
        signature_layout(big_r, s).len() == SIGNATURE_LEN,
        signature_layout(big_r, s).subrange(0, 32) == r_bytes(big_r),
        signature_layout(big_r, s).subrange(32, 64) == hex_decoded(s),
        signature_layout(big_r, s)[64] == prefix_byte(big_r),
        r_bytes(big_r).len() == 32,
        hex_decoded(s).len() == 32,
{
    let out = signature_layout(big_r, s);
    assert(out.subrange(0, 32) =~= r_bytes(big_r));
    assert(out.subrange(32, 64) =~= hex_decoded(s));
}

proof fn lemma_hex_part(t: Seq<char>, lo: int, hi: int)
    requires
        0 <= lo <= hi <= t.len(),
        forall|i: int| 0 <= i < t.len() ==> is_hex_digit(#[trigger] t[i]),
    ensures
        forall|i: int| 0 <= i < hi - lo ==> is_hex_digit(#[trigger] t.subrange(lo, hi)[i]),
{
    assert forall|i: int| 0 <= i < hi - lo implies is_hex_digit(#[trigger] t.subrange(lo, hi)[i]) by {
        assert(t.subrange(lo, hi)[i] == t[lo + i]);
    }
}

/// Turns the signer's components into the ledger's 65-byte signature:
/// `[R (32 bytes) | s (32 bytes) | prefix byte]`, where the prefix byte is taken
/// from the first two digits of `big_r` and R from the rest.
pub fn encode_signature(big_r: &str, s: &str) -> (r: Result<Vec<u8>, EngineError>)
    ensures
        r is Ok <==> components_well_formed(big_r@, s@),
        r is Ok ==> r->Ok_0@ == signature_layout(big_r@, s@),
        r is Ok ==> r->Ok_0@.len() == SIGNATURE_LEN,
        r is Err ==> r == Err::<Vec<u8>, EngineError>(EngineError::MalformedSignatureComponent),
{
    let n = big_r.unicode_len();
    if n < 2 {
        return Err(EngineError::MalformedSignatureComponent);
    }
    let prefix_hex = big_r.substring_char(0, 2);
    let r_hex = big_r.substring_char(2, n);
    proof {
        if components_well_formed(big_r@, s@) {
            lemma_hex_part(big_r@, 0, 2);
            lemma_hex_part(big_r@, 2, n as int);
        }
    }
    let mut prefix = match decode_hex(prefix_hex) {
        Ok(v) => v,
        Err(_) => {
            proof {
                assert(!is_hex_digit(prefix_hex@[0]) || !is_hex_digit(prefix_hex@[1]));
                assert(prefix_hex@[0] == big_r@[0] && prefix_hex@[1] == big_r@[1]);
            }
            return Err(EngineError::MalformedSignatureComponent);
        },
    };
    let mut rb = match decode_hex(r_hex) {
        Ok(v) => v,
        Err(_) => {
            proof {
                if components_well_formed(big_r@, s@) {
                    assert(is_hex(r_hex@));
                }
            }
            return Err(EngineError::MalformedSignatureComponent);
        },
    };
    let mut sb = match decode_hex(s) {
        Ok(v) => v,
        Err(_) => return Err(EngineError::MalformedSignatureComponent),
    };
    if rb.len() != 32 || sb.len() != 32 {
        return Err(EngineError::MalformedSignatureComponent);
    }
    proof {
        assert(big_r@.len() == BIG_R_HEX_LEN);
        assert forall|i: int| 0 <= i < big_r@.len() implies is_hex_digit(#[trigger] big_r@[i]) by {
            if i < 2 {
                assert(big_r@[i] == prefix_hex@[i]);
            } else {
                assert(big_r@[i] == r_hex@[i - 2]);
            }
        }
    }
    let mut out: Vec<u8> = Vec::new();
    out.append(&mut rb);
    out.append(&mut sb);
    out.append(&mut prefix);
    proof {
        assert(out@ =~= signature_layout(big_r@, s@));
    }
    Ok(out)
}

} // verus!
