use vstd::prelude::*;

use crate::digest::{hash_payload, sha256_of};
use crate::error::EngineError;
use crate::hex_codec::{hex_decoded, hex_encoded, is_hex};
use crate::signature::{
    components_well_formed, encode_signature, lemma_signature_layout, prefix_byte, r_bytes,
    signature_layout,
};
use crate::signer::{SignRequest, SignResult};
use crate::transaction::{
    attach_signature, deserialize_transaction, lemma_transport_round_trip, near_decodes,
    near_signed_transaction, near_signing_payload, TransactionModel, UnsignedTransaction,
};

verus! {

/// What the host tells the engine about the current call.
pub struct CallContext {
    /// The account that made the call.
    pub predecessor_account_id: String,
    /// The account of the engine itself.
    pub current_account_id: String,
    /// The time of the call.
    pub block_timestamp: u64,
    /// The value attached to the call.
    pub attached_deposit: u128,
}

/// The first phase's result when a signature is needed: the request for the
/// remote signer, and the transaction in transport form, to be handed back to
/// the second phase with the signer's answer.
pub struct SigningPlan {
    pub request: SignRequest,
    pub serialized_tx: String,
    /// The value to attach to the request, as the signer's fee.
    pub deposit: u128,
}

/// The plan for signing `tx` under derivation path `path` with key version 0,
/// paying `deposit` to the signer.
pub open spec fn signing_plan_for(
    plan: SigningPlan,
    tx: crate::transaction::TransactionModel,
    path: Seq<char>,
    deposit: u128,
) -> bool {
    &&& plan.request.payload@ == sha256_of(near_signing_payload(tx))
    &&& near_decodes(near_signing_payload(tx))
    &&& plan.deposit == deposit
    &&& plan.request.path@ == path
    &&& plan.request.key_version == 0
    &&& plan.serialized_tx@ == hex_encoded(near_signing_payload(tx))
}

/// Hashes the transaction's signing payload and prepares the request to the
/// remote signer, with the transaction in transport form beside it.
pub fn request_signature(tx: &UnsignedTransaction, path: &str, deposit: u128) -> (r: SigningPlan)
    requires
        tx.wf(),
    ensures
        signing_plan_for(r, tx@, path@, deposit),
{
    let payload = tx.signing_payload();
    let digest = hash_payload(payload.as_slice());
    let serialized_tx = tx.serialize();
    SigningPlan { request: SignRequest::new(digest, path.to_string(), 0), serialized_tx, deposit }
}

/// The error that the second phase meets before the transaction is read back,
/// if any.
pub open spec fn signing_outcome(result: Option<SignResult>, serialized_tx: Seq<char>) -> Option<EngineError> {
    match result {
        None => Some(EngineError::RemoteSignerFailure),
        Some(sr) => if !components_well_formed(sr.big_r.affine_point@, sr.s.scalar@) {
            Some(EngineError::MalformedSignatureComponent)
        } else if !is_hex(serialized_tx) {
            Some(EngineError::SerializationFailure)
        } else {
            None
        },
    }
}

/// Once the answer and the transport form are well formed: success exactly
/// where the transaction's bytes decode, and then the signed transaction is
/// those bytes, the signature tag, and `[R | s | prefix byte]`.
pub open spec fn signed_outcome(r: Result<Vec<u8>, EngineError>, sr: SignResult, serialized_tx: Seq<char>) -> bool {
    &&& r is Ok <==> near_decodes(hex_decoded(serialized_tx))
    &&& r matches Ok(bytes) ==> bytes@ == near_signed_transaction(
        hex_decoded(serialized_tx),
        signature_layout(sr.big_r.affine_point@, sr.s.scalar@),
    )
    &&& r matches Err(e) ==> e == EngineError::SerializationFailure
}

/// Where the pieces stand in a signed transaction that the second phase returns
/// for the transport form of `tx`: the unsigned part is exactly the payload
/// that was hashed for the request, and the last 65 bytes are R, then s, then
/// the prefix byte of R.
pub proof fn lemma_signed_transaction_layout(tx: TransactionModel, big_r: Seq<char>, s: Seq<char>)
    requires
        components_well_formed(big_r, s),
    ensures
        ({
            let payload = hex_decoded(hex_encoded(near_signing_payload(tx)));
            let b = near_signed_transaction(payload, signature_layout(big_r, s));
            let n = b.len() as int;
            &&& payload == near_signing_payload(tx)
            &&& sha256_of(payload) == sha256_of(near_signing_payload(tx))
            &&& n == payload.len() + 66
            &&& b.subrange(0, payload.len() as int) == payload
            &&& b[payload.len() as int] == 1
            &&& b.subrange(n - 65, n - 33) == r_bytes(big_r)
            &&& b.subrange(n - 33, n - 1) == hex_decoded(s)
            &&& b[n - 1] == prefix_byte(big_r)
        }),
{
    lemma_transport_round_trip(tx);
    lemma_signature_layout(big_r, s);
    let payload = near_signing_payload(tx);
    let sig = signature_layout(big_r, s);
    let b = near_signed_transaction(payload, sig);
    let n = b.len() as int;
    assert(b.subrange(0, payload.len() as int) =~= payload);
    assert(b.subrange(n - 65, n - 33) =~= sig.subrange(0, 32));
    assert(b.subrange(n - 33, n - 1) =~= sig.subrange(32, 64));
}

/// The second phase: turns the signer's answer into the ledger's signature,
/// reads the transaction back from its transport form, and returns the signed
/// transaction's canonical bytes. A failed answer is fatal.
pub fn complete_signing(result: Option<SignResult>, serialized_tx: &str) -> (r: Result<Vec<u8>, EngineError>)
    ensures
        signing_outcome(result, serialized_tx@) matches Some(e) ==> r == Err::<Vec<u8>, EngineError>(e),
        signing_outcome(result, serialized_tx@) is None ==> signed_outcome(r, result->Some_0, serialized_tx@),
{
    let sign_result = match result {
        Some(sr) => sr,
        None => return Err(EngineError::RemoteSignerFailure),
    };
    let signature = encode_signature(sign_result.big_r.affine_point.as_str(), sign_result.s.scalar.as_str())?;
    let payload = deserialize_transaction(serialized_tx)?;
    attach_signature(payload.as_slice(), signature.as_slice())
}

} // verus!
