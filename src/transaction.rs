use vstd::prelude::*;

use omni_transaction::near::types::{
    AccountId, Action, BlockHash, ED25519PublicKey, FunctionCallAction, NearGas, NearToken,
    PublicKey, Secp256K1PublicKey, Secp256K1Signature, Signature, U64,
};
use omni_transaction::near::utils::PublicKeyStrExt;
use omni_transaction::near::NearTransaction;

use crate::error::EngineError;
use crate::digest::sha256_of;
use crate::hex_codec::{
    decode_hex, encode_hex, hex_decoded, hex_encoded, is_hex, lemma_hex_round_trip,
};

verus! {

/// A signer's public key in its binary form.
#[derive(Debug, Clone, Copy)]
pub enum PublicKeyData {
    Ed25519([u8; 32]),
    Secp256k1([u8; 64]),
}

/// A function-call action: the method to call, its argument bytes, the gas
/// budget and the attached deposit.
pub struct FunctionCall {
    pub method_name: String,
    pub args: Vec<u8>,
    pub gas: u64,
    pub deposit: u128,
}

/// The value of a `FunctionCall`.
pub struct CallModel {
    pub method_name: Seq<char>,
    pub args: Seq<u8>,
    pub gas: u64,
    pub deposit: u128,
}

impl View for FunctionCall {
    type V = CallModel;

    open spec fn view(&self) -> CallModel {
        CallModel {
            method_name: self.method_name@,
            args: self.args@,
            gas: self.gas,
            deposit: self.deposit,
        }
    }
}

/// An unsigned ledger transaction, with the key and block anchor in binary
/// form. `wf` holds when both account ids are valid ledger account ids; `build`
/// establishes it.
pub struct UnsignedTransaction {
    pub signer_id: String,
    pub signer_public_key: PublicKeyData,
    pub nonce: u64,
    pub receiver_id: String,
    pub block_hash: [u8; 32],
    pub actions: Vec<FunctionCall>,
}

/// The value of an `UnsignedTransaction`.
pub struct TransactionModel {
    pub signer_id: Seq<char>,
    pub signer_public_key: PublicKeyData,
    pub nonce: u64,
    pub receiver_id: Seq<char>,
    pub block_hash: Seq<u8>,
    pub actions: Seq<CallModel>,
}

impl View for UnsignedTransaction {
    type V = TransactionModel;

    open spec fn view(&self) -> TransactionModel {
        TransactionModel {
            signer_id: self.signer_id@,
            signer_public_key: self.signer_public_key,
            nonce: self.nonce,
            receiver_id: self.receiver_id@,
            block_hash: self.block_hash@,
            actions: self.actions@.map_values(|a: FunctionCall| a@),
        }
    }
}

/// A separator of an account id's parts.
pub open spec fn is_account_separator(c: char) -> bool {
    c == '-' || c == '_' || c == '.'
}

/// A character that an account id may hold: lower-case letters, digits, separators.
pub open spec fn is_account_char(c: char) -> bool {
    ('a' <= c && c <= 'z') || ('0' <= c && c <= '9') || is_account_separator(c)
}

/// Whether a text is a valid ledger account id: 2 to 64 allowed characters,
/// with no separator first, last, or next to another separator.
pub open spec fn near_account_id_valid(s: Seq<char>) -> bool {
    &&& 2 <= s.len() <= 64
    &&& forall|i: int| 0 <= i < s.len() ==> is_account_char(#[trigger] s[i])
    &&& !is_account_separator(s[0])
    &&& !is_account_separator(s[s.len() - 1])
    &&& forall|i: int|
        0 <= i < s.len() - 1 ==> !(is_account_separator(#[trigger] s[i]) && is_account_separator(
            s[i + 1],
        ))
}

/// The binary public key that a text such as `ed25519:<base58>` stands for, if any.
pub uninterp spec fn near_public_key(s: Seq<char>) -> Option<PublicKeyData>;

/// The 32 bytes that a base58 block hash stands for, if any.
pub uninterp spec fn near_block_hash(s: Seq<char>) -> Option<Seq<u8>>;

/// The canonical (borsh) encoding of an unsigned transaction, which is what gets signed.
pub uninterp spec fn near_signing_payload(tx: TransactionModel) -> Seq<u8>;

/// Whether the bytes are the complete borsh encoding of a ledger transaction.
pub uninterp spec fn near_decodes(payload: Seq<u8>) -> bool;

/// The canonical encoding of a signed transaction: the unsigned transaction's
/// encoding, the tag of a secp256k1 signature, and the signature's bytes.
pub open spec fn near_signed_transaction(payload: Seq<u8>, signature: Seq<u8>) -> Seq<u8> {
    payload + seq![1u8] + signature
}

/// Relies on `near_account_id::AccountId::validate`: `Ok` exactly for 2 to 64
/// bytes of `a-z`, `0-9`, `-`, `_`, `.` with no separator first, last or doubled.
#[verifier::external_body]
fn check_account_id(s: &str) -> (r: bool)
    ensures
        r == near_account_id_valid(s@),
{
    AccountId::validate(s).is_ok()
}

/// Relies on `PublicKeyStrExt::to_public_key` of omni-transaction, which
/// parses `ed25519:` and `secp256k1:` keys in base58 and depends on the text alone.
#[verifier::external_body]
fn parse_public_key(s: &str) -> (r: Option<PublicKeyData>)
    ensures
        r == near_public_key(s@),
{
    match s.to_public_key() {
        Ok(PublicKey::ED25519(k)) => Some(PublicKeyData::Ed25519(k.0)),
        Ok(PublicKey::SECP256K1(k)) => Some(PublicKeyData::Secp256k1(k.0)),
        Err(_) => None,
    }
}

/// Relies on `PublicKeyStrExt::to_block_hash` of omni-transaction, which decodes
/// 32 bytes of base58 and depends on the text alone.
#[verifier::external_body]
fn parse_block_hash(s: &str) -> (r: Option<[u8; 32]>)
    ensures
        r is Some <==> near_block_hash(s@) is Some,
        r is Some ==> near_block_hash(s@) == Some(r->Some_0@),
{
    s.to_block_hash().ok().map(|h| h.0)
}

/// Relies on `NearTransaction::build_for_signing` of omni-transaction: the
/// borsh encoding of the transaction, a function of its fields alone, which the
/// derived `BorshDeserialize` reads back. The account ids are valid, so they
/// convert without failing.
#[verifier::external_body]
fn near_payload(tx: &UnsignedTransaction) -> (r: Vec<u8>)
    requires
        tx.wf(),
    ensures
        r@ == near_signing_payload(tx@),
        near_decodes(r@),
{
    let key = match tx.signer_public_key {
        PublicKeyData::Ed25519(k) => PublicKey::ED25519(ED25519PublicKey(k)),
        PublicKeyData::Secp256k1(k) => PublicKey::SECP256K1(Secp256K1PublicKey(k)),
    };
    let actions = tx.actions.iter().map(|a| Action::FunctionCall(Box::new(FunctionCallAction {
        method_name: a.method_name.clone(), args: a.args.clone(),
        gas: NearGas::from_gas(a.gas), deposit: NearToken::from_yoctonear(a.deposit),
    }))).collect();
    NearTransaction {
        signer_id: tx.signer_id.parse().unwrap(), signer_public_key: key, nonce: U64(tx.nonce),
        receiver_id: tx.receiver_id.parse().unwrap(), block_hash: BlockHash(tx.block_hash), actions,
    }.build_for_signing()
}

/// Relies on `borsh::from_slice` to read a `NearTransaction` back from its
/// encoding (`None` exactly where the bytes do not decode), then on
/// `NearTransaction::build_with_signature` with a secp256k1 signature: the
/// borsh encoding of `SignedTransaction`, that is the transaction's encoding,
/// which borsh reproduces byte for byte, the variant tag 1, and the 65 bytes.
#[verifier::external_body]
fn near_with_signature(payload: &[u8], signature: &[u8]) -> (r: Option<Vec<u8>>)
    requires
        signature@.len() == 65,
    ensures
        r is Some <==> near_decodes(payload@),
        r is Some ==> r->Some_0@ == near_signed_transaction(payload@, signature@),
{
    let sig = Signature::SECP256K1(Secp256K1Signature(signature.try_into().unwrap()));
    borsh::from_slice::<NearTransaction>(payload).ok().map(|tx| tx.build_with_signature(sig))
}

/// What `UnsignedTransaction::build` yields for its inputs: the first input that
/// does not parse decides the error.
pub open spec fn built_transaction(
    signer_id: Seq<char>,
    signer_public_key: Seq<char>,
    nonce: u64,
    receiver_id: Seq<char>,
    block_hash: Seq<char>,
    actions: Seq<CallModel>,
) -> Result<TransactionModel, EngineError> {
    if !near_account_id_valid(signer_id) || !near_account_id_valid(receiver_id) {
        Err(EngineError::InvalidAccountId)
    } else if near_public_key(signer_public_key) is None {
        Err(EngineError::InvalidPublicKey)
    } else if near_block_hash(block_hash) is None {
        Err(EngineError::InvalidBlockAnchor)
    } else {
        Ok(
            TransactionModel {
                signer_id,
                signer_public_key: near_public_key(signer_public_key)->Some_0,
                nonce,
                receiver_id,
                block_hash: near_block_hash(block_hash)->Some_0,
                actions,
            },
        )
    }
}

impl UnsignedTransaction {
    pub open spec fn wf(&self) -> bool {
        &&& near_account_id_valid(self.signer_id@)
        &&& near_account_id_valid(self.receiver_id@)
    }

    /// Assembles an unsigned transaction, parsing the public key and the block anchor.
    pub fn build(
        signer_id: &str,
        signer_public_key: &str,
        nonce: u64,
        receiver_id: &str,
        block_hash: &str,
        actions: Vec<FunctionCall>,
    ) -> (r: Result<UnsignedTransaction, EngineError>)
        ensures
            r is Ok ==> r->Ok_0.wf(),
            r matches Ok(tx) ==> built_transaction(
                signer_id@,
                signer_public_key@,
                nonce,
                receiver_id@,
                block_hash@,
                actions@.map_values(|a: FunctionCall| a@),
            ) == Ok::<TransactionModel, EngineError>(tx@),
            r matches Err(e) ==> built_transaction(
                signer_id@,
                signer_public_key@,
                nonce,
                receiver_id@,
                block_hash@,
                actions@.map_values(|a: FunctionCall| a@),
            ) == Err::<TransactionModel, EngineError>(e),
    {
        if !check_account_id(signer_id) || !check_account_id(receiver_id) {
            return Err(EngineError::InvalidAccountId);
        }
        let key = match parse_public_key(signer_public_key) {
            Some(k) => k,
            None => return Err(EngineError::InvalidPublicKey),
        };
        let hash = match parse_block_hash(block_hash) {
            Some(h) => h,
            None => return Err(EngineError::InvalidBlockAnchor),
        };
        let tx = UnsignedTransaction {
            signer_id: signer_id.to_string(),
            signer_public_key: key,
            nonce,
            receiver_id: receiver_id.to_string(),
            block_hash: hash,
            actions,
        };
        Ok(tx)
    }

    /// The canonical bytes that are hashed and signed; it never includes a signature.
    pub fn signing_payload(&self) -> (r: Vec<u8>)
        requires
            self.wf(),
        ensures
            r@ == near_signing_payload(self@),
            near_decodes(r@),
    {
        near_payload(self)
    }

    /// The transport form that carries the transaction across the wait for the
    /// remote signer: its canonical bytes in hexadecimal text, so that every
    /// integer in it survives unchanged.
    pub fn serialize(&self) -> (r: String)
        requires
            self.wf(),
        ensures
            r@ == hex_encoded(near_signing_payload(self@)),
            near_decodes(near_signing_payload(self@)),
    {
        let payload = near_payload(self);
        encode_hex(payload.as_slice())
    }
}

/// The signing payload is a function of the transaction alone: equal
/// transactions give equal payloads, and so equal digests.
pub proof fn lemma_signing_payload_deterministic(a: TransactionModel, b: TransactionModel)
    requires
        a == b,
    ensures
        near_signing_payload(a) == near_signing_payload(b),
        sha256_of(near_signing_payload(a)) == sha256_of(near_signing_payload(b)),
{
}

/// Reading back the transport form of a transaction gives exactly the bytes that
/// were hashed before it was written, so the digest is the same.
pub proof fn lemma_transport_round_trip(tx: TransactionModel)
    ensures
        is_hex(hex_encoded(near_signing_payload(tx))),
        hex_decoded(hex_encoded(near_signing_payload(tx))) == near_signing_payload(tx),
        sha256_of(hex_decoded(hex_encoded(near_signing_payload(tx)))) == sha256_of(
            near_signing_payload(tx),
        ),
{
    lemma_hex_round_trip(near_signing_payload(tx));
}

/// Reads the transport form back into the canonical bytes of the transaction.
pub fn deserialize_transaction(transport: &str) -> (r: Result<Vec<u8>, EngineError>)
    ensures
        r is Ok <==> is_hex(transport@),
        r is Ok ==> r->Ok_0@ == hex_decoded(transport@),
        r is Err ==> r == Err::<Vec<u8>, EngineError>(EngineError::SerializationFailure),
{
    match decode_hex(transport) {
        Ok(v) => Ok(v),
        Err(_) => Err(EngineError::SerializationFailure),
    }
}

/// Attaches a 65-byte signature to the transaction whose canonical bytes are
/// `payload`, and returns the canonical bytes of the signed transaction.
pub fn attach_signature(payload: &[u8], signature: &[u8]) -> (r: Result<Vec<u8>, EngineError>)
    requires
        signature@.len() == 65,
    ensures
        r is Ok <==> near_decodes(payload@),
        r matches Ok(bytes) ==> bytes@ == near_signed_transaction(payload@, signature@),
        r is Err ==> r == Err::<Vec<u8>, EngineError>(EngineError::SerializationFailure),
{
    match near_with_signature(payload, signature) {
        Some(v) => Ok(v),
        None => Err(EngineError::SerializationFailure),
    }
}

} // verus!
