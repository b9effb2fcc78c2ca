use mpc_subscription::digest::hash_payload;
use mpc_subscription::error::EngineError;
use mpc_subscription::orchestrator::{complete_signing, request_signature};
use mpc_subscription::signature::encode_signature;
use mpc_subscription::signer::{AffinePoint, Scalar, SignRequest, SignResult};
use mpc_subscription::transaction::{deserialize_transaction, FunctionCall, UnsignedTransaction};

const KEY: &str = "ed25519:6E8sCci9badyRkXb3JoRpBj5p8C6Tw41ELDZoiihKEtp";
const BLOCK: &str = "4reLvkAWfqk5fsqio1KLudk46cqRz9erQdaHkWZKMJDZ";

fn r_hex() -> String {
    "ab".repeat(32)
}

fn s_hex() -> String {
    "0c".repeat(32)
}

fn sample_tx() -> UnsignedTransaction {
    let call = FunctionCall {
        method_name: "pay_subscription".to_string(),
        args: vec![],
        gas: 30_000_000_000_000,
        deposit: 5,
    };
    UnsignedTransaction::build("alice.near", KEY, 7, "contract.near", BLOCK, vec![call]).unwrap()
}

#[test]
fn signature_layout_places_prefix_last() {
    let big_r = format!("01{}", r_hex());
    let sig = encode_signature(&big_r, &s_hex()).unwrap();
    assert_eq!(sig.len(), 65);
    assert_eq!(&sig[..32], &[0xab; 32][..]);
    assert_eq!(&sig[32..64], &[0x0c; 32][..]);
    assert_eq!(sig[64], 0x01);
}

#[test]
fn signature_accepts_upper_case_hex() {
    let big_r = format!("1B{}", "CD".repeat(32));
    let sig = encode_signature(&big_r, &"EF".repeat(32)).unwrap();
    assert_eq!(sig[0], 0xcd);
    assert_eq!(sig[32], 0xef);
    assert_eq!(sig[64], 0x1b);
}

#[test]
fn signature_rejects_malformed_components() {
    let bad = Err(EngineError::MalformedSignatureComponent);
    assert_eq!(encode_signature(&format!("0g{}", r_hex()), &s_hex()), bad);
    assert_eq!(encode_signature(&format!("00{}z", &r_hex()[..63]), &s_hex()), bad);
    assert_eq!(encode_signature(&r_hex(), &s_hex()), bad);
    assert_eq!(encode_signature(&format!("00{}", r_hex()), &s_hex()[..62]), bad);
    assert_eq!(encode_signature("0", &s_hex()), bad);
    assert_eq!(encode_signature("", ""), bad);
    assert_eq!(encode_signature(&format!("00{}00", r_hex()), &s_hex()), bad);
}

#[test]
fn digest_is_sha256() {
    let d = hash_payload(b"abc");
    assert_eq!(
        hex::encode(d),
        "ba7816bf8f01cfea414140de5dae2223b00361a396177a9cb410ff61f20015ad"
    );
    assert_eq!(
        hex::encode(hash_payload(b"")),
        "e3b0c44298fc1c149afbf4c8996fb92427ae41e4649b934ca495991b7852b855"
    );
}

#[test]
fn build_rejects_unparsable_inputs() {
    let call = || FunctionCall { method_name: "m".to_string(), args: vec![], gas: 1, deposit: 0 };
    assert!(matches!(
        UnsignedTransaction::build("alice.near", "ed25519:0OIl", 1, "bob.near", BLOCK, vec![call()]),
        Err(EngineError::InvalidPublicKey)
    ));
    assert!(matches!(
        UnsignedTransaction::build("alice.near", "nokind", 1, "bob.near", BLOCK, vec![call()]),
        Err(EngineError::InvalidPublicKey)
    ));
    assert!(matches!(
        UnsignedTransaction::build("alice.near", KEY, 1, "bob.near", "abc", vec![call()]),
        Err(EngineError::InvalidBlockAnchor)
    ));
    assert!(matches!(
        UnsignedTransaction::build("Alice!", KEY, 1, "bob.near", BLOCK, vec![call()]),
        Err(EngineError::InvalidAccountId)
    ));
    assert!(matches!(
        UnsignedTransaction::build("alice.near", KEY, 1, "", BLOCK, vec![call()]),
        Err(EngineError::InvalidAccountId)
    ));
}

#[test]
fn build_keeps_inputs() {
    let tx = sample_tx();
    assert_eq!(tx.signer_id, "alice.near");
    assert_eq!(tx.receiver_id, "contract.near");
    assert_eq!(tx.nonce, 7);
    assert_eq!(tx.actions.len(), 1);
}

#[test]
fn signing_payload_is_deterministic() {
    let tx = sample_tx();
    let a = tx.signing_payload();
    let b = tx.signing_payload();
    assert_eq!(a, b);
    assert!(!a.is_empty());
    assert_eq!(a, sample_tx().signing_payload());
    // the payload starts with the borsh string of the signer id
    assert_eq!(&a[..4], &[10, 0, 0, 0]);
    assert_eq!(&a[4..14], b"alice.near");
}

#[test]
fn transport_round_trip_keeps_digest() {
    let tx = sample_tx();
    let payload = tx.signing_payload();
    let text = tx.serialize();
    assert_eq!(text, hex::encode(&payload));
    assert_ne!(text.as_bytes(), &payload[..]);
    let back = deserialize_transaction(&text).unwrap();
    assert_eq!(back, payload);
    assert_eq!(hash_payload(&back), hash_payload(&payload));
    assert_eq!(deserialize_transaction("xyz"), Err(EngineError::SerializationFailure));
}

#[test]
fn sign_request_new_keeps_fields() {
    let r = SignRequest::new([3u8; 32], "alice.near".to_string(), 0);
    assert_eq!(r.payload, [3u8; 32]);
    assert_eq!(r.path, "alice.near");
    assert_eq!(r.key_version, 0);
}

#[test]
fn request_then_complete_signing() {
    let tx = sample_tx();
    let plan = request_signature(&tx, "alice.near", 9);
    assert_eq!(plan.request.payload, hash_payload(&tx.signing_payload()));
    assert_eq!(plan.request.path, "alice.near");
    assert_eq!(plan.request.key_version, 0);
    assert_eq!(plan.deposit, 9);
    let result = SignResult {
        big_r: AffinePoint { affine_point: format!("00{}", r_hex()) },
        s: Scalar { scalar: s_hex() },
        recovery_id: 0,
    };
    let signed = complete_signing(Some(result), &plan.serialized_tx).unwrap();
    let payload = tx.signing_payload();
    assert_eq!(signed.len(), payload.len() + 66);
    assert_eq!(&signed[..payload.len()], &payload[..]);
    assert_eq!(signed[payload.len()], 1);
    let sig = &signed[payload.len() + 1..];
    assert_eq!(&sig[..32], &[0xab; 32][..]);
    assert_eq!(&sig[32..64], &[0x0c; 32][..]);
    assert_eq!(sig[64], 0);
}

#[test]
fn complete_signing_failures() {
    let plan = request_signature(&sample_tx(), "alice.near", 9);
    assert_eq!(complete_signing(None, &plan.serialized_tx), Err(EngineError::RemoteSignerFailure));
    let bad = SignResult {
        big_r: AffinePoint { affine_point: "00".to_string() },
        s: Scalar { scalar: s_hex() },
        recovery_id: 0,
    };
    assert_eq!(
        complete_signing(Some(bad), &plan.serialized_tx),
        Err(EngineError::MalformedSignatureComponent)
    );
    let good = || SignResult {
        big_r: AffinePoint { affine_point: format!("00{}", r_hex()) },
        s: Scalar { scalar: s_hex() },
        recovery_id: 0,
    };
    assert_eq!(complete_signing(Some(good()), "not hex"), Err(EngineError::SerializationFailure));
    assert_eq!(complete_signing(Some(good()), "00ff"), Err(EngineError::SerializationFailure));
}

#[test]
fn account_id_rules() {
    let call = || FunctionCall { method_name: "m".to_string(), args: vec![], gas: 1, deposit: 0 };
    for bad in ["a", "-ab", "ab-", "a..b", "a_.b", "Ab", "a b", &"a".repeat(65)] {
        assert!(
            matches!(
                UnsignedTransaction::build(bad, KEY, 1, "bob.near", BLOCK, vec![call()]),
                Err(EngineError::InvalidAccountId)
            ),
            "{} should be refused",
            bad
        );
    }
    for good in ["ab", "a-b_c.d", "0x1", &"a".repeat(64)] {
        assert!(UnsignedTransaction::build(good, KEY, 1, "bob.near", BLOCK, vec![call()]).is_ok());
    }
}
