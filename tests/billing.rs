use mpc_subscription::error::EngineError;
use mpc_subscription::ledger::{Eligibility, Ledger, SubscriptionInfo, UnsubscribeState};
use mpc_subscription::orchestrator::CallContext;
use mpc_subscription::signer::{AffinePoint, Scalar, SignResult};
use mpc_subscription::subscription::{
    ChargeOutcome, Contract, TransactionInput, SUBSCRIPTION_PRICE,
};

const KEY: &str = "ed25519:6E8sCci9badyRkXb3JoRpBj5p8C6Tw41ELDZoiihKEtp";
const BLOCK: &str = "4reLvkAWfqk5fsqio1KLudk46cqRz9erQdaHkWZKMJDZ";

fn ctx(caller: &str, now: u64, deposit: u128) -> CallContext {
    CallContext {
        predecessor_account_id: caller.to_string(),
        current_account_id: "contract.near".to_string(),
        block_timestamp: now,
        attached_deposit: deposit,
    }
}

fn contract(period: u64) -> Contract {
    Contract::init(period, "admin.near".to_string(), "mpc.near".to_string())
}

fn input() -> TransactionInput {
    TransactionInput { target_public_key: KEY.to_string(), nonce: 1, block_hash: BLOCK.to_string() }
}

fn info(c: &Contract, a: &str) -> SubscriptionInfo {
    c.subscribers.get(a).unwrap()
}

#[test]
fn enroll_sets_first_due_date() {
    let mut c = contract(60);
    assert_eq!(c.start_subscription(&ctx("alice.near", 0, 0)), Ok(()));
    assert_eq!(
        info(&c, "alice.near"),
        SubscriptionInfo { next_payment_due: 60, unsubscribe_state: None }
    );
    assert_eq!(SubscriptionInfo::new(5, 60).next_payment_due, 65);
}

#[test]
fn enroll_twice_fails_and_keeps_entry() {
    let mut c = contract(60);
    c.start_subscription(&ctx("alice.near", 0, 0)).unwrap();
    assert_eq!(c.start_subscription(&ctx("alice.near", 30, 0)), Err(EngineError::AlreadyEnrolled));
    assert_eq!(info(&c, "alice.near").next_payment_due, 60);
    assert_eq!(c.subscribers.len(), 1);
}

#[test]
fn pay_advances_due_date_by_one_period() {
    let mut c = contract(60);
    c.start_subscription(&ctx("alice.near", 0, 0)).unwrap();
    assert_eq!(c.pay_subscription(&ctx("alice.near", 59, SUBSCRIPTION_PRICE)), Err(EngineError::NotDue));
    assert_eq!(c.pay_subscription(&ctx("alice.near", 60, 1)), Err(EngineError::WrongDeposit));
    assert_eq!(c.pay_subscription(&ctx("bob.near", 60, SUBSCRIPTION_PRICE)), Err(EngineError::NotEnrolled));
    assert_eq!(c.pay_subscription(&ctx("alice.near", 1000, SUBSCRIPTION_PRICE)), Ok(()));
    assert_eq!(info(&c, "alice.near").next_payment_due, 120);
}

#[test]
fn unsubscribe_before_due_waits_for_one_payment() {
    let mut c = contract(60);
    c.start_subscription(&ctx("alice.near", 0, 0)).unwrap();
    assert_eq!(c.user_unsubscribe(&ctx("alice.near", 60, 0)), Ok(()));
    assert_eq!(info(&c, "alice.near").unsubscribe_state, Some(UnsubscribeState::NextPeriod));
    assert_eq!(c.user_unsubscribe(&ctx("alice.near", 61, 0)), Err(EngineError::AlreadyUnsubscribing));
    c.pay_subscription(&ctx("alice.near", 65, SUBSCRIPTION_PRICE)).unwrap();
    assert_eq!(info(&c, "alice.near").unsubscribe_state, Some(UnsubscribeState::Now));
}

#[test]
fn unsubscribe_after_due_is_immediate() {
    let mut c = contract(60);
    c.start_subscription(&ctx("alice.near", 0, 0)).unwrap();
    assert_eq!(c.user_unsubscribe(&ctx("alice.near", 61, 0)), Ok(()));
    assert_eq!(info(&c, "alice.near").unsubscribe_state, Some(UnsubscribeState::Now));
    assert_eq!(c.user_unsubscribe(&ctx("bob.near", 61, 0)), Err(EngineError::NotEnrolled));
}

#[test]
fn charge_before_due_fails_without_request() {
    let mut c = contract(60);
    c.start_subscription(&ctx("alice.near", 0, 0)).unwrap();
    assert!(matches!(
        c.charge_subscription(&ctx("admin.near", 59, 0), "alice.near", &input(), 7),
        Err(EngineError::NotDue)
    ));
    assert!(matches!(
        c.charge_subscription(&ctx("admin.near", 60, 0), "alice.near", &input(), 7),
        Err(EngineError::NotDue)
    ));
    assert!(matches!(
        c.charge_subscription(&ctx("alice.near", 61, 0), "alice.near", &input(), 7),
        Err(EngineError::Unauthorized)
    ));
    assert!(matches!(
        c.charge_subscription(&ctx("admin.near", 61, 0), "bob.near", &input(), 7),
        Err(EngineError::NotEnrolled)
    ));
    assert_eq!(info(&c, "alice.near").next_payment_due, 60);
}

#[test]
fn charge_rejects_bad_key() {
    let mut c = contract(60);
    c.start_subscription(&ctx("alice.near", 0, 0)).unwrap();
    let bad = TransactionInput { target_public_key: "ed25519:xyz".to_string(), nonce: 1, block_hash: BLOCK.to_string() };
    assert!(matches!(
        c.charge_subscription(&ctx("admin.near", 61, 0), "alice.near", &bad, 7),
        Err(EngineError::InvalidPublicKey)
    ));
}

#[test]
fn end_to_end_charge() {
    let mut c = contract(60);
    c.start_subscription(&ctx("alice.near", 0, 0)).unwrap();
    let outcome = c.charge_subscription(&ctx("admin.near", 61, 0), "alice.near", &input(), 7).unwrap();
    let plan = match outcome {
        ChargeOutcome::SignatureRequested(plan) => plan,
        ChargeOutcome::Unsubscribed => panic!("expected a signing request"),
    };
    assert_eq!(plan.request.path, "alice.near");
    assert_eq!(plan.request.key_version, 0);
    assert_eq!(plan.deposit, 7);
    let payload = hex::decode(&plan.serialized_tx).unwrap();
    assert_eq!(plan.request.payload, mpc_subscription::digest::hash_payload(&payload));
    let r = "5a".repeat(32);
    let result = SignResult {
        big_r: AffinePoint { affine_point: format!("00{}", r) },
        s: Scalar { scalar: "77".repeat(32) },
        recovery_id: 0,
    };
    let signed = c.sign_callback(Some(result), &plan.serialized_tx).unwrap();
    let sig = &signed[signed.len() - 65..];
    assert_eq!(&sig[..32], &[0x5a; 32][..]);
    assert_eq!(&sig[32..64], &[0x77; 32][..]);
    assert_eq!(sig[64], 0x00);
    assert_eq!(&signed[..payload.len()], &payload[..]);
}

#[test]
fn charge_removes_departed_subscriber() {
    let mut c = contract(60);
    c.start_subscription(&ctx("alice.near", 0, 0)).unwrap();
    c.user_unsubscribe(&ctx("alice.near", 10, 0)).unwrap();
    assert_eq!(info(&c, "alice.near").unsubscribe_state, Some(UnsubscribeState::NextPeriod));
    c.pay_subscription(&ctx("alice.near", 65, SUBSCRIPTION_PRICE)).unwrap();
    assert_eq!(info(&c, "alice.near").unsubscribe_state, Some(UnsubscribeState::Now));
    let outcome = c.charge_subscription(&ctx("admin.near", 121, 0), "alice.near", &input(), 7).unwrap();
    assert!(matches!(outcome, ChargeOutcome::Unsubscribed));
    assert!(c.subscribers.get("alice.near").is_none());
    assert_eq!(c.view_user("alice.near").err(), Some(EngineError::NotEnrolled));
}

#[test]
fn cancel_by_operator() {
    let mut c = contract(60);
    c.start_subscription(&ctx("alice.near", 0, 0)).unwrap();
    c.start_subscription(&ctx("bob.near", 0, 0)).unwrap();
    assert_eq!(c.cancel_user_subscription(&ctx("bob.near", 5, 0), "alice.near"), Err(EngineError::Unauthorized));
    assert_eq!(c.cancel_user_subscription(&ctx("admin.near", 5, 0), "carol.near"), Err(EngineError::NotEnrolled));
    assert_eq!(c.cancel_user_subscription(&ctx("admin.near", 5, 0), "alice.near"), Ok(()));
    assert_eq!(info(&c, "alice.near").unsubscribe_state, Some(UnsubscribeState::NextPeriod));
    assert_eq!(
        c.cancel_user_subscription(&ctx("admin.near", 6, 0), "alice.near"),
        Err(EngineError::AlreadyUnsubscribing)
    );
    assert_eq!(c.cancel_user_subscription(&ctx("admin.near", 100, 0), "bob.near"), Ok(()));
    assert_eq!(info(&c, "bob.near").unsubscribe_state, Some(UnsubscribeState::Now));
    assert_eq!(c.cancel_user_subscription(&ctx("admin.near", 101, 0), "bob.near"), Ok(()));
    assert!(c.subscribers.get("bob.near").is_none());
    assert!(c.subscribers.get("alice.near").is_some());
}

#[test]
fn view_users_pages_in_enrollment_order() {
    let mut c = contract(60);
    for (i, a) in ["carol.near", "alice.near", "bob.near"].iter().enumerate() {
        c.start_subscription(&ctx(a, i as u64, 0)).unwrap();
    }
    let all = c.view_users(&None, &None);
    let names: Vec<&str> = all.iter().map(|v| v.account_id.as_str()).collect();
    assert_eq!(names, vec!["carol.near", "alice.near", "bob.near"]);
    assert_eq!(all[2].next_payment_due, 62);
    let page = c.view_users(&Some(1), &Some(1));
    assert_eq!(page.len(), 1);
    assert_eq!(page[0].account_id, "alice.near");
    assert!(c.view_users(&Some(5), &None).is_empty());
    assert_eq!(c.view_users(&Some(2), &Some(10)).len(), 1);
    let v = c.view_user("bob.near").unwrap();
    assert_eq!(v.next_payment_due, 62);
    assert_eq!(v.unsubscribe_state, None);
}

#[test]
fn ledger_remove_keeps_order() {
    let mut l = Ledger::new();
    l.enroll("a.near", 0, 10).unwrap();
    l.enroll("b.near", 0, 10).unwrap();
    l.enroll("c.near", 0, 10).unwrap();
    assert!(l.remove("b.near"));
    assert!(!l.remove("b.near"));
    let page = l.list(0, 10);
    assert_eq!(page.len(), 2);
    assert_eq!(page[0].account_id, "a.near");
    assert_eq!(page[1].account_id, "c.near");
}

#[test]
fn ledger_charge_eligibility() {
    let mut l = Ledger::new();
    l.enroll("a.near", 0, 60).unwrap();
    assert_eq!(l.charge_eligibility("b.near", 100), Err(EngineError::NotEnrolled));
    assert_eq!(l.charge_eligibility("a.near", 60), Err(EngineError::NotDue));
    assert_eq!(l.charge_eligibility("a.near", 61), Ok(Eligibility::Charge));
    l.request_unsubscribe("a.near", 61).unwrap();
    assert_eq!(l.charge_eligibility("a.near", 61), Ok(Eligibility::SkipAndRemove));
}

#[test]
fn ledger_restore_keeps_given_state() {
    let mut l = Ledger::new();
    let info = SubscriptionInfo { next_payment_due: 500, unsubscribe_state: Some(UnsubscribeState::NextPeriod) };
    assert_eq!(l.restore("a.near", info), Ok(()));
    assert_eq!(l.restore("a.near", info), Err(EngineError::AlreadyEnrolled));
    assert_eq!(l.get("a.near"), Some(info));
    assert_eq!(l.enroll("a.near", 0, 1), Err(EngineError::AlreadyEnrolled));
}
