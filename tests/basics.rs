use mpc_subscription::error::EngineError;
use mpc_subscription::orchestrator::CallContext;
use mpc_subscription::subscription::Contract;

fn call_from(caller: &str, now: u64) -> CallContext {
    CallContext {
        predecessor_account_id: caller.to_string(),
        current_account_id: "contract.test.near".to_string(),
        block_timestamp: now,
        attached_deposit: 0,
    }
}

fn deployed() -> Contract {
    let period_length: u64 = 60_000_000_000;
    Contract::init(period_length, "admin.test.near".to_string(), "mpc_contract.test.near".to_string())
}

#[test]
fn test_contract_is_operational() {
    let mut contract = deployed();
    let now: u64 = 1_700_000_000_000_000_000;
    assert!(contract.start_subscription(&call_from("alice.test.near", now)).is_ok(), "Alice's subscription failed");
    assert!(contract.start_subscription(&call_from("bob.test.near", now)).is_ok(), "Bob's subscription failed");
    assert_eq!(contract.subscribers.len(), 2);
    assert_eq!(contract.view_user("alice.test.near").unwrap().next_payment_due, now + 60_000_000_000);
}

#[test]
fn test_basics_test_contract_is_operational() {
    let mut contract = deployed();
    let now: u64 = 1_700_000_000_000_000_000;
    assert!(contract.start_subscription(&call_from("alice.test.near", now)).is_ok(), "Subscription failed");
    assert_eq!(
        contract.start_subscription(&call_from("alice.test.near", now + 1)),
        Err(EngineError::AlreadyEnrolled),
        "Subscription should have failed"
    );
}
