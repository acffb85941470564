//! Concrete end-to-end scenarios: exact event payloads, error codes, and
//! the accounting identity on full traces.

use subscription_vault::Event;
use subscription_vault::SubscriptionStatus;
use subscription_vault::Vault;

const TOKEN: u64 = 100;
const ADMIN: u64 = 101;
const SUB: u64 = 7;
const MERCH: u64 = 8;

const AMOUNT: i128 = 100_000_000_000;
const INTERVAL: u64 = 2_592_000;
const DEPOSIT: i128 = 500_000_000_000;

fn vault_with_subscription() -> (Vault, u64) {
    let mut v = Vault::new();
    v.init(TOKEN, ADMIN).unwrap();
    let id = v.create_subscription(SUB, MERCH, AMOUNT, INTERVAL, false).unwrap();
    (v, id)
}

#[test]
fn scenario_create_event_shape() {
    let (v, id) = vault_with_subscription();
    assert_eq!(id, 1);
    assert_eq!(v.events().len(), 1);
    match *v.events().last().unwrap() {
        Event::SubNew(data) => {
            assert_eq!(data.subscription_id, 1);
            assert_eq!(data.subscriber, SUB);
            assert_eq!(data.merchant, MERCH);
            assert_eq!(data.amount, AMOUNT);
            assert_eq!(data.interval_seconds, INTERVAL);
        }
        other => panic!("expected sub_new, got {:?}", other),
    }
}

#[test]
fn scenario_deposit_then_charge() {
    let (mut v, id) = vault_with_subscription();

    v.deposit_funds(id, SUB, DEPOSIT).unwrap();
    match *v.events().last().unwrap() {
        Event::Deposit(data) => assert_eq!(data.new_balance, DEPOSIT),
        other => panic!("expected deposit, got {:?}", other),
    }

    v.charge_subscription(id, 0).unwrap();
    match *v.events().last().unwrap() {
        Event::Charged(data) => {
            assert_eq!(data.amount, AMOUNT);
            assert_eq!(data.remaining_balance, 400_000_000_000);
        }
        other => panic!("expected charged, got {:?}", other),
    }
    assert_eq!(v.get_merchant_balance(MERCH), AMOUNT);
}

#[test]
fn scenario_insufficient_funds() {
    let (mut v, id) = vault_with_subscription();
    v.deposit_funds(id, SUB, 50_000_000_000).unwrap();

    let events_before = v.events().len();
    let err = v.charge_subscription(id, 0).unwrap_err();
    assert_eq!(err.code(), 402);

    // State unchanged, no charged event
    assert_eq!(v.events().len(), events_before);
    let s = v.get_subscription(id).unwrap();
    assert_eq!(s.prepaid_balance, 50_000_000_000);
    assert_eq!(s.last_payment_timestamp, 0);
    assert_eq!(v.get_merchant_balance(MERCH), 0);
}

#[test]
fn scenario_cancel_refunds() {
    let (mut v, id) = vault_with_subscription();
    v.deposit_funds(id, SUB, DEPOSIT).unwrap();

    v.cancel_subscription(id, SUB).unwrap();
    match *v.events().last().unwrap() {
        Event::Cancelled(data) => assert_eq!(data.refund_amount, DEPOSIT),
        other => panic!("expected cancelled, got {:?}", other),
    }
    // The refund left the vault as one token transfer back to the subscriber
    let tr = *v.transfers().last().unwrap();
    assert_eq!(tr.counterparty, SUB);
    assert_eq!(tr.amount, DEPOSIT);
    assert!(!tr.into_vault);

    let s = v.get_subscription(id).unwrap();
    assert_eq!(s.prepaid_balance, 0);
    assert_eq!(s.status, SubscriptionStatus::Cancelled);

    // A second cancel succeeds and refunds nothing
    let transfers_before = v.transfers().len();
    v.cancel_subscription(id, SUB).unwrap();
    match *v.events().last().unwrap() {
        Event::Cancelled(data) => assert_eq!(data.refund_amount, 0),
        other => panic!("expected cancelled, got {:?}", other),
    }
    assert_eq!(v.transfers().len(), transfers_before);
}

#[test]
fn scenario_withdraw_exceeds_balance() {
    let (mut v, id) = vault_with_subscription();
    v.deposit_funds(id, SUB, DEPOSIT).unwrap();
    v.charge_subscription(id, 0).unwrap();

    // The merchant holds only one charged interval
    let err = v.withdraw_merchant_funds(MERCH, 200_000_000_000).unwrap_err();
    assert_eq!(err.code(), 402);
    assert_eq!(v.get_merchant_balance(MERCH), AMOUNT);
}

#[test]
fn scenario_full_lifecycle() {
    let (mut v, id) = vault_with_subscription();
    v.deposit_funds(id, SUB, DEPOSIT).unwrap();
    v.charge_subscription(id, 0).unwrap();
    v.withdraw_merchant_funds(MERCH, AMOUNT).unwrap();
    match *v.events().last().unwrap() {
        Event::Withdraw(data) => assert_eq!(data.remaining_balance, 0),
        other => panic!("expected withdraw, got {:?}", other),
    }
    v.pause_subscription(id, SUB).unwrap();
    v.resume_subscription(id, SUB).unwrap();
    v.cancel_subscription(id, SUB).unwrap();
    match *v.events().last().unwrap() {
        Event::Cancelled(data) => assert_eq!(data.refund_amount, 400_000_000_000),
        other => panic!("expected cancelled, got {:?}", other),
    }

    let topics: Vec<&str> = v.events().iter().map(|e| e.topic()).collect();
    assert_eq!(
        topics,
        vec!["sub_new", "deposit", "charged", "withdraw", "paused", "resumed", "cancelled"],
    );
}

#[test]
fn ids_are_sequential_and_unique() {
    let (mut v, first) = vault_with_subscription();
    assert_eq!(first, 1);
    assert_eq!(v.next_subscription_id(), 2);
    let second = v.create_subscription(SUB, MERCH, AMOUNT, INTERVAL, true).unwrap();
    assert_eq!(second, 2);
    let third = v.create_subscription(3, 4, 1, 1, false).unwrap();
    assert_eq!(third, 3);
    assert_ne!(first, second);
    assert_ne!(second, third);
}

#[test]
fn conservation_holds_on_a_mixed_trace() {
    let (mut v, id) = vault_with_subscription();
    v.deposit_funds(id, SUB, DEPOSIT).unwrap();
    v.charge_subscription(id, 0).unwrap();
    let id2 = v.create_subscription(3, MERCH, 5, 10, false).unwrap();
    v.deposit_funds(id2, 3, 40).unwrap();
    v.charge_subscription(id2, 7).unwrap();
    v.withdraw_merchant_funds(MERCH, 60_000_000_000).unwrap();
    v.cancel_subscription(id, SUB).unwrap();

    // Prepaid balances plus merchant receipts equal the net token flow
    let mut prepaid: i128 = 0;
    let mut sub_id: u64 = 1;
    while let Ok(s) = v.get_subscription(sub_id) {
        prepaid += s.prepaid_balance;
        sub_id += 1;
    }
    let receipts: i128 = v.get_merchant_balance(MERCH) + v.get_merchant_balance(SUB);
    let mut net: i128 = 0;
    for t in v.transfers().iter() {
        if t.into_vault {
            net += t.amount;
        } else {
            net -= t.amount;
        }
    }
    assert_eq!(prepaid + receipts, net);
}

#[test]
fn usage_flag_is_persisted() {
    let mut v = Vault::new();
    v.init(TOKEN, ADMIN).unwrap();
    let with_usage = v.create_subscription(SUB, MERCH, AMOUNT, INTERVAL, true).unwrap();
    let without = v.create_subscription(SUB, MERCH, AMOUNT, INTERVAL, false).unwrap();
    assert!(v.get_subscription(with_usage).unwrap().usage_enabled);
    assert!(!v.get_subscription(without).unwrap().usage_enabled);
}
