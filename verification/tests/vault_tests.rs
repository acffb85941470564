//! Lifecycle and event-stream tests for the vault, one per operation,
//! plus negative cases that must leave the vault untouched.

use subscription_vault::Event;
use subscription_vault::SubscriptionStatus;
use subscription_vault::Subscription;
use subscription_vault::Vault;

const TOKEN: u64 = 100;
const ADMIN: u64 = 101;

fn fresh_vault() -> Vault {
    let mut v = Vault::new();
    v.init(TOKEN, ADMIN).unwrap();
    v
}

#[test]
fn test_init_and_struct() {
    let mut v = Vault::new();
    let token: u64 = 100;
    let admin: u64 = 101;
    assert!(v.init(token, admin).is_ok());
}

#[test]
fn test_subscription_struct() {
    let sub = Subscription {
        subscriber: 1,
        merchant: 2,
        amount: 10_000_0000,
        interval_seconds: 30 * 24 * 60 * 60,
        last_payment_timestamp: 0,
        status: SubscriptionStatus::Active,
        prepaid_balance: 50_000_0000,
        usage_enabled: false,
    };
    assert_eq!(sub.status, SubscriptionStatus::Active);
}

#[test]
fn test_create_subscription_emits_event() {
    let mut v = fresh_vault();
    let subscriber: u64 = 1;
    let merchant: u64 = 2;
    let amount: i128 = 10_000_0000;
    let interval: u64 = 2_592_000;

    let sub_id = v.create_subscription(subscriber, merchant, amount, interval, false).unwrap();

    let last = *v.events().last().unwrap();
    assert_eq!(last.topic(), "sub_new");
    match last {
        Event::SubNew(data) => {
            assert_eq!(data.subscription_id, sub_id);
            assert_eq!(data.subscriber, subscriber);
            assert_eq!(data.merchant, merchant);
            assert_eq!(data.amount, amount);
            assert_eq!(data.interval_seconds, interval);
        }
        other => panic!("expected sub_new, got {:?}", other),
    }
}

#[test]
fn test_deposit_funds_emits_event() {
    let mut v = fresh_vault();
    let subscriber: u64 = 1;
    let merchant: u64 = 2;

    let sub_id = v.create_subscription(subscriber, merchant, 10_000_0000, 2_592_000, false).unwrap();
    v.deposit_funds(sub_id, subscriber, 50_000_0000).unwrap();

    let last = *v.events().last().unwrap();
    assert_eq!(last.topic(), "deposit");
    match last {
        Event::Deposit(data) => {
            assert_eq!(data.subscription_id, sub_id);
            assert_eq!(data.subscriber, subscriber);
            assert_eq!(data.amount, 50_000_0000);
            assert_eq!(data.new_balance, 50_000_0000);
        }
        other => panic!("expected deposit, got {:?}", other),
    }
}

#[test]
fn test_charge_subscription_emits_event() {
    let mut v = fresh_vault();
    let subscriber: u64 = 1;
    let merchant: u64 = 2;
    let amount: i128 = 10_000_0000;

    let sub_id = v.create_subscription(subscriber, merchant, amount, 2_592_000, false).unwrap();
    v.deposit_funds(sub_id, subscriber, 50_000_0000).unwrap();
    v.charge_subscription(sub_id, 0).unwrap();

    let last = *v.events().last().unwrap();
    assert_eq!(last.topic(), "charged");
    match last {
        Event::Charged(data) => {
            assert_eq!(data.subscription_id, sub_id);
            assert_eq!(data.merchant, merchant);
            assert_eq!(data.amount, amount);
            assert_eq!(data.remaining_balance, 40_000_0000); // 50 - 10
        }
        other => panic!("expected charged, got {:?}", other),
    }
}

#[test]
fn test_pause_subscription_emits_event() {
    let mut v = fresh_vault();
    let subscriber: u64 = 1;
    let merchant: u64 = 2;

    let sub_id = v.create_subscription(subscriber, merchant, 10_000_0000, 2_592_000, false).unwrap();
    v.pause_subscription(sub_id, subscriber).unwrap();

    let last = *v.events().last().unwrap();
    assert_eq!(last.topic(), "paused");
    match last {
        Event::Paused(data) => {
            assert_eq!(data.subscription_id, sub_id);
            assert_eq!(data.authorizer, subscriber);
        }
        other => panic!("expected paused, got {:?}", other),
    }
}

#[test]
fn test_resume_subscription_emits_event() {
    let mut v = fresh_vault();
    let subscriber: u64 = 1;
    let merchant: u64 = 2;

    let sub_id = v.create_subscription(subscriber, merchant, 10_000_0000, 2_592_000, false).unwrap();
    v.pause_subscription(sub_id, subscriber).unwrap();
    v.resume_subscription(sub_id, subscriber).unwrap();

    let last = *v.events().last().unwrap();
    assert_eq!(last.topic(), "resumed");
    match last {
        Event::Resumed(data) => {
            assert_eq!(data.subscription_id, sub_id);
            assert_eq!(data.authorizer, subscriber);
        }
        other => panic!("expected resumed, got {:?}", other),
    }
}

#[test]
fn test_cancel_subscription_emits_event() {
    let mut v = fresh_vault();
    let subscriber: u64 = 1;
    let merchant: u64 = 2;

    let sub_id = v.create_subscription(subscriber, merchant, 10_000_0000, 2_592_000, false).unwrap();
    v.deposit_funds(sub_id, subscriber, 50_000_0000).unwrap();
    v.cancel_subscription(sub_id, subscriber).unwrap();

    let last = *v.events().last().unwrap();
    assert_eq!(last.topic(), "cancelled");
    match last {
        Event::Cancelled(data) => {
            assert_eq!(data.subscription_id, sub_id);
            assert_eq!(data.authorizer, subscriber);
            assert_eq!(data.refund_amount, 50_000_0000);
        }
        other => panic!("expected cancelled, got {:?}", other),
    }
}

#[test]
fn test_withdraw_merchant_funds_emits_event() {
    let mut v = fresh_vault();
    let subscriber: u64 = 1;
    let merchant: u64 = 2;
    let charge_amount: i128 = 10_000_0000;

    // Create, deposit, and charge so the merchant has a balance
    let sub_id = v.create_subscription(subscriber, merchant, charge_amount, 2_592_000, false).unwrap();
    v.deposit_funds(sub_id, subscriber, 50_000_0000).unwrap();
    v.charge_subscription(sub_id, 0).unwrap();

    let withdraw_amount: i128 = 5_000_0000;
    v.withdraw_merchant_funds(merchant, withdraw_amount).unwrap();

    let last = *v.events().last().unwrap();
    assert_eq!(last.topic(), "withdraw");
    match last {
        Event::Withdraw(data) => {
            assert_eq!(data.merchant, merchant);
            assert_eq!(data.amount, withdraw_amount);
            assert_eq!(data.remaining_balance, charge_amount - withdraw_amount); // 10 - 5 = 5
        }
        other => panic!("expected withdraw, got {:?}", other),
    }
}

#[test]
fn test_deposit_nonexistent_subscription_no_event() {
    let mut v = fresh_vault();
    let subscriber: u64 = 1;
    // Subscription 999 doesn't exist — must error, no event emitted
    let err = v.deposit_funds(999, subscriber, 50_000_0000).unwrap_err();
    assert_eq!(err.code(), 404);
    assert_eq!(v.events().len(), 0);
}

#[test]
fn test_charge_nonexistent_subscription_no_event() {
    let mut v = fresh_vault();
    // Subscription 999 doesn't exist — must error, no event emitted
    let err = v.charge_subscription(999, 0).unwrap_err();
    assert_eq!(err.code(), 404);
    assert_eq!(v.events().len(), 0);
}

#[test]
fn test_charge_insufficient_balance() {
    let mut v = fresh_vault();
    let subscriber: u64 = 1;
    let merchant: u64 = 2;

    // Create with amount=10, deposit only 5 → charge should fail
    let sub_id = v.create_subscription(subscriber, merchant, 10_000_0000, 2_592_000, false).unwrap();
    v.deposit_funds(sub_id, subscriber, 5_000_0000).unwrap();

    let err = v.charge_subscription(sub_id, 0).unwrap_err();
    assert_eq!(err.code(), 402);
}

#[test]
fn test_withdraw_exceeds_balance() {
    let mut v = fresh_vault();
    let subscriber: u64 = 1;
    let merchant: u64 = 2;

    // Merchant has 10 from one charge, tries to withdraw 20
    let sub_id = v.create_subscription(subscriber, merchant, 10_000_0000, 2_592_000, false).unwrap();
    v.deposit_funds(sub_id, subscriber, 50_000_0000).unwrap();
    v.charge_subscription(sub_id, 0).unwrap();

    let err = v.withdraw_merchant_funds(merchant, 20_000_0000).unwrap_err();
    assert_eq!(err.code(), 402);
}

#[test]
fn test_withdraw_no_balance() {
    let mut v = fresh_vault();
    let merchant: u64 = 2;
    // Merchant has no accumulated balance at all
    let err = v.withdraw_merchant_funds(merchant, 1).unwrap_err();
    assert_eq!(err.code(), 402);
}

#[test]
fn test_event_count_single_create() {
    let mut v = fresh_vault();
    let subscriber: u64 = 1;
    let merchant: u64 = 2;

    v.create_subscription(subscriber, merchant, 10_000_0000, 2_592_000, false).unwrap();

    // Exactly 1 event should be emitted
    assert_eq!(v.events().len(), 1);
}

#[test]
fn test_cancel_already_cancelled() {
    let mut v = fresh_vault();
    let subscriber: u64 = 1;
    let merchant: u64 = 2;

    let sub_id = v.create_subscription(subscriber, merchant, 10_000_0000, 2_592_000, false).unwrap();
    v.deposit_funds(sub_id, subscriber, 50_000_0000).unwrap();

    // Cancel once — should emit with refund_amount == 50
    v.cancel_subscription(sub_id, subscriber).unwrap();
    match *v.events().last().unwrap() {
        Event::Cancelled(data) => assert_eq!(data.refund_amount, 50_000_0000),
        other => panic!("expected cancelled, got {:?}", other),
    }

    // Cancel again — still succeeds, but the balance was already refunded,
    // so the second cancellation refunds nothing
    v.cancel_subscription(sub_id, subscriber).unwrap();
    match *v.events().last().unwrap() {
        Event::Cancelled(data) => assert_eq!(data.refund_amount, 0),
        other => panic!("expected cancelled, got {:?}", other),
    }
}

#[test]
fn test_full_lifecycle_events() {
    let mut v = fresh_vault();
    let subscriber: u64 = 1;
    let merchant: u64 = 2;
    let charge_amount: i128 = 10_000_0000;

    // 1. Create
    let sub_id = v.create_subscription(subscriber, merchant, charge_amount, 2_592_000, false).unwrap();
    assert_eq!(v.events().last().unwrap().topic(), "sub_new");

    // 2. Deposit
    v.deposit_funds(sub_id, subscriber, 50_000_0000).unwrap();
    assert_eq!(v.events().last().unwrap().topic(), "deposit");

    // 3. Charge
    v.charge_subscription(sub_id, 0).unwrap();
    assert_eq!(v.events().last().unwrap().topic(), "charged");

    // 4. Merchant withdrawal (now possible because charge accumulated balance)
    v.withdraw_merchant_funds(merchant, charge_amount).unwrap();
    assert_eq!(v.events().last().unwrap().topic(), "withdraw");
    match *v.events().last().unwrap() {
        Event::Withdraw(wd) => assert_eq!(wd.remaining_balance, 0),
        other => panic!("expected withdraw, got {:?}", other),
    }

    // 5. Pause
    v.pause_subscription(sub_id, subscriber).unwrap();
    assert_eq!(v.events().last().unwrap().topic(), "paused");

    // 6. Resume
    v.resume_subscription(sub_id, subscriber).unwrap();
    assert_eq!(v.events().last().unwrap().topic(), "resumed");

    // 7. Cancel
    v.cancel_subscription(sub_id, subscriber).unwrap();
    assert_eq!(v.events().last().unwrap().topic(), "cancelled");
}
