//! The event stream: one strongly-typed record per successful mutating
//! operation, consumed by off-chain indexers to reconstruct vault state.

use vstd::prelude::*;

verus! {

/// Payload of the `sub_new` event.
#[derive(Clone, Copy, Debug, PartialEq, Eq, Structural)]
pub struct SubscriptionCreatedEvent {
    pub subscription_id: u64,
    pub subscriber: u64,
    pub merchant: u64,
    pub amount: i128,
    pub interval_seconds: u64,
}

/// Payload of the `deposit` event.
#[derive(Clone, Copy, Debug, PartialEq, Eq, Structural)]
pub struct FundsDepositedEvent {
    pub subscription_id: u64,
    pub subscriber: u64,
    pub amount: i128,
    pub new_balance: i128,
}

/// Payload of the `charged` event.
#[derive(Clone, Copy, Debug, PartialEq, Eq, Structural)]
pub struct SubscriptionChargedEvent {
    pub subscription_id: u64,
    pub merchant: u64,
    pub amount: i128,
    pub remaining_balance: i128,
}

/// Payload of the `paused` event.
#[derive(Clone, Copy, Debug, PartialEq, Eq, Structural)]
pub struct SubscriptionPausedEvent {
    pub subscription_id: u64,
    pub authorizer: u64,
}

/// Payload of the `resumed` event.
#[derive(Clone, Copy, Debug, PartialEq, Eq, Structural)]
pub struct SubscriptionResumedEvent {
    pub subscription_id: u64,
    pub authorizer: u64,
}

/// Payload of the `cancelled` event.
#[derive(Clone, Copy, Debug, PartialEq, Eq, Structural)]
pub struct SubscriptionCancelledEvent {
    pub subscription_id: u64,
    pub authorizer: u64,
    pub refund_amount: i128,
}

/// Payload of the `withdraw` event.
#[derive(Clone, Copy, Debug, PartialEq, Eq, Structural)]
pub struct MerchantWithdrawalEvent {
    pub merchant: u64,
    pub amount: i128,
    pub remaining_balance: i128,
}

/// One emitted event: a topic together with its typed payload. Each variant
/// corresponds to exactly one mutating operation.
#[derive(Clone, Copy, Debug, PartialEq, Eq, Structural)]
pub enum Event {
    SubNew(SubscriptionCreatedEvent),
    Deposit(FundsDepositedEvent),
    Charged(SubscriptionChargedEvent),
    Paused(SubscriptionPausedEvent),
    Resumed(SubscriptionResumedEvent),
    Cancelled(SubscriptionCancelledEvent),
    Withdraw(MerchantWithdrawalEvent),
}

impl Event {
    /// The short topic symbol under which this event is published.
    pub open spec fn spec_topic(self) -> Seq<char> {
        match self {
            Event::SubNew(_) => "sub_new"@,
            Event::Deposit(_) => "deposit"@,
            Event::Charged(_) => "charged"@,
            Event::Paused(_) => "paused"@,
            Event::Resumed(_) => "resumed"@,
            Event::Cancelled(_) => "cancelled"@,
            Event::Withdraw(_) => "withdraw"@,
        }
    }

    /// The short topic symbol under which this event is published.
    pub fn topic(&self) -> (t: &'static str)
        ensures
            t@ == self.spec_topic(),
    {
        match self {
            Event::SubNew(_) => "sub_new",
            Event::Deposit(_) => "deposit",
            Event::Charged(_) => "charged",
            Event::Paused(_) => "paused",
            Event::Resumed(_) => "resumed",
            Event::Cancelled(_) => "cancelled",
            Event::Withdraw(_) => "withdraw",
        }
    }
}

} // verus!
