//! The mathematical model of the vault: its abstract state, the invariant
//! that every operation preserves, and one transition function per
//! operation. Each executable operation is proved to realize its transition
//! exactly; every law of the vault is stated over these transitions.

use vstd::prelude::*;
use crate::errors::VaultError;
use crate::events::Event;
use crate::events::FundsDepositedEvent;
use crate::events::MerchantWithdrawalEvent;
use crate::events::SubscriptionCancelledEvent;
use crate::events::SubscriptionChargedEvent;
use crate::events::SubscriptionCreatedEvent;
use crate::events::SubscriptionPausedEvent;
use crate::events::SubscriptionResumedEvent;
use crate::ledger::MerchantEntry;
use crate::ledger::TokenTransfer;
use crate::ledger::credit;
use crate::ledger::merch_total;
use crate::ledger::merchant_balance_of;
use crate::ledger::merchant_index;
use crate::ledger::net_flow;
use crate::ledger::sub_total;
use crate::subscription::Subscription;
use crate::subscription::SubscriptionStatus;

verus! {

/// The config singletons, stored once by `init`.
#[derive(Clone, Copy, Debug, PartialEq, Eq, Structural)]
pub struct Config {
    /// Address of the fungible-token contract the vault custodies.
    pub token: u64,
    /// Address of the vault administrator.
    pub admin: u64,
}

/// Abstract state of the vault. Subscription ids are assigned from 1
/// upward and never reused, so the subscription with id `i` is the
/// `i - 1`-th element of `subs`.
#[verifier::ext_equal]
pub struct VaultModel {
    /// `None` until `init` has run.
    pub config: Option<Config>,
    /// The next subscription id to assign.
    pub next_id: int,
    /// All subscriptions ever created, in order of creation.
    pub subs: Seq<Subscription>,
    /// Accumulated undrawn receipts, one entry per merchant.
    pub merchants: Seq<MerchantEntry>,
    /// Every event emitted so far, in order.
    pub events: Seq<Event>,
    /// Every token transfer performed so far, in order.
    pub transfers: Seq<TokenTransfer>,
}

impl VaultModel {
    /// The state before any operation has run.
    pub open spec fn empty() -> VaultModel {
        VaultModel {
            config: None,
            next_id: 1,
            subs: Seq::empty(),
            merchants: Seq::empty(),
            events: Seq::empty(),
            transfers: Seq::empty(),
        }
    }

    pub open spec fn initialized(self) -> bool {
        self.config is Some
    }

    /// Whether a subscription is stored under `id`.
    pub open spec fn has_sub(self, id: u64) -> bool {
        1 <= id && id <= self.subs.len()
    }

    /// The subscription stored under `id`.
    pub open spec fn sub(self, id: u64) -> Subscription {
        self.subs[id - 1]
    }

    /// The balance accumulated for `merchant`; zero if no entry exists.
    pub open spec fn merchant_balance(self, merchant: u64) -> int {
        merchant_balance_of(self.merchants, merchant)
    }

    /// The state invariant, established by `empty` and preserved by every
    /// operation:
    /// - ids are dense: the counter is one past the stored subscriptions,
    ///   and stays representable;
    /// - every stored subscription is well-formed;
    /// - merchant entries have unique keys and non-negative balances;
    /// - every recorded transfer moved a strictly positive amount;
    /// - nothing is stored before initialization;
    /// - conservation: the funds the vault accounts for (prepaid balances
    ///   plus undrawn receipts) equal the net token value it received.
    pub open spec fn inv(self) -> bool {
        &&& self.next_id == self.subs.len() + 1
        &&& self.subs.len() + 1 <= u64::MAX
        &&& forall|i: int| 0 <= i < self.subs.len() ==> (#[trigger] self.subs[i]).wf()
        &&& forall|i: int| 0 <= i < self.merchants.len() ==> (#[trigger] self.merchants[i]).balance >= 0
        &&& forall|i: int, j: int|
            0 <= i < j < self.merchants.len() ==> (#[trigger] self.merchants[i]).merchant != (
            #[trigger] self.merchants[j]).merchant
        &&& forall|i: int| 0 <= i < self.transfers.len() ==> (#[trigger] self.transfers[i]).amount > 0
        &&& !self.initialized() ==> self.subs.len() == 0 && self.merchants.len() == 0
            && self.events.len() == 0 && self.transfers.len() == 0
        &&& sub_total(self.subs) + merch_total(self.merchants) == net_flow(self.transfers)
    }

    /// One-shot setup: stores the token and admin addresses and starts the
    /// id counter at 1. Fails if already done.
    pub open spec fn init_t(self, token: u64, admin: u64) -> Result<VaultModel, VaultError> {
        if self.initialized() {
            Err(VaultError::AlreadyInitialized)
        } else {
            Ok(VaultModel { config: Some(Config { token, admin }), next_id: 1, ..self })
        }
    }

    /// Creates a subscription: assigns the next id, stores an active record
    /// with no funds, and emits `sub_new`. No token moves.
    pub open spec fn create_t(
        self,
        subscriber: u64,
        merchant: u64,
        amount: i128,
        interval_seconds: u64,
        usage_enabled: bool,
    ) -> Result<(VaultModel, u64), VaultError> {
        if !self.initialized() {
            Err(VaultError::NotInitialized)
        } else if amount <= 0 || interval_seconds == 0 {
            Err(VaultError::InvalidArgument)
        } else if self.next_id >= u64::MAX {
            Err(VaultError::ArithmeticOverflow)
        } else {
            let id = self.next_id as u64;
            let sub = Subscription {
                subscriber,
                merchant,
                amount,
                interval_seconds,
                last_payment_timestamp: 0,
                status: SubscriptionStatus::Active,
                prepaid_balance: 0,
                usage_enabled,
            };
            let ev = Event::SubNew(
                SubscriptionCreatedEvent { subscription_id: id, subscriber, merchant, amount, interval_seconds },
            );
            Ok(
                (
                    VaultModel {
                        next_id: self.next_id + 1,
                        subs: self.subs.push(sub),
                        events: self.events.push(ev),
                        ..self
                    },
                    id,
                ),
            )
        }
    }

    /// Deposits `amount` into a live subscription: the token moves from
    /// `from` into the vault, the prepaid balance grows by exactly
    /// `amount`, and `deposit` is emitted.
    pub open spec fn deposit_t(self, id: u64, from: u64, amount: i128) -> Result<
        VaultModel,
        VaultError,
    > {
        if !self.initialized() {
            Err(VaultError::NotInitialized)
        } else if !self.has_sub(id) {
            Err(VaultError::NotFound)
        } else if amount <= 0 {
            Err(VaultError::InvalidArgument)
        } else if self.sub(id).status is Cancelled {
            Err(VaultError::InvalidState)
        } else if self.sub(id).prepaid_balance + amount > i128::MAX {
            Err(VaultError::ArithmeticOverflow)
        } else {
            let s = self.sub(id);
            let s2 = Subscription {
                prepaid_balance: (s.prepaid_balance + amount) as i128,
                ..s
            };
            let ev = Event::Deposit(
                FundsDepositedEvent {
                    subscription_id: id,
                    subscriber: from,
                    amount,
                    new_balance: s2.prepaid_balance,
                },
            );
            let tr = TokenTransfer { counterparty: from, amount, into_vault: true };
            Ok(
                VaultModel {
                    subs: self.subs.update(id - 1, s2),
                    events: self.events.push(ev),
                    transfers: self.transfers.push(tr),
                    ..self
                },
            )
        }
    }

    /// Charges one interval: moves the fixed `amount` from the prepaid
    /// balance to the merchant's receipts, stamps the charge time, and
    /// emits `charged`. No token leaves the vault.
    pub open spec fn charge_t(self, id: u64, now: u64) -> Result<VaultModel, VaultError> {
        if !self.initialized() {
            Err(VaultError::NotInitialized)
        } else if !self.has_sub(id) {
            Err(VaultError::NotFound)
        } else if !(self.sub(id).status is Active) {
            Err(VaultError::InvalidState)
        } else if self.sub(id).prepaid_balance < self.sub(id).amount {
            Err(VaultError::InsufficientBalance)
        } else if !self.sub(id).charge_due(now) {
            Err(VaultError::NotDue)
        } else if self.merchant_balance(self.sub(id).merchant) + self.sub(id).amount
            > i128::MAX {
            Err(VaultError::ArithmeticOverflow)
        } else {
            let s = self.sub(id);
            let s2 = Subscription {
                prepaid_balance: (s.prepaid_balance - s.amount) as i128,
                last_payment_timestamp: now,
                ..s
            };
            let ev = Event::Charged(
                SubscriptionChargedEvent {
                    subscription_id: id,
                    merchant: s.merchant,
                    amount: s.amount,
                    remaining_balance: s2.prepaid_balance,
                },
            );
            Ok(
                VaultModel {
                    subs: self.subs.update(id - 1, s2),
                    merchants: credit(self.merchants, s.merchant, s.amount as int),
                    events: self.events.push(ev),
                    ..self
                },
            )
        }
    }

    /// Pauses an active subscription and emits `paused`. Only the
    /// subscriber may pause.
    pub open spec fn pause_t(self, id: u64, authorizer: u64) -> Result<VaultModel, VaultError> {
        if !self.initialized() {
            Err(VaultError::NotInitialized)
        } else if !self.has_sub(id) {
            Err(VaultError::NotFound)
        } else if authorizer != self.sub(id).subscriber {
            Err(VaultError::Unauthorized)
        } else if !(self.sub(id).status is Active) {
            Err(VaultError::InvalidState)
        } else {
            let s2 = Subscription { status: SubscriptionStatus::Paused, ..self.sub(id) };
            let ev = Event::Paused(
                SubscriptionPausedEvent { subscription_id: id, authorizer },
            );
            Ok(
                VaultModel {
                    subs: self.subs.update(id - 1, s2),
                    events: self.events.push(ev),
                    ..self
                },
            )
        }
    }

    /// Resumes a paused subscription and emits `resumed`. Only the
    /// subscriber may resume. Time spent paused is not re-based: a charge
    /// may be due immediately after resuming.
    pub open spec fn resume_t(self, id: u64, authorizer: u64) -> Result<VaultModel, VaultError> {
        if !self.initialized() {
            Err(VaultError::NotInitialized)
        } else if !self.has_sub(id) {
            Err(VaultError::NotFound)
        } else if authorizer != self.sub(id).subscriber {
            Err(VaultError::Unauthorized)
        } else if !(self.sub(id).status is Paused) {
            Err(VaultError::InvalidState)
        } else {
            let s2 = Subscription { status: SubscriptionStatus::Active, ..self.sub(id) };
            let ev = Event::Resumed(
                SubscriptionResumedEvent { subscription_id: id, authorizer },
            );
            Ok(
                VaultModel {
                    subs: self.subs.update(id - 1, s2),
                    events: self.events.push(ev),
                    ..self
                },
            )
        }
    }

    /// Cancels a subscription: refunds the whole prepaid balance to the
    /// subscriber (a token transfer out of the vault, skipped when zero),
    /// zeroes the balance, marks the record cancelled, and emits
    /// `cancelled`. Cancelling again succeeds with a zero refund.
    pub open spec fn cancel_t(self, id: u64, authorizer: u64) -> Result<VaultModel, VaultError> {
        if !self.initialized() {
            Err(VaultError::NotInitialized)
        } else if !self.has_sub(id) {
            Err(VaultError::NotFound)
        } else if authorizer != self.sub(id).subscriber {
            Err(VaultError::Unauthorized)
        } else {
            let s = self.sub(id);
            let refund = s.prepaid_balance;
            let s2 = Subscription {
                prepaid_balance: 0,
                status: SubscriptionStatus::Cancelled,
                ..s
            };
            let ev = Event::Cancelled(
                SubscriptionCancelledEvent { subscription_id: id, authorizer, refund_amount: refund },
            );
            let transfers2 = if refund > 0 {
                self.transfers.push(
                    TokenTransfer { counterparty: s.subscriber, amount: refund, into_vault: false },
                )
            } else {
                self.transfers
            };
            Ok(
                VaultModel {
                    subs: self.subs.update(id - 1, s2),
                    events: self.events.push(ev),
                    transfers: transfers2,
                    ..self
                },
            )
        }
    }

    /// Withdraws accumulated receipts: decrements the merchant's balance
    /// and moves the token out of the vault, emitting `withdraw`. An
    /// absent entry counts as a zero balance.
    pub open spec fn withdraw_t(self, merchant: u64, amount: i128) -> Result<
        VaultModel,
        VaultError,
    > {
        if !self.initialized() {
            Err(VaultError::NotInitialized)
        } else if amount <= 0 {
            Err(VaultError::InvalidArgument)
        } else if self.merchant_balance(merchant) < amount {
            Err(VaultError::InsufficientBalance)
        } else {
            let i = merchant_index(self.merchants, merchant);
            let e = self.merchants[i];
            let e2 = MerchantEntry { merchant, balance: (e.balance - amount) as i128 };
            let ev = Event::Withdraw(
                MerchantWithdrawalEvent { merchant, amount, remaining_balance: e2.balance },
            );
            let tr = TokenTransfer { counterparty: merchant, amount, into_vault: false };
            Ok(
                VaultModel {
                    merchants: self.merchants.update(i, e2),
                    events: self.events.push(ev),
                    transfers: self.transfers.push(tr),
                    ..self
                },
            )
        }
    }
}

/// `init` preserves the invariant.
pub proof fn lemma_init_inv(m: VaultModel, token: u64, admin: u64)
    requires
        m.inv(),
        m.init_t(token, admin) is Ok,
    ensures
        (m.init_t(token, admin)->Ok_0).inv(),
{
}

/// `create_subscription` preserves the invariant.
pub proof fn lemma_create_inv(
    m: VaultModel,
    subscriber: u64,
    merchant: u64,
    amount: i128,
    interval_seconds: u64,
    usage_enabled: bool,
)
    requires
        m.inv(),
        m.create_t(subscriber, merchant, amount, interval_seconds, usage_enabled) is Ok,
    ensures
        (m.create_t(subscriber, merchant, amount, interval_seconds, usage_enabled)->Ok_0).0.inv(),
{
    let post = (m.create_t(subscriber, merchant, amount, interval_seconds, usage_enabled)->Ok_0).0;
    crate::ledger::lemma_sub_total_push(m.subs, post.subs.last());
}

/// `deposit_funds` preserves the invariant.
pub proof fn lemma_deposit_inv(m: VaultModel, id: u64, from: u64, amount: i128)
    requires
        m.inv(),
        m.deposit_t(id, from, amount) is Ok,
    ensures
        (m.deposit_t(id, from, amount)->Ok_0).inv(),
{
    let post = m.deposit_t(id, from, amount)->Ok_0;
    crate::ledger::lemma_sub_total_update(m.subs, id - 1, post.subs[id - 1]);
    crate::ledger::lemma_net_flow_push(m.transfers, post.transfers.last());
}

/// `charge_subscription` preserves the invariant.
pub proof fn lemma_charge_inv(m: VaultModel, id: u64, now: u64)
    requires
        m.inv(),
        m.charge_t(id, now) is Ok,
    ensures
        (m.charge_t(id, now)->Ok_0).inv(),
{
    let post = m.charge_t(id, now)->Ok_0;
    let s = m.sub(id);
    crate::ledger::lemma_sub_total_update(m.subs, id - 1, post.subs[id - 1]);
    crate::ledger::lemma_merchant_index_spec(m.merchants, s.merchant);
    crate::ledger::lemma_credit_spec(m.merchants, s.merchant, s.amount as int);
    let i = merchant_index(m.merchants, s.merchant);
    if i >= 0 {
        assert(m.merchants[i].balance >= 0);
        assert(merchant_balance_of(m.merchants, s.merchant) == m.merchants[i].balance as int);
        assert(post.merchants =~= m.merchants.update(
            i,
            MerchantEntry {
                merchant: s.merchant,
                balance: (m.merchants[i].balance + s.amount) as i128,
            },
        ));
    } else {
        assert(post.merchants =~= m.merchants.push(
            MerchantEntry { merchant: s.merchant, balance: s.amount },
        ));
    }
}

/// `pause_subscription` preserves the invariant.
pub proof fn lemma_pause_inv(m: VaultModel, id: u64, authorizer: u64)
    requires
        m.inv(),
        m.pause_t(id, authorizer) is Ok,
    ensures
        (m.pause_t(id, authorizer)->Ok_0).inv(),
{
    let post = m.pause_t(id, authorizer)->Ok_0;
    crate::ledger::lemma_sub_total_update(m.subs, id - 1, post.subs[id - 1]);
}

/// `resume_subscription` preserves the invariant.
pub proof fn lemma_resume_inv(m: VaultModel, id: u64, authorizer: u64)
    requires
        m.inv(),
        m.resume_t(id, authorizer) is Ok,
    ensures
        (m.resume_t(id, authorizer)->Ok_0).inv(),
{
    let post = m.resume_t(id, authorizer)->Ok_0;
    crate::ledger::lemma_sub_total_update(m.subs, id - 1, post.subs[id - 1]);
}

/// `cancel_subscription` preserves the invariant.
pub proof fn lemma_cancel_inv(m: VaultModel, id: u64, authorizer: u64)
    requires
        m.inv(),
        m.cancel_t(id, authorizer) is Ok,
    ensures
        (m.cancel_t(id, authorizer)->Ok_0).inv(),
{
    let post = m.cancel_t(id, authorizer)->Ok_0;
    crate::ledger::lemma_sub_total_update(m.subs, id - 1, post.subs[id - 1]);
    let refund = m.sub(id).prepaid_balance;
    if refund > 0 {
        crate::ledger::lemma_net_flow_push(m.transfers, post.transfers.last());
    }
}

/// `withdraw_merchant_funds` preserves the invariant.
pub proof fn lemma_withdraw_inv(m: VaultModel, merchant: u64, amount: i128)
    requires
        m.inv(),
        m.withdraw_t(merchant, amount) is Ok,
    ensures
        (m.withdraw_t(merchant, amount)->Ok_0).inv(),
{
    let post = m.withdraw_t(merchant, amount)->Ok_0;
    crate::ledger::lemma_merchant_index_spec(m.merchants, merchant);
    let i = merchant_index(m.merchants, merchant);
    assert(i >= 0);
    crate::ledger::lemma_merch_total_update(m.merchants, i, post.merchants[i]);
    crate::ledger::lemma_net_flow_push(m.transfers, post.transfers.last());
}

} // verus!
