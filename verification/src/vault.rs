//! The executable vault. Every operation is proved to realize exactly the
//! corresponding transition of the model, to preserve the state invariant,
//! and to leave the vault untouched when it fails.

use vstd::prelude::*;
use crate::errors::VaultError;
use crate::events::Event;
use crate::events::FundsDepositedEvent;
use crate::events::MerchantWithdrawalEvent;
use crate::events::SubscriptionCancelledEvent;
use crate::events::SubscriptionChargedEvent;
use crate::events::SubscriptionCreatedEvent;
use crate::events::SubscriptionPausedEvent;
use crate::events::SubscriptionResumedEvent;
use crate::ledger::MerchantEntry;
use crate::ledger::TokenTransfer;
use crate::ledger::merchant_index;
use crate::model::Config;
use crate::model::VaultModel;
use crate::model::lemma_cancel_inv;
use crate::model::lemma_charge_inv;
use crate::model::lemma_create_inv;
use crate::model::lemma_deposit_inv;
use crate::model::lemma_init_inv;
use crate::model::lemma_pause_inv;
use crate::model::lemma_resume_inv;
use crate::model::lemma_withdraw_inv;
use crate::subscription::Subscription;
use crate::subscription::SubscriptionStatus;

verus! {

/// The vault's stored state: config singletons, the id counter, the
/// subscription records, the merchant ledger, and the logs of emitted
/// events and performed token transfers.
pub struct Vault {
    config: Option<Config>,
    next_id: u64,
    subs: Vec<Subscription>,
    merchants: Vec<MerchantEntry>,
    events: Vec<Event>,
    transfers: Vec<TokenTransfer>,
}

impl View for Vault {
    type V = VaultModel;

    closed spec fn view(&self) -> VaultModel {
        VaultModel {
            config: self.config,
            next_id: self.next_id as int,
            subs: self.subs@,
            merchants: self.merchants@,
            events: self.events@,
            transfers: self.transfers@,
        }
    }
}

/// Index of the entry for merchant `m` in the ledger, if any, agreeing
/// with the model's `merchant_index`.
fn find_merchant(merchants: &Vec<MerchantEntry>, m: u64) -> (r: Option<usize>)
    ensures
        match r {
            Some(i) => i < merchants@.len() && merchants@[i as int].merchant == m
                && merchant_index(merchants@, m) == i,
            None => merchant_index(merchants@, m) == -1,
        },
{
    let n: usize = merchants.len();
    let mut i: usize = n;
    assert(merchants@.subrange(0, n as int) =~= merchants@);
    while i > 0
        invariant
            i <= n,
            n == merchants@.len(),
            merchant_index(merchants@, m) == merchant_index(
                merchants@.subrange(0, i as int),
                m,
            ),
        decreases i,
    {
        let probe: usize = i - 1;
        if merchants[probe].merchant == m {
            assert(merchants@.subrange(0, i as int).last() == merchants@[probe as int]);
            return Some(probe);
        }
        assert(merchants@.subrange(0, i as int).drop_last() =~= merchants@.subrange(
            0,
            probe as int,
        ));
        i = probe;
    }
    assert(merchants@.subrange(0, 0) =~= Seq::<MerchantEntry>::empty());
    None
}

impl Vault {
    /// A fresh, uninitialized vault.
    pub fn new() -> (v: Vault)
        ensures
            v@ == VaultModel::empty(),
            v@.inv(),
    {
        let v = Vault {
            config: None,
            next_id: 1,
            subs: Vec::new(),
            merchants: Vec::new(),
            events: Vec::new(),
            transfers: Vec::new(),
        };
        proof {
            assert(v@ =~= VaultModel::empty());
        }
        v
    }

    /// One-shot setup of the token and admin addresses. A second call
    /// fails with `AlreadyInitialized` and changes nothing.
    pub fn init(&mut self, token: u64, admin: u64) -> (r: Result<(), VaultError>)
        requires
            old(self)@.inv(),
        ensures
            final(self)@.inv(),
            match old(self)@.init_t(token, admin) {
                Ok(m) => r == Ok::<(), VaultError>(()) && final(self)@ == m,
                Err(e) => r == Err::<(), VaultError>(e) && final(self)@ == old(self)@,
            },
    {
        if self.config.is_some() {
            return Err(VaultError::AlreadyInitialized);
        }
        self.config = Some(Config { token, admin });
        self.next_id = 1;
        proof {
            assert(self@ =~= old(self)@.init_t(token, admin)->Ok_0);
            lemma_init_inv(old(self)@, token, admin);
        }
        Ok(())
    }

    /// Creates a subscription for `subscriber` paying `merchant` the fixed
    /// `amount` at most once per `interval_seconds`, returning its id.
    /// Emits `sub_new`; no token moves.
    pub fn create_subscription(
        &mut self,
        subscriber: u64,
        merchant: u64,
        amount: i128,
        interval_seconds: u64,
        usage_enabled: bool,
    ) -> (r: Result<u64, VaultError>)
        requires
            old(self)@.inv(),
        ensures
            final(self)@.inv(),
            match old(self)@.create_t(subscriber, merchant, amount, interval_seconds, usage_enabled) {
                Ok(p) => r == Ok::<u64, VaultError>(p.1) && final(self)@ == p.0,
                Err(e) => r == Err::<u64, VaultError>(e) && final(self)@ == old(self)@,
            },
    {
        if self.config.is_none() {
            return Err(VaultError::NotInitialized);
        }
        if amount <= 0 || interval_seconds == 0 {
            return Err(VaultError::InvalidArgument);
        }
        if self.next_id == u64::MAX {
            return Err(VaultError::ArithmeticOverflow);
        }
        let id: u64 = self.next_id;
        let sub = Subscription {
            subscriber,
            merchant,
            amount,
            interval_seconds,
            last_payment_timestamp: 0,
            status: SubscriptionStatus::Active,
            prepaid_balance: 0,
            usage_enabled,
        };
        self.subs.push(sub);
        self.next_id = id + 1;
        self.events.push(
            Event::SubNew(
                SubscriptionCreatedEvent {
                    subscription_id: id,
                    subscriber,
                    merchant,
                    amount,
                    interval_seconds,
                },
            ),
        );
        proof {
            let p = old(self)@.create_t(subscriber, merchant, amount, interval_seconds, usage_enabled)->Ok_0;
            assert(self@ =~= p.0);
            lemma_create_inv(old(self)@, subscriber, merchant, amount, interval_seconds, usage_enabled);
        }
        Ok(id)
    }

    /// Deposits `amount` from `from` into subscription `id`: the token
    /// moves into the vault and the prepaid balance grows by exactly
    /// `amount`. Emits `deposit`.
    pub fn deposit_funds(&mut self, id: u64, from: u64, amount: i128) -> (r: Result<
        (),
        VaultError,
    >)
        requires
            old(self)@.inv(),
        ensures
            final(self)@.inv(),
            match old(self)@.deposit_t(id, from, amount) {
                Ok(m) => r == Ok::<(), VaultError>(()) && final(self)@ == m,
                Err(e) => r == Err::<(), VaultError>(e) && final(self)@ == old(self)@,
            },
    {
        if self.config.is_none() {
            return Err(VaultError::NotInitialized);
        }
        let n: usize = self.subs.len();
        if id < 1 || id > n as u64 {
            return Err(VaultError::NotFound);
        }
        let idx: usize = (id - 1) as usize;
        let s = self.subs[idx];
        if amount <= 0 {
            return Err(VaultError::InvalidArgument);
        }
        if s.status == SubscriptionStatus::Cancelled {
            return Err(VaultError::InvalidState);
        }
        if s.prepaid_balance > i128::MAX - amount {
            return Err(VaultError::ArithmeticOverflow);
        }
        let s2 = Subscription { prepaid_balance: s.prepaid_balance + amount, ..s };
        self.subs[idx] = s2;
        self.events.push(
            Event::Deposit(
                FundsDepositedEvent {
                    subscription_id: id,
                    subscriber: from,
                    amount,
                    new_balance: s2.prepaid_balance,
                },
            ),
        );
        self.transfers.push(TokenTransfer { counterparty: from, amount, into_vault: true });
        proof {
            assert(self@ =~= old(self)@.deposit_t(id, from, amount)->Ok_0);
            lemma_deposit_inv(old(self)@, id, from, amount);
        }
        Ok(())
    }

    /// Charges one interval of subscription `id` at ledger time `now`:
    /// moves the fixed amount from the prepaid balance to the merchant's
    /// receipts and stamps the charge time. Emits `charged`. Needs no
    /// caller authorization: it only moves already-custodied funds to the
    /// pre-agreed merchant.
    pub fn charge_subscription(&mut self, id: u64, now: u64) -> (r: Result<(), VaultError>)
        requires
            old(self)@.inv(),
        ensures
            final(self)@.inv(),
            match old(self)@.charge_t(id, now) {
                Ok(m) => r == Ok::<(), VaultError>(()) && final(self)@ == m,
                Err(e) => r == Err::<(), VaultError>(e) && final(self)@ == old(self)@,
            },
    {
        if self.config.is_none() {
            return Err(VaultError::NotInitialized);
        }
        let n: usize = self.subs.len();
        if id < 1 || id > n as u64 {
            return Err(VaultError::NotFound);
        }
        let idx: usize = (id - 1) as usize;
        let s = self.subs[idx];
        if !(s.status == SubscriptionStatus::Active) {
            return Err(VaultError::InvalidState);
        }
        if s.prepaid_balance < s.amount {
            return Err(VaultError::InsufficientBalance);
        }
        if s.last_payment_timestamp > 0 {
            if s.interval_seconds > u64::MAX - s.last_payment_timestamp || now
                < s.last_payment_timestamp + s.interval_seconds {
                return Err(VaultError::NotDue);
            }
        }
        match find_merchant(&self.merchants, s.merchant) {
            Some(j) => {
                let e = self.merchants[j];
                if e.balance > i128::MAX - s.amount {
                    return Err(VaultError::ArithmeticOverflow);
                }
                self.merchants[j] = MerchantEntry {
                    merchant: s.merchant,
                    balance: e.balance + s.amount,
                };
            },
            None => {
                self.merchants.push(MerchantEntry { merchant: s.merchant, balance: s.amount });
            },
        }
        let s2 = Subscription {
            prepaid_balance: s.prepaid_balance - s.amount,
            last_payment_timestamp: now,
            ..s
        };
        self.subs[idx] = s2;
        self.events.push(
            Event::Charged(
                SubscriptionChargedEvent {
                    subscription_id: id,
                    merchant: s.merchant,
                    amount: s.amount,
                    remaining_balance: s2.prepaid_balance,
                },
            ),
        );
        proof {
            assert(self@ =~= old(self)@.charge_t(id, now)->Ok_0);
            lemma_charge_inv(old(self)@, id, now);
        }
        Ok(())
    }

    /// Pauses an active subscription; only its subscriber may. Emits
    /// `paused`.
    pub fn pause_subscription(&mut self, id: u64, authorizer: u64) -> (r: Result<
        (),
        VaultError,
    >)
        requires
            old(self)@.inv(),
        ensures
            final(self)@.inv(),
            match old(self)@.pause_t(id, authorizer) {
                Ok(m) => r == Ok::<(), VaultError>(()) && final(self)@ == m,
                Err(e) => r == Err::<(), VaultError>(e) && final(self)@ == old(self)@,
            },
    {
        if self.config.is_none() {
            return Err(VaultError::NotInitialized);
        }
        let n: usize = self.subs.len();
        if id < 1 || id > n as u64 {
            return Err(VaultError::NotFound);
        }
        let idx: usize = (id - 1) as usize;
        let s = self.subs[idx];
        if authorizer != s.subscriber {
            return Err(VaultError::Unauthorized);
        }
        if !(s.status == SubscriptionStatus::Active) {
            return Err(VaultError::InvalidState);
        }
        let s2 = Subscription { status: SubscriptionStatus::Paused, ..s };
        self.subs[idx] = s2;
        self.events.push(
            Event::Paused(SubscriptionPausedEvent { subscription_id: id, authorizer }),
        );
        proof {
            assert(self@ =~= old(self)@.pause_t(id, authorizer)->Ok_0);
            lemma_pause_inv(old(self)@, id, authorizer);
        }
        Ok(())
    }

    /// Resumes a paused subscription; only its subscriber may. Emits
    /// `resumed`.
    pub fn resume_subscription(&mut self, id: u64, authorizer: u64) -> (r: Result<
        (),
        VaultError,
    >)
        requires
            old(self)@.inv(),
        ensures
            final(self)@.inv(),
            match old(self)@.resume_t(id, authorizer) {
                Ok(m) => r == Ok::<(), VaultError>(()) && final(self)@ == m,
                Err(e) => r == Err::<(), VaultError>(e) && final(self)@ == old(self)@,
            },
    {
        if self.config.is_none() {
            return Err(VaultError::NotInitialized);
        }
        let n: usize = self.subs.len();
        if id < 1 || id > n as u64 {
            return Err(VaultError::NotFound);
        }
        let idx: usize = (id - 1) as usize;
        let s = self.subs[idx];
        if authorizer != s.subscriber {
            return Err(VaultError::Unauthorized);
        }
        if !(s.status == SubscriptionStatus::Paused) {
            return Err(VaultError::InvalidState);
        }
        let s2 = Subscription { status: SubscriptionStatus::Active, ..s };
        self.subs[idx] = s2;
        self.events.push(
            Event::Resumed(SubscriptionResumedEvent { subscription_id: id, authorizer }),
        );
        proof {
            assert(self@ =~= old(self)@.resume_t(id, authorizer)->Ok_0);
            lemma_resume_inv(old(self)@, id, authorizer);
        }
        Ok(())
    }

    /// Cancels a subscription; only its subscriber may. The whole prepaid
    /// balance is refunded to the subscriber (no token moves when it is
    /// zero) and the record is marked cancelled. Emits `cancelled`.
    /// Cancelling a cancelled subscription succeeds with a zero refund.
    pub fn cancel_subscription(&mut self, id: u64, authorizer: u64) -> (r: Result<
        (),
        VaultError,
    >)
        requires
            old(self)@.inv(),
        ensures
            final(self)@.inv(),
            match old(self)@.cancel_t(id, authorizer) {
                Ok(m) => r == Ok::<(), VaultError>(()) && final(self)@ == m,
                Err(e) => r == Err::<(), VaultError>(e) && final(self)@ == old(self)@,
            },
    {
        if self.config.is_none() {
            return Err(VaultError::NotInitialized);
        }
        let n: usize = self.subs.len();
        if id < 1 || id > n as u64 {
            return Err(VaultError::NotFound);
        }
        let idx: usize = (id - 1) as usize;
        let s = self.subs[idx];
        if authorizer != s.subscriber {
            return Err(VaultError::Unauthorized);
        }
        let refund: i128 = s.prepaid_balance;
        let s2 = Subscription {
            prepaid_balance: 0,
            status: SubscriptionStatus::Cancelled,
            ..s
        };
        self.subs[idx] = s2;
        if refund > 0 {
            self.transfers.push(
                TokenTransfer { counterparty: s.subscriber, amount: refund, into_vault: false },
            );
        }
        self.events.push(
            Event::Cancelled(
                SubscriptionCancelledEvent { subscription_id: id, authorizer, refund_amount: refund },
            ),
        );
        proof {
            assert(self@ =~= old(self)@.cancel_t(id, authorizer)->Ok_0);
            lemma_cancel_inv(old(self)@, id, authorizer);
        }
        Ok(())
    }

    /// Withdraws `amount` of the receipts accumulated for `merchant`:
    /// decrements the ledger entry and moves the token out of the vault.
    /// Emits `withdraw`. An absent entry counts as a zero balance.
    pub fn withdraw_merchant_funds(&mut self, merchant: u64, amount: i128) -> (r: Result<
        (),
        VaultError,
    >)
        requires
            old(self)@.inv(),
        ensures
            final(self)@.inv(),
            match old(self)@.withdraw_t(merchant, amount) {
                Ok(m) => r == Ok::<(), VaultError>(()) && final(self)@ == m,
                Err(e) => r == Err::<(), VaultError>(e) && final(self)@ == old(self)@,
            },
    {
        if self.config.is_none() {
            return Err(VaultError::NotInitialized);
        }
        if amount <= 0 {
            return Err(VaultError::InvalidArgument);
        }
        match find_merchant(&self.merchants, merchant) {
            None => Err(VaultError::InsufficientBalance),
            Some(j) => {
                let e = self.merchants[j];
                proof {
                    crate::ledger::lemma_merchant_index_spec(self.merchants@, merchant);
                }
                if e.balance < amount {
                    return Err(VaultError::InsufficientBalance);
                }
                let e2 = MerchantEntry { merchant, balance: e.balance - amount };
                self.merchants[j] = e2;
                self.events.push(
                    Event::Withdraw(
                        MerchantWithdrawalEvent { merchant, amount, remaining_balance: e2.balance },
                    ),
                );
                self.transfers.push(
                    TokenTransfer { counterparty: merchant, amount, into_vault: false },
                );
                proof {
                    assert(self@ =~= old(self)@.withdraw_t(merchant, amount)->Ok_0);
                    lemma_withdraw_inv(old(self)@, merchant, amount);
                }
                Ok(())
            },
        }
    }

    /// The subscription stored under `id`; a cancelled subscription stays
    /// queryable.
    pub fn get_subscription(&self, id: u64) -> (r: Result<Subscription, VaultError>)
        ensures
            match r {
                Ok(s) => self@.has_sub(id) && s == self@.sub(id),
                Err(e) => !self@.has_sub(id) && e == VaultError::NotFound,
            },
    {
        let n: usize = self.subs.len();
        if id < 1 || id > n as u64 {
            return Err(VaultError::NotFound);
        }
        Ok(self.subs[(id - 1) as usize])
    }

    /// The receipts accumulated for `merchant`; zero if no entry exists.
    pub fn get_merchant_balance(&self, merchant: u64) -> (b: i128)
        ensures
            b as int == self@.merchant_balance(merchant),
    {
        match find_merchant(&self.merchants, merchant) {
            Some(j) => self.merchants[j].balance,
            None => 0,
        }
    }

    /// The id the next created subscription will get.
    pub fn next_subscription_id(&self) -> (id: u64)
        ensures
            id as int == self@.next_id,
    {
        self.next_id
    }

    /// Every event emitted so far, in order.
    pub fn events(&self) -> (r: &Vec<Event>)
        ensures
            r@ == self@.events,
    {
        &self.events
    }

    /// Every token transfer performed so far, in order.
    pub fn transfers(&self) -> (r: &Vec<TokenTransfer>)
        ensures
            r@ == self@.transfers,
    {
        &self.transfers
    }
}

} // verus!
