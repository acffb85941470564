//! The laws of the vault, stated over the model's transitions and proved
//! once and for all: id uniqueness, exactness of charges, cancellation
//! refunds, conservation of funds, and the one-event-per-operation rule.

use vstd::prelude::*;
use crate::errors::VaultError;
use crate::events::Event;
use crate::events::SubscriptionCancelledEvent;
use crate::ledger::merch_total;
use crate::ledger::net_flow;
use crate::ledger::sub_total;
use crate::model::VaultModel;
use crate::model::lemma_cancel_inv;
use crate::model::lemma_charge_inv;
use crate::model::lemma_create_inv;
use crate::model::lemma_deposit_inv;
use crate::model::lemma_init_inv;
use crate::model::lemma_pause_inv;
use crate::model::lemma_resume_inv;
use crate::model::lemma_withdraw_inv;

verus! {

/// One vault operation with its arguments, for laws that quantify over
/// all operations at once.
pub enum VaultOp {
    Init { token: u64, admin: u64 },
    Create { subscriber: u64, merchant: u64, amount: i128, interval_seconds: u64, usage_enabled: bool },
    Deposit { id: u64, from: u64, amount: i128 },
    Charge { id: u64, now: u64 },
    Pause { id: u64, authorizer: u64 },
    Resume { id: u64, authorizer: u64 },
    Cancel { id: u64, authorizer: u64 },
    Withdraw { merchant: u64, amount: i128 },
}

/// The state after applying one operation, or the error that refuses it.
pub open spec fn step(m: VaultModel, op: VaultOp) -> Result<VaultModel, VaultError> {
    match op {
        VaultOp::Init { token, admin } => m.init_t(token, admin),
        VaultOp::Create { subscriber, merchant, amount, interval_seconds, usage_enabled } => match m.create_t(
            subscriber,
            merchant,
            amount,
            interval_seconds,
            usage_enabled,
        ) {
            Ok(p) => Ok(p.0),
            Err(e) => Err(e),
        },
        VaultOp::Deposit { id, from, amount } => m.deposit_t(id, from, amount),
        VaultOp::Charge { id, now } => m.charge_t(id, now),
        VaultOp::Pause { id, authorizer } => m.pause_t(id, authorizer),
        VaultOp::Resume { id, authorizer } => m.resume_t(id, authorizer),
        VaultOp::Cancel { id, authorizer } => m.cancel_t(id, authorizer),
        VaultOp::Withdraw { merchant, amount } => m.withdraw_t(merchant, amount),
    }
}

/// Whether an operation publishes an event when it succeeds: all of them
/// do except `init`.
pub open spec fn op_emits(op: VaultOp) -> bool {
    !(op is Init)
}

/// The topic every successful run of the operation publishes under.
pub open spec fn op_topic(op: VaultOp) -> Seq<char> {
    match op {
        VaultOp::Init { .. } => Seq::empty(),
        VaultOp::Create { .. } => "sub_new"@,
        VaultOp::Deposit { .. } => "deposit"@,
        VaultOp::Charge { .. } => "charged"@,
        VaultOp::Pause { .. } => "paused"@,
        VaultOp::Resume { .. } => "resumed"@,
        VaultOp::Cancel { .. } => "cancelled"@,
        VaultOp::Withdraw { .. } => "withdraw"@,
    }
}

/// Every successful operation preserves the vault invariant, conservation
/// of funds included.
pub proof fn lemma_step_preserves_inv(m: VaultModel, op: VaultOp)
    requires
        m.inv(),
        step(m, op) is Ok,
    ensures
        (step(m, op)->Ok_0).inv(),
{
    match op {
        VaultOp::Init { token, admin } => lemma_init_inv(m, token, admin),
        VaultOp::Create { subscriber, merchant, amount, interval_seconds, usage_enabled } => lemma_create_inv(
            m,
            subscriber,
            merchant,
            amount,
            interval_seconds,
            usage_enabled,
        ),
        VaultOp::Deposit { id, from, amount } => lemma_deposit_inv(m, id, from, amount),
        VaultOp::Charge { id, now } => lemma_charge_inv(m, id, now),
        VaultOp::Pause { id, authorizer } => lemma_pause_inv(m, id, authorizer),
        VaultOp::Resume { id, authorizer } => lemma_resume_inv(m, id, authorizer),
        VaultOp::Cancel { id, authorizer } => lemma_cancel_inv(m, id, authorizer),
        VaultOp::Withdraw { merchant, amount } => lemma_withdraw_inv(m, merchant, amount),
    }
}

/// Exactly one event per successful mutating operation (`init` emits
/// none): the log grows by one record, published under the operation's
/// topic, and what was logged before stays logged unchanged.
pub proof fn lemma_one_event_per_step(m: VaultModel, op: VaultOp)
    requires
        step(m, op) is Ok,
    ensures
        ({
            let post = step(m, op)->Ok_0;
            &&& op_emits(op) ==> post.events.len() == m.events.len() + 1
                && post.events.last().spec_topic() == op_topic(op)
            &&& !op_emits(op) ==> post.events == m.events
            &&& forall|i: int| 0 <= i < m.events.len() ==> post.events[i] == m.events[i]
        }),
{
}

/// The id counter never decreases across any successful operation, and a
/// creation increases it by exactly one.
pub proof fn lemma_next_id_monotone(m: VaultModel, op: VaultOp)
    requires
        m.inv(),
        step(m, op) is Ok,
    ensures
        (step(m, op)->Ok_0).next_id >= m.next_id,
        op is Create ==> (step(m, op)->Ok_0).next_id == m.next_id + 1,
{
}

/// Issued ids are unique: a creation returns the counter's current value
/// and bumps it, so whenever the counter has not shrunk in between (it
/// never does, by `lemma_next_id_monotone`), a later creation returns a
/// strictly larger id.
pub proof fn lemma_created_ids_unique(
    m1: VaultModel,
    subscriber1: u64,
    merchant1: u64,
    amount1: i128,
    interval1: u64,
    usage1: bool,
    m2: VaultModel,
    subscriber2: u64,
    merchant2: u64,
    amount2: i128,
    interval2: u64,
    usage2: bool,
)
    requires
        m1.inv(),
        m2.inv(),
        m1.create_t(subscriber1, merchant1, amount1, interval1, usage1) is Ok,
        m2.create_t(subscriber2, merchant2, amount2, interval2, usage2) is Ok,
        (m1.create_t(subscriber1, merchant1, amount1, interval1, usage1)->Ok_0).0.next_id
            <= m2.next_id,
    ensures
        (m1.create_t(subscriber1, merchant1, amount1, interval1, usage1)->Ok_0).1 < (m2.create_t(
            subscriber2,
            merchant2,
            amount2,
            interval2,
            usage2,
        )->Ok_0).1,
{
}

/// A completed charge is exact: the prepaid balance falls by the fixed
/// amount, the merchant's receipts rise by the same amount, no other
/// merchant's balance moves, the charge time is stamped, the vault's
/// accounted total is unchanged, and no token enters or leaves.
pub proof fn lemma_charge_exact(m: VaultModel, id: u64, now: u64)
    requires
        m.inv(),
        m.charge_t(id, now) is Ok,
    ensures
        ({
            let post = m.charge_t(id, now)->Ok_0;
            let s = m.sub(id);
            &&& post.sub(id).prepaid_balance == s.prepaid_balance - s.amount
            &&& post.merchant_balance(s.merchant) == m.merchant_balance(s.merchant) + s.amount
            &&& forall|other: u64|
                other != s.merchant ==> #[trigger] post.merchant_balance(other)
                    == m.merchant_balance(other)
            &&& post.sub(id).last_payment_timestamp == now
            &&& sub_total(post.subs) + merch_total(post.merchants) == sub_total(m.subs)
                + merch_total(m.merchants)
            &&& post.transfers == m.transfers
        }),
{
    let post = m.charge_t(id, now)->Ok_0;
    let s = m.sub(id);
    crate::ledger::lemma_sub_total_update(m.subs, id - 1, post.subs[id - 1]);
    crate::ledger::lemma_credit_spec(m.merchants, s.merchant, s.amount as int);
}

/// After a completed cancel the subscription holds nothing, is cancelled,
/// and the emitted event carries the whole prior prepaid balance as the
/// refund. Cancelling an already-cancelled subscription refunds zero.
pub proof fn lemma_cancel_zeroes(m: VaultModel, id: u64, authorizer: u64)
    requires
        m.cancel_t(id, authorizer) is Ok,
    ensures
        ({
            let post = m.cancel_t(id, authorizer)->Ok_0;
            &&& post.sub(id).prepaid_balance == 0
            &&& post.sub(id).status is Cancelled
            &&& post.events.last() == Event::Cancelled(
                SubscriptionCancelledEvent {
                    subscription_id: id,
                    authorizer,
                    refund_amount: m.sub(id).prepaid_balance,
                },
            )
        }),
{
}

/// A deposit followed immediately by a cancel refunds exactly the prior
/// prepaid balance (whatever earlier charges left) plus the deposited
/// amount: nothing deposited is lost.
pub proof fn lemma_deposit_then_cancel_refund(
    m: VaultModel,
    id: u64,
    from: u64,
    amount: i128,
    authorizer: u64,
)
    requires
        m.deposit_t(id, from, amount) is Ok,
        (m.deposit_t(id, from, amount)->Ok_0).cancel_t(id, authorizer) is Ok,
    ensures
        ({
            let mid = m.deposit_t(id, from, amount)->Ok_0;
            let post = mid.cancel_t(id, authorizer)->Ok_0;
            post.events.last() == Event::Cancelled(
                SubscriptionCancelledEvent {
                    subscription_id: id,
                    authorizer,
                    refund_amount: (m.sub(id).prepaid_balance + amount) as i128,
                },
            )
        }),
{
}

/// Conservation of funds: in every state satisfying the invariant, the
/// prepaid balances plus the undrawn merchant receipts equal the net
/// token value the vault has received — deposits minus refunds and
/// withdrawals.
pub proof fn lemma_conservation(m: VaultModel)
    requires
        m.inv(),
    ensures
        sub_total(m.subs) + merch_total(m.merchants) == net_flow(m.transfers),
{
}

} // verus!
