//! Ledger bookkeeping: merchant balances keyed by address, the token-flow
//! log, and the summation functions used to state conservation of funds.

use vstd::prelude::*;
use crate::subscription::Subscription;

verus! {

/// One merchant's accumulated undrawn receipts across all of that merchant's
/// subscriptions. Never negative.
#[derive(Clone, Copy, Debug, PartialEq, Eq, Structural)]
pub struct MerchantEntry {
    pub merchant: u64,
    pub balance: i128,
}

/// One token movement between the vault and a counterparty: a deposit into
/// the vault, a cancellation refund, or a merchant withdrawal.
#[derive(Clone, Copy, Debug, PartialEq, Eq, Structural)]
pub struct TokenTransfer {
    pub counterparty: u64,
    pub amount: i128,
    pub into_vault: bool,
}

/// Sum of the prepaid balances over a sequence of subscriptions.
pub open spec fn sub_total(s: Seq<Subscription>) -> int
    decreases s.len(),
{
    if s.len() == 0 {
        0
    } else {
        sub_total(s.drop_last()) + s.last().prepaid_balance
    }
}

/// Sum of the balances over a sequence of merchant entries.
pub open spec fn merch_total(s: Seq<MerchantEntry>) -> int
    decreases s.len(),
{
    if s.len() == 0 {
        0
    } else {
        merch_total(s.drop_last()) + s.last().balance
    }
}

/// Net token value moved into the vault: deposits count positively,
/// refunds and withdrawals negatively.
pub open spec fn net_flow(s: Seq<TokenTransfer>) -> int
    decreases s.len(),
{
    if s.len() == 0 {
        0
    } else {
        net_flow(s.drop_last()) + (if s.last().into_vault {
            s.last().amount as int
        } else {
            -(s.last().amount as int)
        })
    }
}

/// Index of the entry for merchant `m`, or -1 if there is none. When keys
/// are unique (the ledger invariant) this is the unique matching index.
pub open spec fn merchant_index(s: Seq<MerchantEntry>, m: u64) -> int
    decreases s.len(),
{
    if s.len() == 0 {
        -1
    } else if s.last().merchant == m {
        s.len() - 1
    } else {
        merchant_index(s.drop_last(), m)
    }
}

/// Balance recorded for merchant `m`; an absent entry counts as zero.
pub open spec fn merchant_balance_of(s: Seq<MerchantEntry>, m: u64) -> int {
    if merchant_index(s, m) >= 0 {
        s[merchant_index(s, m)].balance as int
    } else {
        0
    }
}

/// The ledger after crediting `a` to merchant `m`, creating the entry at
/// zero if absent.
pub open spec fn credit(s: Seq<MerchantEntry>, m: u64, a: int) -> Seq<MerchantEntry> {
    let i = merchant_index(s, m);
    if i >= 0 {
        s.update(i, MerchantEntry { merchant: m, balance: (s[i].balance + a) as i128 })
    } else {
        s.push(MerchantEntry { merchant: m, balance: a as i128 })
    }
}

/// Updating one subscription changes the prepaid total by exactly the
/// difference at that position.
pub proof fn lemma_sub_total_update(s: Seq<Subscription>, i: int, v: Subscription)
    requires
        0 <= i < s.len(),
    ensures
        sub_total(s.update(i, v)) == sub_total(s) - s[i].prepaid_balance + v.prepaid_balance,
    decreases s.len(),
{
    if i == s.len() - 1 {
        assert(s.update(i, v).drop_last() =~= s.drop_last());
    } else {
        assert(s.update(i, v).drop_last() =~= s.drop_last().update(i, v));
        lemma_sub_total_update(s.drop_last(), i, v);
    }
}

/// Appending a subscription adds its prepaid balance to the total.
pub proof fn lemma_sub_total_push(s: Seq<Subscription>, v: Subscription)
    ensures
        sub_total(s.push(v)) == sub_total(s) + v.prepaid_balance,
{
    assert(s.push(v).drop_last() =~= s);
}

/// Updating one merchant entry changes the receipts total by exactly the
/// difference at that position.
pub proof fn lemma_merch_total_update(s: Seq<MerchantEntry>, i: int, v: MerchantEntry)
    requires
        0 <= i < s.len(),
    ensures
        merch_total(s.update(i, v)) == merch_total(s) - s[i].balance + v.balance,
    decreases s.len(),
{
    if i == s.len() - 1 {
        assert(s.update(i, v).drop_last() =~= s.drop_last());
    } else {
        assert(s.update(i, v).drop_last() =~= s.drop_last().update(i, v));
        lemma_merch_total_update(s.drop_last(), i, v);
    }
}

/// Appending a merchant entry adds its balance to the total.
pub proof fn lemma_merch_total_push(s: Seq<MerchantEntry>, v: MerchantEntry)
    ensures
        merch_total(s.push(v)) == merch_total(s) + v.balance,
{
    assert(s.push(v).drop_last() =~= s);
}

/// Appending a transfer moves the net flow by its signed amount.
pub proof fn lemma_net_flow_push(s: Seq<TokenTransfer>, v: TokenTransfer)
    ensures
        net_flow(s.push(v)) == net_flow(s) + (if v.into_vault {
            v.amount as int
        } else {
            -(v.amount as int)
        }),
{
    assert(s.push(v).drop_last() =~= s);
}

/// Where `merchant_index` points: at a matching entry, with no match after
/// it; or nowhere, and then nothing matches.
pub proof fn lemma_merchant_index_spec(s: Seq<MerchantEntry>, m: u64)
    ensures
        merchant_index(s, m) >= 0 ==> {
            &&& merchant_index(s, m) < s.len()
            &&& s[merchant_index(s, m)].merchant == m
            &&& forall|k: int|
                merchant_index(s, m) < k < s.len() ==> s[k].merchant != m
        },
        merchant_index(s, m) < 0 ==> merchant_index(s, m) == -1 && forall|k: int|
            0 <= k < s.len() ==> s[k].merchant != m,
    decreases s.len(),
{
    if s.len() > 0 && s.last().merchant != m {
        lemma_merchant_index_spec(s.drop_last(), m);
        assert(forall|k: int|
            0 <= k < s.len() - 1 ==> s[k] == s.drop_last()[k]);
    }
}

/// A match with no later match is exactly where `merchant_index` points.
pub proof fn lemma_merchant_index_of_match(s: Seq<MerchantEntry>, m: u64, i: int)
    requires
        0 <= i < s.len(),
        s[i].merchant == m,
        forall|k: int| i < k < s.len() ==> s[k].merchant != m,
    ensures
        merchant_index(s, m) == i,
    decreases s.len(),
{
    if i < s.len() - 1 {
        assert(s.drop_last()[i] == s[i]);
        lemma_merchant_index_of_match(s.drop_last(), m, i);
    }
}

/// Updating the entry at an index with the same key moves neither that
/// key's index nor any other key's index or balance.
pub proof fn lemma_update_same_key(s: Seq<MerchantEntry>, i: int, v: MerchantEntry)
    requires
        0 <= i < s.len(),
        i == merchant_index(s, v.merchant),
    ensures
        merchant_index(s.update(i, v), v.merchant) == i,
        merchant_balance_of(s.update(i, v), v.merchant) == v.balance,
        forall|m2: u64|
            m2 != v.merchant ==> #[trigger] merchant_index(s.update(i, v), m2) == merchant_index(
                s,
                m2,
            ),
        forall|m2: u64|
            m2 != v.merchant ==> #[trigger] merchant_balance_of(s.update(i, v), m2)
                == merchant_balance_of(s, m2),
{
    let s2 = s.update(i, v);
    lemma_merchant_index_spec(s, v.merchant);
    lemma_merchant_index_of_match(s2, v.merchant, i);
    assert forall|m2: u64| m2 != v.merchant implies #[trigger] merchant_index(s2, m2)
        == merchant_index(s, m2) && merchant_balance_of(s2, m2) == merchant_balance_of(s, m2) by {
        lemma_index_update_other_key(s, i, v, m2);
    }
}

/// Replacing an entry whose old and new keys both differ from `m2` leaves
/// `m2`'s index and balance alone.
pub proof fn lemma_index_update_other_key(s: Seq<MerchantEntry>, i: int, v: MerchantEntry, m2: u64)
    requires
        0 <= i < s.len(),
        s[i].merchant != m2,
        v.merchant != m2,
    ensures
        merchant_index(s.update(i, v), m2) == merchant_index(s, m2),
        merchant_balance_of(s.update(i, v), m2) == merchant_balance_of(s, m2),
    decreases s.len(),
{
    let s2 = s.update(i, v);
    if i == s.len() - 1 {
        assert(s2.drop_last() =~= s.drop_last());
        assert(merchant_index(s2, m2) == merchant_index(s.drop_last(), m2));
        assert(merchant_index(s, m2) == merchant_index(s.drop_last(), m2));
    } else {
        assert(s2.drop_last() =~= s.drop_last().update(i, v));
        lemma_index_update_other_key(s.drop_last(), i, v, m2);
        assert(s2.last() == s.last());
        if s.last().merchant != m2 {
            assert(merchant_index(s2, m2) == merchant_index(s.drop_last().update(i, v), m2));
            assert(merchant_index(s, m2) == merchant_index(s.drop_last(), m2));
        }
    }
    let idx = merchant_index(s, m2);
    lemma_merchant_index_spec(s, m2);
    if idx >= 0 {
        assert(s[idx].merchant == m2);
        assert(idx != i);
        assert(s2[idx] == s[idx]);
        assert(merchant_balance_of(s2, m2) == s2[idx].balance as int);
        assert(merchant_balance_of(s, m2) == s[idx].balance as int);
    } else {
        assert(merchant_index(s2, m2) == -1);
    }
}

/// Appending an entry: its own key now points at the new slot; every other
/// key keeps its index and balance.
pub proof fn lemma_index_push(s: Seq<MerchantEntry>, v: MerchantEntry, m2: u64)
    ensures
        v.merchant == m2 ==> merchant_index(s.push(v), m2) == s.len()
            && merchant_balance_of(s.push(v), m2) == v.balance,
        v.merchant != m2 ==> merchant_index(s.push(v), m2) == merchant_index(s, m2)
            && merchant_balance_of(s.push(v), m2) == merchant_balance_of(s, m2),
{
    assert(s.push(v).drop_last() =~= s);
    if v.merchant != m2 {
        lemma_merchant_index_spec(s, m2);
    }
}

/// Crediting a merchant raises exactly that merchant's balance and the
/// receipts total by the credited amount, and no other balance.
pub proof fn lemma_credit_spec(s: Seq<MerchantEntry>, m: u64, a: int)
    requires
        i128::MIN <= merchant_balance_of(s, m) + a <= i128::MAX,
        i128::MIN <= a <= i128::MAX,
    ensures
        merchant_balance_of(credit(s, m, a), m) == merchant_balance_of(s, m) + a,
        forall|m2: u64|
            m2 != m ==> #[trigger] merchant_balance_of(credit(s, m, a), m2)
                == merchant_balance_of(s, m2),
        merch_total(credit(s, m, a)) == merch_total(s) + a,
        credit(s, m, a).len() == if merchant_index(s, m) >= 0 {
            s.len() as int
        } else {
            s.len() as int + 1
        },
{
    let i = merchant_index(s, m);
    lemma_merchant_index_spec(s, m);
    if i >= 0 {
        let v = MerchantEntry { merchant: m, balance: (s[i].balance + a) as i128 };
        lemma_update_same_key(s, i, v);
        lemma_merch_total_update(s, i, v);
    } else {
        let v = MerchantEntry { merchant: m, balance: a as i128 };
        assert forall|m2: u64| m2 != m implies #[trigger] merchant_balance_of(credit(s, m, a), m2)
            == merchant_balance_of(s, m2) by {
            lemma_index_push(s, v, m2);
        }
        lemma_index_push(s, v, m);
        lemma_merch_total_push(s, v);
    }
}

} // verus!
