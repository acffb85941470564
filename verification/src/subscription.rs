//! The subscription record and its lifecycle status.

use vstd::prelude::*;

verus! {

/// Lifecycle status of a subscription. `Cancelled` is terminal: no forward
/// transition leaves it, though cancelling again is an idempotent success.
#[derive(Clone, Copy, Debug, PartialEq, Eq, Structural)]
pub enum SubscriptionStatus {
    Active,
    Paused,
    Cancelled,
}

/// A standing agreement allowing periodic transfer of a fixed amount from a
/// subscriber's prepaid balance to a merchant. Principals are opaque address
/// handles; the vault only compares them and keys balances by them.
#[derive(Clone, Copy, Debug, PartialEq, Eq, Structural)]
pub struct Subscription {
    /// The funds owner.
    pub subscriber: u64,
    /// The payee.
    pub merchant: u64,
    /// The per-interval charge; strictly positive, fixed at creation.
    pub amount: i128,
    /// Minimum elapsed wall-clock seconds between successive charges;
    /// strictly positive.
    pub interval_seconds: u64,
    /// Ledger time of the last successful charge; 0 if never charged.
    pub last_payment_timestamp: u64,
    pub status: SubscriptionStatus,
    /// The subscriber's remaining prepaid funds in this subscription;
    /// never negative, and zero once the subscription is cancelled.
    pub prepaid_balance: i128,
    /// Recorded at creation for future usage-metered billing; no current
    /// transition reads it.
    pub usage_enabled: bool,
}

impl Subscription {
    /// Well-formedness, preserved by every transition: the fixed fields are
    /// strictly positive, the balance is never negative, and a cancelled
    /// subscription holds no funds (its balance was refunded).
    pub open spec fn wf(self) -> bool {
        &&& self.amount > 0
        &&& self.interval_seconds > 0
        &&& self.prepaid_balance >= 0
        &&& self.status is Cancelled ==> self.prepaid_balance == 0
    }

    /// Whether a charge at ledger time `now` is due: always on the first
    /// charge, and after a full interval has elapsed otherwise.
    pub open spec fn charge_due(self, now: u64) -> bool {
        self.last_payment_timestamp == 0
            || now >= self.last_payment_timestamp + self.interval_seconds
    }
}

} // verus!
