//! A custodial subscription vault: subscribers pre-fund recurring payments to
//! merchants in a single fungible token, and merchants withdraw accumulated
//! receipts. The vault state machine, its ledger arithmetic and its event log
//! are modelled as plain data and verified; the host edge (persistent storage,
//! authorization, token transfers, the ledger clock) lives outside the library.

mod errors;
mod ledger;
mod subscription;
mod events;
mod model;
mod vault;
mod laws;

pub use errors::VaultError;
pub use model::Config;
pub use model::VaultModel;
pub use vault::Vault;
pub use laws::VaultOp;
pub use laws::step;
pub use laws::op_emits;
pub use laws::op_topic;
pub use laws::lemma_step_preserves_inv;
pub use laws::lemma_one_event_per_step;
pub use laws::lemma_next_id_monotone;
pub use laws::lemma_created_ids_unique;
pub use laws::lemma_charge_exact;
pub use laws::lemma_cancel_zeroes;
pub use laws::lemma_deposit_then_cancel_refund;
pub use laws::lemma_conservation;
pub use ledger::MerchantEntry;
pub use ledger::TokenTransfer;
pub use ledger::credit;
pub use ledger::merchant_balance_of;
pub use ledger::merchant_index;
pub use ledger::merch_total;
pub use ledger::net_flow;
pub use ledger::sub_total;
pub use subscription::Subscription;
pub use subscription::SubscriptionStatus;
pub use events::Event;
pub use events::SubscriptionCreatedEvent;
pub use events::FundsDepositedEvent;
pub use events::SubscriptionChargedEvent;
pub use events::SubscriptionPausedEvent;
pub use events::SubscriptionResumedEvent;
pub use events::SubscriptionCancelledEvent;
pub use events::MerchantWithdrawalEvent;
