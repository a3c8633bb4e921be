//! Escrow for campaign payouts.
//!
//! Campaign *funds* are trust-minimized: once a depositor locks a token
//! amount into a campaign, the campaign's `arbiter` can release it (the
//! configured fee distributor computes the platform/net split and both
//! parties are paid in the same step), but can never trap the funds: the
//! depositor can always refund the full amount once the deadline passes,
//! and the depositor and payee can jointly cancel by mutual consent.
//!
//! Contract *governance* is not trust-minimized: a single `admin` key can
//! halt new campaigns and rotate itself or the fee-distributor address
//! instantly.
//!
//! Each entry point is a method of [`Escrow`] (the contract's instance
//! state) that takes what the entry point reads (a stored campaign, the
//! ledger time, the split a fee distributor reported) and returns either an
//! [`Error`] or the ordered list of [`Effect`]s the host must carry out.
pub mod errors;
pub mod events;
pub mod types;
pub mod contract;
pub mod laws;

pub use errors::Error;
pub use events::{
    AdminUpdated, CampaignCancelled, CampaignCreated, CampaignRefunded, CampaignReleased, Event,
    FeeDistributorUpdated, PausedUpdated,
};
pub use types::{Address, Campaign, CampaignStatus, DataKey, Effect, StoredValue};
pub use contract::{
    Escrow, SplitQuery, CAMPAIGN_BUMP_AMOUNT, CAMPAIGN_LIFETIME_THRESHOLD, INSTANCE_BUMP_AMOUNT,
    INSTANCE_LIFETIME_THRESHOLD, LEDGERS_PER_DAY, MAX_CAMPAIGN_DURATION_SECONDS, MAX_FEE_BPS,
};
