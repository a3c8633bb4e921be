//! The events an escrow publishes, one per state change.
use vstd::prelude::*;
use crate::escrow::types::Address;

verus! {

/// A campaign was funded. Topics: `campaign_id`, `depositor`.
#[derive(Debug, PartialEq, Eq)]
pub struct CampaignCreated {
    pub campaign_id: u64,
    pub depositor: Address,
    pub payee: Address,
    pub token: Address,
    pub amount: i128,
}

/// A campaign was paid out. Topic: `campaign_id`.
#[derive(Debug, PartialEq, Eq)]
pub struct CampaignReleased {
    pub campaign_id: u64,
    pub fee: i128,
    pub net: i128,
}

/// A campaign was refunded after its deadline. Topic: `campaign_id`.
#[derive(Debug, PartialEq, Eq)]
pub struct CampaignRefunded {
    pub campaign_id: u64,
    pub amount: i128,
}

/// A campaign was cancelled by mutual consent. Topic: `campaign_id`.
#[derive(Debug, PartialEq, Eq)]
pub struct CampaignCancelled {
    pub campaign_id: u64,
    pub amount: i128,
}

/// The admin key was rotated. Topic: `new_admin`.
#[derive(Debug, PartialEq, Eq)]
pub struct AdminUpdated {
    pub new_admin: Address,
}

/// The fee distributor was repointed. Topic: `new_fee_distributor`.
#[derive(Debug, PartialEq, Eq)]
pub struct FeeDistributorUpdated {
    pub new_fee_distributor: Address,
}

/// Campaign creation was halted or resumed. `paused` is a topic, like every
/// other indexed field, so an indexer can filter on pause transitions.
#[derive(Debug, PartialEq, Eq)]
pub struct PausedUpdated {
    pub paused: bool,
}

/// Any event the escrow publishes.
#[derive(Debug, PartialEq, Eq)]
pub enum Event {
    Created(CampaignCreated),
    Released(CampaignReleased),
    Refunded(CampaignRefunded),
    Cancelled(CampaignCancelled),
    AdminUpdated(AdminUpdated),
    FeeDistributorUpdated(FeeDistributorUpdated),
    PausedUpdated(PausedUpdated),
}

} // verus!
