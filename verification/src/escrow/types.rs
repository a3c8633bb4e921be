//! The values an escrow stores and the effects it asks its host to perform.
use vstd::prelude::*;
use crate::escrow::events::Event;

verus! {

/// An account or contract on the ledger, identified by its strkey
/// (`G...` for accounts, `C...` for contracts).
#[derive(Debug, PartialEq, Eq)]
pub struct Address {
    pub strkey: String,
}

impl Address {
    pub fn new(strkey: String) -> (a: Address)
        ensures
            a.strkey == strkey,
    {
        Address { strkey }
    }
}

impl Clone for Address {
    fn clone(&self) -> (a: Self)
        ensures
            a == *self,
    {
        Address { strkey: self.strkey.clone() }
    }
}

/// Where a campaign stands. Every campaign starts `Pending` and leaves it
/// at most once.
#[derive(Clone, Copy, Debug, PartialEq, Eq, Structural)]
pub enum CampaignStatus {
    /// Funds are locked; awaiting release by the arbiter or refund after
    /// the deadline.
    Pending,
    /// Funds have been split and paid out to the payee and fee recipient.
    Released,
    /// Funds have been returned in full to the depositor.
    Refunded,
}

/// One escrowed payment.
#[derive(Debug, PartialEq, Eq)]
pub struct Campaign {
    pub depositor: Address,
    pub payee: Address,
    /// Address authorized to release the funds. Typically the platform or a
    /// designated approver, never the depositor or payee alone.
    pub arbiter: Address,
    /// Token contract (any SEP-41 token) the campaign is funded in.
    pub token: Address,
    pub amount: i128,
    /// Platform fee in basis points (1 bps = 0.01%), applied at release.
    pub fee_bps: u32,
    pub fee_recipient: Address,
    /// Ledger timestamp from which the depositor may reclaim the funds if
    /// the campaign has not been released.
    pub deadline: u64,
    pub status: CampaignStatus,
}

impl Clone for Campaign {
    fn clone(&self) -> (c: Self)
        ensures
            c == *self,
    {
        Campaign {
            depositor: self.depositor.clone(),
            payee: self.payee.clone(),
            arbiter: self.arbiter.clone(),
            token: self.token.clone(),
            amount: self.amount,
            fee_bps: self.fee_bps,
            fee_recipient: self.fee_recipient.clone(),
            deadline: self.deadline,
            status: self.status,
        }
    }
}

impl Campaign {
    /// The same campaign with another status.
    pub open spec fn with_status(self, status: CampaignStatus) -> Campaign {
        Campaign { status, ..self }
    }
}

/// Storage keys. `Campaign(id)` entries live in persistent storage, the
/// others in the contract's instance storage.
#[derive(Clone, Copy, Debug, PartialEq, Eq, Structural)]
pub enum DataKey {
    Admin,
    Paused,
    FeeDistributor,
    CampaignCount,
    Campaign(u64),
}

/// A value written under a `DataKey`.
#[derive(Debug, PartialEq, Eq)]
pub enum StoredValue {
    Addr(Address),
    Count(u64),
    Flag(bool),
    Campaign(Campaign),
}

/// One step the host performs on the escrow's behalf, in list order. A
/// failing `RequireAuth` aborts the whole invocation, undoing every step.
#[derive(Debug, PartialEq, Eq)]
pub enum Effect {
    /// The address must have authorized this invocation.
    RequireAuth(Address),
    /// Move `amount` of `token` from `from` into the escrow's own balance.
    Deposit { token: Address, from: Address, amount: i128 },
    /// Move `amount` of `token` from the escrow's own balance to `to`.
    Payout { token: Address, to: Address, amount: i128 },
    /// Write `value` under `key`.
    Store(DataKey, StoredValue),
    /// Extend the instance storage's lifetime.
    ExtendInstanceTtl { threshold: u32, extend_to: u32 },
    /// Extend the lifetime of the stored campaign `campaign_id`.
    ExtendCampaignTtl { campaign_id: u64, threshold: u32, extend_to: u32 },
    /// Publish an event.
    Publish(Event),
}

} // verus!
