use vstd::prelude::*;

verus! {

/// Why an escrow entry point refused to act.
#[derive(Copy, Clone, Debug, PartialEq, Eq, PartialOrd, Ord, Structural)]
pub enum Error {
    /// New campaigns are halted by the admin.
    Paused,
    /// The campaign amount is not positive.
    InvalidAmount,
    /// The campaign fee exceeds the platform cap.
    InvalidFeeBps,
    /// The deadline is not in the future, or too far in the future.
    InvalidDeadline,
    /// No campaign is stored under the given id.
    CampaignNotFound,
    /// The campaign is no longer pending.
    InvalidStatus,
    /// The campaign's deadline has not been reached yet.
    NotYetExpired,
    /// The configured fee distributor returned a `(fee, net)` pair that
    /// doesn't account for the campaign's `amount` (negative parts, or
    /// `fee + net != amount`). Since the escrow holds every campaign's funds
    /// in one pooled balance, trusting a bad split would let a misconfigured
    /// or malicious fee distributor drain funds of other campaigns.
    InvalidSplit,
}

impl Error {
    pub open spec fn spec_code(self) -> u32 {
        match self {
            Error::Paused => 3,
            Error::InvalidAmount => 4,
            Error::InvalidFeeBps => 5,
            Error::InvalidDeadline => 6,
            Error::CampaignNotFound => 7,
            Error::InvalidStatus => 8,
            Error::NotYetExpired => 9,
            Error::InvalidSplit => 10,
        }
    }

    /// The numeric code under which the contract reports this error.
    pub fn code(&self) -> (c: u32)
        ensures
            c == self.spec_code(),
    {
        match self {
            Error::Paused => 3,
            Error::InvalidAmount => 4,
            Error::InvalidFeeBps => 5,
            Error::InvalidDeadline => 6,
            Error::CampaignNotFound => 7,
            Error::InvalidStatus => 8,
            Error::NotYetExpired => 9,
            Error::InvalidSplit => 10,
        }
    }
}

} // verus!
