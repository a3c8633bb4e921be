//! The escrow's entry points, as decisions over the state each one reads.
use vstd::prelude::*;
use crate::escrow::errors::Error;
use crate::escrow::events::{
    AdminUpdated, CampaignCancelled, CampaignCreated, CampaignRefunded, CampaignReleased, Event,
    FeeDistributorUpdated, PausedUpdated,
};
use crate::escrow::types::{Address, Campaign, CampaignStatus, DataKey, Effect, StoredValue};

verus! {

/// About 5 s ledger close time on Stellar mainnet and testnet.
pub const LEDGERS_PER_DAY: u32 = 17_280;

pub const INSTANCE_BUMP_AMOUNT: u32 = 30 * LEDGERS_PER_DAY;

pub const INSTANCE_LIFETIME_THRESHOLD: u32 = INSTANCE_BUMP_AMOUNT - LEDGERS_PER_DAY;

pub const CAMPAIGN_BUMP_AMOUNT: u32 = 90 * LEDGERS_PER_DAY;

pub const CAMPAIGN_LIFETIME_THRESHOLD: u32 = CAMPAIGN_BUMP_AMOUNT - LEDGERS_PER_DAY;

/// Hard ceiling on `fee_bps` at campaign creation (20%), well below the
/// fee calculator's own 100% limit, so that a misconfigured campaign can't
/// route a depositor's entire payment to the fee recipient.
pub const MAX_FEE_BPS: u32 = 2_000;

/// Hard ceiling on how far in the future a deadline may be set, measured
/// from campaign creation (one year).
pub const MAX_CAMPAIGN_DURATION_SECONDS: u64 = 365 * 24 * 60 * 60;

/// The escrow's instance state: who governs it, which fee distributor it
/// asks for splits, how many campaigns exist, and whether new campaigns are
/// halted. Campaigns themselves are stored one per `DataKey::Campaign(id)`.
#[derive(Debug, PartialEq, Eq)]
pub struct Escrow {
    pub admin: Address,
    pub fee_distributor: Address,
    pub campaign_count: u64,
    pub paused: bool,
}

/// The question `release` asks the fee distributor: how to split `amount`
/// at `fee_bps`.
#[derive(Debug, PartialEq, Eq)]
pub struct SplitQuery {
    pub fee_distributor: Address,
    pub amount: i128,
    pub fee_bps: u32,
}

pub open spec fn instance_ttl() -> Effect {
    Effect::ExtendInstanceTtl { threshold: INSTANCE_LIFETIME_THRESHOLD, extend_to: INSTANCE_BUMP_AMOUNT }
}

pub open spec fn campaign_ttl(campaign_id: u64) -> Effect {
    Effect::ExtendCampaignTtl {
        campaign_id,
        threshold: CAMPAIGN_LIFETIME_THRESHOLD,
        extend_to: CAMPAIGN_BUMP_AMOUNT,
    }
}

pub open spec fn store_campaign(campaign_id: u64, c: Campaign) -> Effect {
    Effect::Store(DataKey::Campaign(campaign_id), StoredValue::Campaign(c))
}

/// What deployment does: the admin authorizes, the configuration is
/// written with no campaigns and no pause, and the instance is kept alive.
pub open spec fn construct_effects(admin: Address, fee_distributor: Address) -> Seq<Effect> {
    seq![
        Effect::RequireAuth(admin),
        Effect::Store(DataKey::Admin, StoredValue::Addr(admin)),
        Effect::Store(DataKey::FeeDistributor, StoredValue::Addr(fee_distributor)),
        Effect::Store(DataKey::CampaignCount, StoredValue::Count(0)),
        Effect::Store(DataKey::Paused, StoredValue::Flag(false)),
        instance_ttl(),
    ]
}

/// The campaign `create_campaign` stores.
pub open spec fn new_campaign(
    depositor: Address,
    payee: Address,
    arbiter: Address,
    token: Address,
    amount: i128,
    fee_bps: u32,
    fee_recipient: Address,
    deadline: u64,
) -> Campaign {
    Campaign {
        depositor,
        payee,
        arbiter,
        token,
        amount,
        fee_bps,
        fee_recipient,
        deadline,
        status: CampaignStatus::Pending,
    }
}

/// The first check `create_campaign` fails, if any.
pub open spec fn create_check(paused: bool, now: u64, amount: i128, fee_bps: u32, deadline: u64) -> Option<Error> {
    if paused {
        Some(Error::Paused)
    } else if amount <= 0 {
        Some(Error::InvalidAmount)
    } else if fee_bps > MAX_FEE_BPS {
        Some(Error::InvalidFeeBps)
    } else if deadline <= now || deadline - now > MAX_CAMPAIGN_DURATION_SECONDS {
        Some(Error::InvalidDeadline)
    } else {
        None
    }
}

/// Creating campaign `c` under `campaign_id`: the depositor authorizes and
/// pays the amount in, the campaign and the new count are stored and kept
/// alive, and the creation is announced.
pub open spec fn create_effects(campaign_id: u64, c: Campaign) -> Seq<Effect> {
    seq![
        Effect::RequireAuth(c.depositor),
        Effect::Deposit { token: c.token, from: c.depositor, amount: c.amount },
        store_campaign(campaign_id, c),
        campaign_ttl(campaign_id),
        Effect::Store(DataKey::CampaignCount, StoredValue::Count((campaign_id + 1) as u64)),
        instance_ttl(),
        Effect::Publish(Event::Created(CampaignCreated {
            campaign_id,
            depositor: c.depositor,
            payee: c.payee,
            token: c.token,
            amount: c.amount,
        })),
    ]
}

/// Why a stored campaign cannot be settled (released, refunded or
/// cancelled), if it cannot: it is missing, or no longer pending.
pub open spec fn settle_check(stored: Option<Campaign>) -> Option<Error> {
    match stored {
        None => Some(Error::CampaignNotFound),
        Some(c) => if c.status != CampaignStatus::Pending {
            Some(Error::InvalidStatus)
        } else {
            None
        },
    }
}

/// Why a stored campaign cannot be refunded at time `now`, if it cannot.
pub open spec fn refund_check(stored: Option<Campaign>, now: u64) -> Option<Error> {
    match settle_check(stored) {
        Some(e) => Some(e),
        None => if now < stored.unwrap().deadline {
            Some(Error::NotYetExpired)
        } else {
            None
        },
    }
}

/// A reported split is accepted only when both parts are non-negative and
/// they add up to exactly the campaign's amount.
pub open spec fn split_check(c: Campaign, fee: i128, net: i128) -> Option<Error> {
    if fee < 0 || net < 0 || fee + net != c.amount {
        Some(Error::InvalidSplit)
    } else {
        None
    }
}

/// A payout of `amount`, or nothing when `amount` is zero or less.
pub open spec fn payout_if(token: Address, to: Address, amount: i128) -> Seq<Effect> {
    if amount > 0 {
        seq![Effect::Payout { token, to, amount }]
    } else {
        Seq::empty()
    }
}

/// Releasing campaign `c` with split `(fee, net)`: the campaign is stored
/// as released before any token moves, then the fee recipient and the
/// payee are paid their non-zero parts, and the release is announced.
pub open spec fn release_effects(campaign_id: u64, c: Campaign, fee: i128, net: i128) -> Seq<Effect> {
    seq![store_campaign(campaign_id, c.with_status(CampaignStatus::Released))]
        + payout_if(c.token, c.fee_recipient, fee)
        + payout_if(c.token, c.payee, net)
        + seq![Effect::Publish(Event::Released(CampaignReleased { campaign_id, fee, net }))]
}

/// Refunding campaign `c`: the depositor authorizes, the campaign is stored
/// as refunded, the full amount goes back to the depositor, and the refund
/// is announced.
pub open spec fn refund_effects(campaign_id: u64, c: Campaign) -> Seq<Effect> {
    seq![
        Effect::RequireAuth(c.depositor),
        store_campaign(campaign_id, c.with_status(CampaignStatus::Refunded)),
        Effect::Payout { token: c.token, to: c.depositor, amount: c.amount },
        Effect::Publish(Event::Refunded(CampaignRefunded { campaign_id, amount: c.amount })),
    ]
}

/// Cancelling campaign `c`: depositor and payee both authorize, the
/// campaign is stored as refunded, the full amount goes back to the
/// depositor, and the cancellation is announced.
pub open spec fn cancel_effects(campaign_id: u64, c: Campaign) -> Seq<Effect> {
    seq![
        Effect::RequireAuth(c.depositor),
        Effect::RequireAuth(c.payee),
        store_campaign(campaign_id, c.with_status(CampaignStatus::Refunded)),
        Effect::Payout { token: c.token, to: c.depositor, amount: c.amount },
        Effect::Publish(Event::Cancelled(CampaignCancelled { campaign_id, amount: c.amount })),
    ]
}

impl Escrow {
    /// Pausing or resuming: the admin authorizes, the flag is stored, the
    /// change is announced.
    pub open spec fn set_paused_effects(self, paused: bool) -> Seq<Effect> {
        seq![
            Effect::RequireAuth(self.admin),
            Effect::Store(DataKey::Paused, StoredValue::Flag(paused)),
            Effect::Publish(Event::PausedUpdated(PausedUpdated { paused })),
        ]
    }

    /// Rotating the admin: the current admin authorizes.
    pub open spec fn set_admin_effects(self, new_admin: Address) -> Seq<Effect> {
        seq![
            Effect::RequireAuth(self.admin),
            Effect::Store(DataKey::Admin, StoredValue::Addr(new_admin)),
            Effect::Publish(Event::AdminUpdated(AdminUpdated { new_admin })),
        ]
    }

    /// Repointing the fee distributor: the admin authorizes.
    pub open spec fn set_fee_distributor_effects(self, fee_distributor: Address) -> Seq<Effect> {
        seq![
            Effect::RequireAuth(self.admin),
            Effect::Store(DataKey::FeeDistributor, StoredValue::Addr(fee_distributor)),
            Effect::Publish(Event::FeeDistributorUpdated(FeeDistributorUpdated {
                new_fee_distributor: fee_distributor,
            })),
        ]
    }

    /// Deploys an escrow governed by `admin` that asks `fee_distributor`
    /// for payout splits. Runs once, together with deployment, so nobody
    /// can race in and claim the admin role.
    pub fn new(admin: Address, fee_distributor: Address) -> (r: (Escrow, Vec<Effect>))
        ensures
            r.0 == (Escrow { admin, fee_distributor, campaign_count: 0, paused: false }),
            r.1@ == construct_effects(admin, fee_distributor),
    {
        let mut effects: Vec<Effect> = Vec::new();
        effects.push(Effect::RequireAuth(admin.clone()));
        effects.push(Effect::Store(DataKey::Admin, StoredValue::Addr(admin.clone())));
        effects.push(Effect::Store(DataKey::FeeDistributor, StoredValue::Addr(fee_distributor.clone())));
        effects.push(Effect::Store(DataKey::CampaignCount, StoredValue::Count(0)));
        effects.push(Effect::Store(DataKey::Paused, StoredValue::Flag(false)));
        effects.push(extend_instance_ttl());
        assert(effects@ =~= construct_effects(admin, fee_distributor));
        (Escrow { admin, fee_distributor, campaign_count: 0, paused: false }, effects)
    }

    /// Rebuilds the instance state from what storage holds. A deployed
    /// escrow always has an admin and a fee distributor (the constructor
    /// writes both); a missing count reads as zero, a missing flag as not
    /// paused.
    pub fn restore(
        admin: Address,
        fee_distributor: Address,
        campaign_count: Option<u64>,
        paused: Option<bool>,
    ) -> (e: Escrow)
        ensures
            e.admin == admin,
            e.fee_distributor == fee_distributor,
            e.campaign_count == (match campaign_count { Some(n) => n, None => 0 }),
            e.paused == (match paused { Some(p) => p, None => false }),
    {
        let campaign_count: u64 = match campaign_count {
            Some(n) => n,
            None => 0,
        };
        let paused = match paused {
            Some(p) => p,
            None => false,
        };
        Escrow { admin, fee_distributor, campaign_count, paused }
    }

    /// Emergency circuit breaker: halts *new* campaigns only. Campaigns
    /// already funded can always be released, refunded or cancelled.
    pub fn set_paused(&mut self, paused: bool) -> (r: Result<Vec<Effect>, Error>)
        ensures
            r matches Ok(effects) && effects@ == old(self).set_paused_effects(paused),
            *final(self) == (Escrow { paused, ..*old(self) }),
    {
        let mut effects: Vec<Effect> = Vec::new();
        effects.push(Effect::RequireAuth(self.admin.clone()));
        effects.push(Effect::Store(DataKey::Paused, StoredValue::Flag(paused)));
        effects.push(Effect::Publish(Event::PausedUpdated(PausedUpdated { paused })));
        assert(effects@ =~= self.set_paused_effects(paused));
        self.paused = paused;
        Ok(effects)
    }

    /// Rotates the admin key. Only the current admin can do this.
    pub fn set_admin(&mut self, new_admin: Address) -> (r: Result<Vec<Effect>, Error>)
        ensures
            r matches Ok(effects) && effects@ == old(self).set_admin_effects(new_admin),
            *final(self) == (Escrow { admin: new_admin, ..*old(self) }),
    {
        let mut effects: Vec<Effect> = Vec::new();
        effects.push(Effect::RequireAuth(self.admin.clone()));
        effects.push(Effect::Store(DataKey::Admin, StoredValue::Addr(new_admin.clone())));
        effects.push(Effect::Publish(Event::AdminUpdated(AdminUpdated { new_admin: new_admin.clone() })));
        assert(effects@ =~= self.set_admin_effects(new_admin));
        self.admin = new_admin;
        Ok(effects)
    }

    /// Points the escrow at another fee distributor; takes effect on the
    /// next release. Only the admin can do this.
    pub fn set_fee_distributor(&mut self, fee_distributor: Address) -> (r: Result<Vec<Effect>, Error>)
        ensures
            r matches Ok(effects) && effects@ == old(self).set_fee_distributor_effects(fee_distributor),
            *final(self) == (Escrow { fee_distributor, ..*old(self) }),
    {
        let mut effects: Vec<Effect> = Vec::new();
        effects.push(Effect::RequireAuth(self.admin.clone()));
        effects.push(Effect::Store(DataKey::FeeDistributor, StoredValue::Addr(fee_distributor.clone())));
        effects.push(
            Effect::Publish(
                Event::FeeDistributorUpdated(
                    FeeDistributorUpdated { new_fee_distributor: fee_distributor.clone() },
                ),
            ),
        );
        assert(effects@ =~= self.set_fee_distributor_effects(fee_distributor));
        self.fee_distributor = fee_distributor;
        Ok(effects)
    }

    /// Keeps a campaign's storage entry alive. Callable by anyone: it only
    /// extends the lifetime of an existing entry. `exists` is whether
    /// storage holds campaign `campaign_id`.
    pub fn bump_campaign_ttl(&self, campaign_id: u64, exists: bool) -> (r: Result<Vec<Effect>, Error>)
        ensures
            !exists ==> r == Err::<Vec<Effect>, Error>(Error::CampaignNotFound),
            exists ==> (r matches Ok(effects) && effects@ == seq![campaign_ttl(campaign_id)]),
    {
        if !exists {
            return Err(Error::CampaignNotFound);
        }
        let mut effects: Vec<Effect> = Vec::new();
        effects.push(extend_campaign_ttl(campaign_id));
        assert(effects@ =~= seq![campaign_ttl(campaign_id)]);
        Ok(effects)
    }

    /// Keeps the instance storage (admin, pause flag, fee distributor,
    /// campaign count) alive. Callable by anyone.
    pub fn bump_instance_ttl(&self) -> (effects: Vec<Effect>)
        ensures
            effects@ == seq![instance_ttl()],
    {
        let mut effects: Vec<Effect> = Vec::new();
        effects.push(extend_instance_ttl());
        assert(effects@ =~= seq![instance_ttl()]);
        effects
    }

    /// Locks `amount` of `token` from `depositor` into a new campaign, at
    /// ledger time `now`. Returns the new campaign's id with the effects.
    pub fn create_campaign(
        &mut self,
        now: u64,
        depositor: Address,
        payee: Address,
        arbiter: Address,
        token: Address,
        amount: i128,
        fee_bps: u32,
        fee_recipient: Address,
        deadline: u64,
    ) -> (r: Result<(u64, Vec<Effect>), Error>)
        requires
            old(self).campaign_count < u64::MAX,
        ensures
            match create_check(old(self).paused, now, amount, fee_bps, deadline) {
                Some(e) => r == Err::<(u64, Vec<Effect>), Error>(e) && *final(self) == *old(self),
                None => r matches Ok((id, effects))
                    && id == old(self).campaign_count
                    && effects@ == create_effects(
                        id,
                        new_campaign(depositor, payee, arbiter, token, amount, fee_bps, fee_recipient, deadline),
                    )
                    && *final(self) == (Escrow { campaign_count: (id + 1) as u64, ..*old(self) }),
            },
    {
        if self.paused {
            return Err(Error::Paused);
        }
        if amount <= 0 {
            return Err(Error::InvalidAmount);
        }
        if fee_bps > MAX_FEE_BPS {
            return Err(Error::InvalidFeeBps);
        }
        if deadline <= now || deadline - now > MAX_CAMPAIGN_DURATION_SECONDS {
            return Err(Error::InvalidDeadline);
        }
        let id = self.campaign_count;
        let ghost c = new_campaign(depositor, payee, arbiter, token, amount, fee_bps, fee_recipient, deadline);
        let mut effects: Vec<Effect> = Vec::new();
        effects.push(Effect::RequireAuth(depositor.clone()));
        effects.push(Effect::Deposit { token: token.clone(), from: depositor.clone(), amount });
        let event = CampaignCreated {
            campaign_id: id,
            depositor: depositor.clone(),
            payee: payee.clone(),
            token: token.clone(),
            amount,
        };
        let campaign = Campaign {
            depositor,
            payee,
            arbiter,
            token,
            amount,
            fee_bps,
            fee_recipient,
            deadline,
            status: CampaignStatus::Pending,
        };
        effects.push(Effect::Store(DataKey::Campaign(id), StoredValue::Campaign(campaign)));
        effects.push(extend_campaign_ttl(id));
        effects.push(Effect::Store(DataKey::CampaignCount, StoredValue::Count(id + 1)));
        effects.push(extend_instance_ttl());
        effects.push(Effect::Publish(Event::Created(event)));
        assert(effects@ =~= create_effects(id, c));
        self.campaign_count = id + 1;
        Ok((id, effects))
    }

    /// Looks up a campaign: `stored` is what storage holds under its id.
    pub fn get_campaign(stored: Option<Campaign>) -> (r: Result<Campaign, Error>)
        ensures
            match stored {
                Some(c) => r == Ok::<Campaign, Error>(c),
                None => r == Err::<Campaign, Error>(Error::CampaignNotFound),
            },
    {
        match stored {
            Some(c) => Ok(c),
            None => Err(Error::CampaignNotFound),
        }
    }

    /// First half of a release: checks that the stored campaign is pending,
    /// asks its arbiter to authorize, and says which fee distributor to ask
    /// for the split. The second half is [`Escrow::release`].
    pub fn begin_release(&self, stored: Option<Campaign>) -> (r: Result<(Campaign, SplitQuery, Vec<Effect>), Error>)
        ensures
            match settle_check(stored) {
                Some(e) => r == Err::<(Campaign, SplitQuery, Vec<Effect>), Error>(e),
                None => r matches Ok((c, query, effects))
                    && c == stored.unwrap()
                    && query == (SplitQuery {
                        fee_distributor: self.fee_distributor,
                        amount: c.amount,
                        fee_bps: c.fee_bps,
                    })
                    && effects@ == seq![Effect::RequireAuth(c.arbiter)],
            },
    {
        let c = match stored {
            Some(c) => c,
            None => return Err(Error::CampaignNotFound),
        };
        if c.status != CampaignStatus::Pending {
            return Err(Error::InvalidStatus);
        }
        let mut effects: Vec<Effect> = Vec::new();
        effects.push(Effect::RequireAuth(c.arbiter.clone()));
        assert(effects@ =~= seq![Effect::RequireAuth(c.arbiter)]);
        let query = SplitQuery { fee_distributor: self.fee_distributor.clone(), amount: c.amount, fee_bps: c.fee_bps };
        Ok((c, query, effects))
    }

    /// Second half of a release: given the `(fee, net)` split the fee
    /// distributor reported for pending campaign `campaign_id`, checks that
    /// the split accounts for exactly the campaign's amount, then marks the
    /// campaign released before paying the fee recipient and the payee.
    ///
    /// The fee distributor is admin-repointable at any time, and all
    /// campaigns' funds sit in one pooled balance, so the split is never
    /// trusted: a bad one must not pay out more than the campaign holds.
    pub fn release(&self, campaign_id: u64, campaign: Campaign, fee: i128, net: i128) -> (r: Result<Vec<Effect>, Error>)
        requires
            campaign.status == CampaignStatus::Pending,
            fee < 0 || net < 0 || fee + net <= i128::MAX,
        ensures
            match split_check(campaign, fee, net) {
                Some(e) => r == Err::<Vec<Effect>, Error>(e),
                None => r matches Ok(effects) && effects@ == release_effects(campaign_id, campaign, fee, net),
            },
    {
        if fee < 0 {
            return Err(Error::InvalidSplit);
        }
        if net < 0 {
            return Err(Error::InvalidSplit);
        }
        if fee + net != campaign.amount {
            return Err(Error::InvalidSplit);
        }
        let ghost c = campaign;
        let token = campaign.token.clone();
        let fee_recipient = campaign.fee_recipient.clone();
        let payee = campaign.payee.clone();
        let mut released = campaign;
        released.status = CampaignStatus::Released;
        let mut effects: Vec<Effect> = Vec::new();
        effects.push(Effect::Store(DataKey::Campaign(campaign_id), StoredValue::Campaign(released)));
        let ghost head = effects@;
        if fee > 0 {
            effects.push(Effect::Payout { token: token.clone(), to: fee_recipient, amount: fee });
        }
        assert(effects@ =~= head + payout_if(c.token, c.fee_recipient, fee));
        let ghost mid = effects@;
        if net > 0 {
            effects.push(Effect::Payout { token, to: payee, amount: net });
        }
        assert(effects@ =~= mid + payout_if(c.token, c.payee, net));
        effects.push(Effect::Publish(Event::Released(CampaignReleased { campaign_id, fee, net })));
        assert(effects@ =~= release_effects(campaign_id, c, fee, net));
        Ok(effects)
    }

    /// Returns the full escrowed amount to the depositor, once the deadline
    /// (`now >= deadline`) is reached without a release. The arbiter cannot
    /// block it.
    pub fn refund(&self, campaign_id: u64, stored: Option<Campaign>, now: u64) -> (r: Result<Vec<Effect>, Error>)
        ensures
            match refund_check(stored, now) {
                Some(e) => r == Err::<Vec<Effect>, Error>(e),
                None => r matches Ok(effects) && effects@ == refund_effects(campaign_id, stored.unwrap()),
            },
    {
        let campaign = match stored {
            Some(c) => c,
            None => return Err(Error::CampaignNotFound),
        };
        if campaign.status != CampaignStatus::Pending {
            return Err(Error::InvalidStatus);
        }
        if now < campaign.deadline {
            return Err(Error::NotYetExpired);
        }
        let ghost c = campaign;
        let depositor = campaign.depositor.clone();
        let token = campaign.token.clone();
        let amount = campaign.amount;
        let mut refunded = campaign;
        refunded.status = CampaignStatus::Refunded;
        let mut effects: Vec<Effect> = Vec::new();
        effects.push(Effect::RequireAuth(depositor.clone()));
        effects.push(Effect::Store(DataKey::Campaign(campaign_id), StoredValue::Campaign(refunded)));
        effects.push(Effect::Payout { token, to: depositor, amount });
        effects.push(Effect::Publish(Event::Refunded(CampaignRefunded { campaign_id, amount })));
        assert(effects@ =~= refund_effects(campaign_id, c));
        Ok(effects)
    }

    /// Cancels a pending campaign and returns the full amount to the
    /// depositor. Requires authorization from *both* the depositor and the
    /// payee: mutual consent is the only way out of a campaign before the
    /// deadline or an arbiter release.
    pub fn cancel(&self, campaign_id: u64, stored: Option<Campaign>) -> (r: Result<Vec<Effect>, Error>)
        ensures
            match settle_check(stored) {
                Some(e) => r == Err::<Vec<Effect>, Error>(e),
                None => r matches Ok(effects) && effects@ == cancel_effects(campaign_id, stored.unwrap()),
            },
    {
        let campaign = match stored {
            Some(c) => c,
            None => return Err(Error::CampaignNotFound),
        };
        if campaign.status != CampaignStatus::Pending {
            return Err(Error::InvalidStatus);
        }
        let ghost c = campaign;
        let depositor = campaign.depositor.clone();
        let payee = campaign.payee.clone();
        let token = campaign.token.clone();
        let amount = campaign.amount;
        let mut refunded = campaign;
        refunded.status = CampaignStatus::Refunded;
        let mut effects: Vec<Effect> = Vec::new();
        effects.push(Effect::RequireAuth(depositor.clone()));
        effects.push(Effect::RequireAuth(payee));
        effects.push(Effect::Store(DataKey::Campaign(campaign_id), StoredValue::Campaign(refunded)));
        effects.push(Effect::Payout { token, to: depositor, amount });
        effects.push(Effect::Publish(Event::Cancelled(CampaignCancelled { campaign_id, amount })));
        assert(effects@ =~= cancel_effects(campaign_id, c));
        Ok(effects)
    }
}

fn extend_instance_ttl() -> (e: Effect)
    ensures
        e == instance_ttl(),
{
    Effect::ExtendInstanceTtl { threshold: INSTANCE_LIFETIME_THRESHOLD, extend_to: INSTANCE_BUMP_AMOUNT }
}

fn extend_campaign_ttl(campaign_id: u64) -> (e: Effect)
    ensures
        e == campaign_ttl(campaign_id),
{
    Effect::ExtendCampaignTtl {
        campaign_id,
        threshold: CAMPAIGN_LIFETIME_THRESHOLD,
        extend_to: CAMPAIGN_BUMP_AMOUNT,
    }
}

} // verus!
