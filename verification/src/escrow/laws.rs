//! Properties of the escrow as a whole, over the effects its entry points
//! return.
use vstd::prelude::*;
use crate::escrow::contract::{
    campaign_ttl, instance_ttl, cancel_effects, construct_effects, create_check, create_effects, new_campaign, refund_check, refund_effects,
    release_effects, settle_check, split_check, store_campaign, payout_if, Escrow, MAX_CAMPAIGN_DURATION_SECONDS,
    MAX_FEE_BPS,
};
use crate::escrow::errors::Error;
use crate::escrow::events::{
    AdminUpdated, CampaignCancelled, CampaignCreated, CampaignRefunded, CampaignReleased, Event,
    FeeDistributorUpdated, PausedUpdated,
};
use crate::escrow::types::{Address, Campaign, CampaignStatus, DataKey, Effect, StoredValue};
use crate::fee_distribution::{split_result, split_conserves_amount};

verus! {

/// How one effect changes the escrow's own balance of `token`.
pub open spec fn flow(e: Effect, token: Address) -> int {
    match e {
        Effect::Deposit { token: t, amount, .. } => if t == token { amount as int } else { 0 },
        Effect::Payout { token: t, amount, .. } => if t == token { -amount } else { 0 },
        _ => 0,
    }
}

/// How a list of effects changes the escrow's own balance of `token`.
pub open spec fn net_inflow(effects: Seq<Effect>, token: Address) -> int
    decreases effects.len(),
{
    if effects.len() == 0 {
        0
    } else {
        net_inflow(effects.drop_last(), token) + flow(effects.last(), token)
    }
}

/// What the escrow holds in `token` on behalf of campaign `c`: its amount
/// while it is pending, nothing once it is settled.
pub open spec fn pending_amount(c: Campaign, token: Address) -> int {
    if c.status == CampaignStatus::Pending && c.token == token {
        c.amount as int
    } else {
        0
    }
}

/// What the escrow owes in `token` over all campaigns (campaign `id` at
/// index `id`).
pub open spec fn pending_total(campaigns: Seq<Campaign>, token: Address) -> int
    decreases campaigns.len(),
{
    if campaigns.len() == 0 {
        0
    } else {
        pending_total(campaigns.drop_last(), token) + pending_amount(campaigns.last(), token)
    }
}

proof fn lemma_net_inflow_concat(a: Seq<Effect>, b: Seq<Effect>, token: Address)
    ensures
        net_inflow(a + b, token) == net_inflow(a, token) + net_inflow(b, token),
    decreases b.len(),
{
    if b.len() == 0 {
        assert(a + b =~= a);
    } else {
        assert((a + b).drop_last() =~= a + b.drop_last());
        lemma_net_inflow_concat(a, b.drop_last(), token);
    }
}

proof fn lemma_net_inflow_single(e: Effect, token: Address)
    ensures
        net_inflow(seq![e], token) == flow(e, token),
{
    assert(seq![e].drop_last() =~= Seq::<Effect>::empty());
    assert(net_inflow(Seq::<Effect>::empty(), token) == 0);
    assert(seq![e].last() == e);
}

/// When only the effect at `j` moves `token`, the net inflow is its flow.
proof fn lemma_net_inflow_one_mover(effects: Seq<Effect>, j: int, token: Address)
    requires
        0 <= j < effects.len(),
        forall|k: int| 0 <= k < effects.len() && k != j ==> flow(#[trigger] effects[k], token) == 0,
    ensures
        net_inflow(effects, token) == flow(effects[j], token),
    decreases effects.len(),
{
    let n = effects.len() - 1;
    if j == n {
        lemma_net_inflow_none(effects.drop_last(), token);
    } else {
        assert(flow(effects[n], token) == 0);
        lemma_net_inflow_one_mover(effects.drop_last(), j, token);
    }
}

proof fn lemma_net_inflow_none(effects: Seq<Effect>, token: Address)
    requires
        forall|k: int| 0 <= k < effects.len() ==> flow(#[trigger] effects[k], token) == 0,
    ensures
        net_inflow(effects, token) == 0,
    decreases effects.len(),
{
    if effects.len() > 0 {
        assert(flow(effects[effects.len() - 1], token) == 0);
        lemma_net_inflow_none(effects.drop_last(), token);
    }
}

proof fn lemma_pending_total_push(campaigns: Seq<Campaign>, c: Campaign, token: Address)
    ensures
        pending_total(campaigns.push(c), token) == pending_total(campaigns, token) + pending_amount(c, token),
{
    assert(campaigns.push(c).drop_last() =~= campaigns);
}

proof fn lemma_pending_total_update(campaigns: Seq<Campaign>, i: int, c: Campaign, token: Address)
    requires
        0 <= i < campaigns.len(),
    ensures
        pending_total(campaigns.update(i, c), token) == pending_total(campaigns, token)
            - pending_amount(campaigns[i], token) + pending_amount(c, token),
    decreases campaigns.len(),
{
    let n = campaigns.len() - 1;
    if i == n {
        assert(campaigns.update(i, c).drop_last() =~= campaigns.drop_last());
    } else {
        assert(campaigns.update(i, c).drop_last() =~= campaigns.drop_last().update(i, c));
        lemma_pending_total_update(campaigns.drop_last(), i, c, token);
    }
}

/// Funds are conserved when a campaign is created: appending the new
/// pending campaign raises what the escrow owes in each token by exactly
/// what the creation moves into the escrow. Starting from no campaigns and
/// no funds, the escrow's balance of every token therefore stays equal to
/// the sum of its pending campaigns in that token.
pub proof fn create_keeps_pool_balanced(
    campaigns: Seq<Campaign>,
    depositor: Address,
    payee: Address,
    arbiter: Address,
    token: Address,
    amount: i128,
    fee_bps: u32,
    fee_recipient: Address,
    deadline: u64,
    held: Address,
)
    requires
        campaigns.len() < u64::MAX,
    ensures
        ({
            let c = new_campaign(depositor, payee, arbiter, token, amount, fee_bps, fee_recipient, deadline);
            pending_total(campaigns.push(c), held) == pending_total(campaigns, held)
                + net_inflow(create_effects(campaigns.len() as u64, c), held)
        }),
{
    let c = new_campaign(depositor, payee, arbiter, token, amount, fee_bps, fee_recipient, deadline);
    let effects = create_effects(campaigns.len() as u64, c);
    assert(forall|k: int| 0 <= k < effects.len() && k != 1 ==> flow(#[trigger] effects[k], held) == 0);
    lemma_net_inflow_one_mover(effects, 1, held);
    lemma_pending_total_push(campaigns, c, held);
}

/// Funds are conserved when a pending campaign is released with an
/// accepted split: what leaves the escrow in each token is exactly what
/// the campaign stops being owed, so a release can never pay out funds
/// that belong to other campaigns, whatever split the fee distributor
/// reported.
pub proof fn release_keeps_pool_balanced(
    campaigns: Seq<Campaign>,
    i: int,
    fee: i128,
    net: i128,
    held: Address,
)
    requires
        0 <= i < campaigns.len(),
        campaigns[i].status == CampaignStatus::Pending,
        split_check(campaigns[i], fee, net) is None,
    ensures
        pending_total(campaigns.update(i, campaigns[i].with_status(CampaignStatus::Released)), held)
            == pending_total(campaigns, held) + net_inflow(release_effects(i as u64, campaigns[i], fee, net), held),
{
    let c = campaigns[i];
    let id = i as u64;
    let head = seq![store_campaign(id, c.with_status(CampaignStatus::Released))];
    let fee_part = payout_if(c.token, c.fee_recipient, fee);
    let net_part = payout_if(c.token, c.payee, net);
    let tail = seq![Effect::Publish(crate::escrow::events::Event::Released(
        crate::escrow::events::CampaignReleased { campaign_id: id, fee, net },
    ))];
    lemma_net_inflow_concat(head, fee_part, held);
    lemma_net_inflow_concat(head + fee_part, net_part, held);
    lemma_net_inflow_concat(head + fee_part + net_part, tail, held);
    lemma_net_inflow_single(head[0], held);
    lemma_net_inflow_single(tail[0], held);
    assert(head =~= seq![head[0]]);
    assert(tail =~= seq![tail[0]]);
    if fee > 0 {
        lemma_net_inflow_single(fee_part[0], held);
        assert(fee_part =~= seq![fee_part[0]]);
    }
    if net > 0 {
        lemma_net_inflow_single(net_part[0], held);
        assert(net_part =~= seq![net_part[0]]);
    }
    lemma_pending_total_update(campaigns, i, c.with_status(CampaignStatus::Released), held);
}

/// Funds are conserved when a pending campaign is refunded: the escrow pays
/// out exactly what the campaign stops being owed.
pub proof fn refund_keeps_pool_balanced(campaigns: Seq<Campaign>, i: int, held: Address)
    requires
        0 <= i < campaigns.len(),
        campaigns[i].status == CampaignStatus::Pending,
    ensures
        pending_total(campaigns.update(i, campaigns[i].with_status(CampaignStatus::Refunded)), held)
            == pending_total(campaigns, held) + net_inflow(refund_effects(i as u64, campaigns[i]), held),
{
    let c = campaigns[i];
    let effects = refund_effects(i as u64, c);
    assert(forall|k: int| 0 <= k < effects.len() && k != 2 ==> flow(#[trigger] effects[k], held) == 0);
    lemma_net_inflow_one_mover(effects, 2, held);
    lemma_pending_total_update(campaigns, i, c.with_status(CampaignStatus::Refunded), held);
}

/// Funds are conserved when a pending campaign is cancelled: the escrow
/// pays out exactly what the campaign stops being owed.
pub proof fn cancel_keeps_pool_balanced(campaigns: Seq<Campaign>, i: int, held: Address)
    requires
        0 <= i < campaigns.len(),
        campaigns[i].status == CampaignStatus::Pending,
    ensures
        pending_total(campaigns.update(i, campaigns[i].with_status(CampaignStatus::Refunded)), held)
            == pending_total(campaigns, held) + net_inflow(cancel_effects(i as u64, campaigns[i]), held),
{
    let c = campaigns[i];
    let effects = cancel_effects(i as u64, c);
    assert(forall|k: int| 0 <= k < effects.len() && k != 3 ==> flow(#[trigger] effects[k], held) == 0);
    lemma_net_inflow_one_mover(effects, 3, held);
    lemma_pending_total_update(campaigns, i, c.with_status(CampaignStatus::Refunded), held);
}

/// The escrow is never overdrawn: while every campaign it stores holds a
/// positive amount (as `create_campaign` guarantees), what it owes, and so
/// what it holds, in any token is never negative.
pub proof fn pool_never_overdrawn(campaigns: Seq<Campaign>, held: Address)
    requires
        forall|i: int| 0 <= i < campaigns.len() ==> #[trigger] campaigns[i].amount > 0,
    ensures
        pending_total(campaigns, held) >= 0,
    decreases campaigns.len(),
{
    if campaigns.len() > 0 {
        let n = campaigns.len() - 1;
        assert(campaigns[n].amount > 0);
        assert forall|i: int| 0 <= i < campaigns.drop_last().len() implies #[trigger] campaigns.drop_last()[i].amount > 0 by {
            assert(campaigns.drop_last()[i] == campaigns[i]);
        }
        pool_never_overdrawn(campaigns.drop_last(), held);
    }
}

/// A campaign is settled at most once: once it is released or refunded,
/// every further release, refund or cancel of it is refused with
/// `InvalidStatus`, whatever the time.
pub proof fn settlement_is_final(c: Campaign, status: CampaignStatus, now: u64)
    requires
        status != CampaignStatus::Pending,
    ensures
        settle_check(Some(c.with_status(status))) == Some(Error::InvalidStatus),
        refund_check(Some(c.with_status(status)), now) == Some(Error::InvalidStatus),
{
}

/// Pausing can never trap funds: `create_campaign` on a paused escrow is
/// refused, but releasing, refunding and cancelling read nothing of the
/// escrow's state but the campaign. A pending campaign can always start a
/// release and be cancelled, and can be refunded exactly from its deadline
/// on, paused or not.
pub proof fn pausing_never_traps_funds(
    escrow: Escrow,
    c: Campaign,
    now: u64,
    amount: i128,
    fee_bps: u32,
    deadline: u64,
)
    requires
        escrow.paused,
        c.status == CampaignStatus::Pending,
    ensures
        create_check(escrow.paused, now, amount, fee_bps, deadline) == Some(Error::Paused),
        settle_check(Some(c)) is None,
        refund_check(Some(c), now) is None <==> now >= c.deadline,
{
}

/// The depositor can always get the money back: past the deadline, refund
/// of a pending campaign succeeds and pays the full amount, in the
/// campaign's token, to the depositor.
pub proof fn depositor_can_always_reclaim(campaign_id: u64, c: Campaign, now: u64)
    requires
        c.status == CampaignStatus::Pending,
        now >= c.deadline,
    ensures
        refund_check(Some(c), now) is None,
        refund_effects(campaign_id, c).contains(Effect::Payout { token: c.token, to: c.depositor, amount: c.amount }),
{
    assert(refund_effects(campaign_id, c)[2] == Effect::Payout { token: c.token, to: c.depositor, amount: c.amount });
}

/// The fee calculator's own split is always accepted by a release: when
/// `compute_split` succeeds on a pending campaign's amount and rate, the
/// split it returns passes every check of `release` and meets its
/// precondition.
pub proof fn canonical_split_is_accepted(c: Campaign)
    ensures
        split_result(c.amount, c.fee_bps) matches Ok((fee, net)) ==> split_check(c, fee, net) is None
            && fee + net <= i128::MAX,
{
    split_conserves_amount(c.amount, c.fee_bps);
}

/// Checks-effects-interactions: in every settlement the campaign's new
/// status is written before any token leaves the escrow, so a token that
/// calls back into the escrow mid-transfer already sees the campaign
/// settled.
pub open spec fn stored_before_payouts(effects: Seq<Effect>, campaign_id: u64, settled: Campaign) -> bool {
    exists|k: int|
        0 <= k < effects.len() && effects[k] == store_campaign(campaign_id, settled) && forall|j: int|
            0 <= j < k ==> !(#[trigger] effects[j] is Payout)
}

/// Releases, refunds and cancellations all store the settled campaign
/// before paying anyone.
pub proof fn settlements_store_before_paying(campaign_id: u64, c: Campaign, fee: i128, net: i128)
    ensures
        stored_before_payouts(
            release_effects(campaign_id, c, fee, net),
            campaign_id,
            c.with_status(CampaignStatus::Released),
        ),
        stored_before_payouts(refund_effects(campaign_id, c), campaign_id, c.with_status(CampaignStatus::Refunded)),
        stored_before_payouts(cancel_effects(campaign_id, c), campaign_id, c.with_status(CampaignStatus::Refunded)),
{
    let r = release_effects(campaign_id, c, fee, net);
    assert(r[0] == store_campaign(campaign_id, c.with_status(CampaignStatus::Released)));
    let f = refund_effects(campaign_id, c);
    assert(f[1] == store_campaign(campaign_id, c.with_status(CampaignStatus::Refunded)));
    assert(!(f[0] is Payout));
    let x = cancel_effects(campaign_id, c);
    assert(x[2] == store_campaign(campaign_id, c.with_status(CampaignStatus::Refunded)));
    assert(!(x[0] is Payout) && !(x[1] is Payout));
}

/// A release pays only the campaign's fee recipient and payee, only in the
/// campaign's token, only positive amounts, and exactly the accepted split.
pub proof fn release_pays_only_the_split(campaign_id: u64, c: Campaign, fee: i128, net: i128)
    requires
        split_check(c, fee, net) is None,
    ensures
        forall|k: int|
            0 <= k < release_effects(campaign_id, c, fee, net).len() ==> (#[trigger] release_effects(
                campaign_id,
                c,
                fee,
                net,
            )[k] matches Effect::Payout { token, to, amount } ==> token == c.token && amount > 0 && (
            (to == c.fee_recipient && amount == fee) || (to == c.payee && amount == net))),
        forall|k: int|
            0 <= k < release_effects(campaign_id, c, fee, net).len() ==> !(#[trigger] release_effects(
                campaign_id,
                c,
                fee,
                net,
            )[k] is Deposit),
{
}

/// Every privileged entry point demands the right signature before it
/// acts: governance the current admin's, creation the depositor's, release
/// the arbiter's, refund the depositor's, cancellation both the depositor's
/// and the payee's. After the admin key is rotated, governance demands the
/// new key.
pub proof fn privileged_entry_points_demand_authorization(
    escrow: Escrow,
    new_admin: Address,
    paused: bool,
    fee_distributor: Address,
    campaign_id: u64,
    c: Campaign,
)
    ensures
        escrow.set_paused_effects(paused)[0] == Effect::RequireAuth(escrow.admin),
        escrow.set_admin_effects(new_admin)[0] == Effect::RequireAuth(escrow.admin),
        escrow.set_fee_distributor_effects(fee_distributor)[0] == Effect::RequireAuth(escrow.admin),
        (Escrow { admin: new_admin, ..escrow }).set_paused_effects(paused)[0] == Effect::RequireAuth(new_admin),
        create_effects(campaign_id, c)[0] == Effect::RequireAuth(c.depositor),
        refund_effects(campaign_id, c)[0] == Effect::RequireAuth(c.depositor),
        cancel_effects(campaign_id, c)[0] == Effect::RequireAuth(c.depositor),
        cancel_effects(campaign_id, c)[1] == Effect::RequireAuth(c.payee),
{
}

/// Every campaign that creation accepts is pending, holds a positive
/// amount, charges at most the platform's fee cap, and has a deadline
/// strictly after creation and at most one year later.
pub proof fn created_campaigns_are_well_formed(
    paused: bool,
    now: u64,
    depositor: Address,
    payee: Address,
    arbiter: Address,
    token: Address,
    amount: i128,
    fee_bps: u32,
    fee_recipient: Address,
    deadline: u64,
)
    requires
        create_check(paused, now, amount, fee_bps, deadline) is None,
    ensures
        ({
            let c = new_campaign(depositor, payee, arbiter, token, amount, fee_bps, fee_recipient, deadline);
            &&& !paused
            &&& c.status == CampaignStatus::Pending
            &&& c.amount > 0
            &&& c.fee_bps <= MAX_FEE_BPS
            &&& now < c.deadline <= now + MAX_CAMPAIGN_DURATION_SECONDS
        }),
{
}

/// Every deposit, release, refund, cancellation and governance change is
/// announced: the effects of each end with the matching event.
pub proof fn every_change_is_announced(
    escrow: Escrow,
    campaign_id: u64,
    c: Campaign,
    fee: i128,
    net: i128,
    paused: bool,
    new_admin: Address,
    fee_distributor: Address,
)
    ensures
        create_effects(campaign_id, c).last() is Publish,
        release_effects(campaign_id, c, fee, net).last() is Publish,
        refund_effects(campaign_id, c).last() is Publish,
        cancel_effects(campaign_id, c).last() is Publish,
        escrow.set_paused_effects(paused).last() is Publish,
        escrow.set_admin_effects(new_admin).last() is Publish,
        escrow.set_fee_distributor_effects(fee_distributor).last() is Publish,
{
}

/// Keeping storage alive needs nobody's signature and moves no funds:
/// both lifetime extensions consist of the extension alone.
pub proof fn keeping_storage_alive_is_unprivileged(campaign_id: u64)
    ensures
        !(campaign_ttl(campaign_id) is RequireAuth) && !(campaign_ttl(campaign_id) is Payout),
        !(instance_ttl() is RequireAuth) && !(instance_ttl() is Payout),
{
}

/// `a` and `b` are the same campaign terms: the same parties, token,
/// amount, rate and deadline (their statuses may differ).
pub open spec fn same_terms(a: Campaign, b: Campaign) -> bool {
    &&& a.depositor == b.depositor
    &&& a.payee == b.payee
    &&& a.arbiter == b.arbiter
    &&& a.token == b.token
    &&& a.amount == b.amount
    &&& a.fee_bps == b.fee_bps
    &&& a.fee_recipient == b.fee_recipient
    &&& a.deadline == b.deadline
}

/// A release announces the split it paid: its one event is
/// `CampaignReleased` with the campaign's id, the split's fee (what the fee
/// recipient gets) and the split's net (what the payee gets). It demands no
/// further signature (the arbiter's is demanded when the release begins),
/// and the only thing it stores is the same campaign, now released.
pub proof fn release_announces_its_split(campaign_id: u64, c: Campaign, fee: i128, net: i128)
    requires
        split_check(c, fee, net) is None,
    ensures
        ({
            let e = release_effects(campaign_id, c, fee, net);
            &&& e.last() == Effect::Publish(Event::Released(CampaignReleased { campaign_id, fee, net }))
            &&& forall|k: int| 0 <= k < e.len() ==> (#[trigger] e[k] matches Effect::Publish(ev) ==> ev
                == Event::Released(CampaignReleased { campaign_id, fee, net }))
            &&& forall|k: int| 0 <= k < e.len() ==> !(#[trigger] e[k] is RequireAuth)
            &&& forall|k: int| 0 <= k < e.len() ==> (#[trigger] e[k] matches Effect::Store(key, v) ==> key
                == DataKey::Campaign(campaign_id) && (v matches StoredValue::Campaign(sc) ==> same_terms(sc, c)
                && sc.status == CampaignStatus::Released) && v is Campaign)
            &&& e.contains(Effect::Store(DataKey::Campaign(campaign_id), StoredValue::Campaign(c.with_status(CampaignStatus::Released))))
            &&& fee > 0 ==> e.contains(Effect::Payout { token: c.token, to: c.fee_recipient, amount: fee })
            &&& net > 0 ==> e.contains(Effect::Payout { token: c.token, to: c.payee, amount: net })
        }),
{
    let e = release_effects(campaign_id, c, fee, net);
    let stored = store_campaign(campaign_id, c.with_status(CampaignStatus::Released));
    assert(e[0] == stored);
    if fee > 0 {
        assert(e[1] == Effect::Payout { token: c.token, to: c.fee_recipient, amount: fee });
    }
    if net > 0 {
        let j = if fee > 0 { 2int } else { 1int };
        assert(e[j] == Effect::Payout { token: c.token, to: c.payee, amount: net });
    }
}

/// Creation records every argument as given: the one campaign it stores,
/// under the new id, has the depositor, payee, arbiter, token, amount, rate,
/// fee recipient and deadline that were passed in and is pending. Only the
/// depositor signs; exactly the amount moves in from the depositor, in that
/// token; the count becomes the id plus one; the event repeats the
/// creation's arguments.
pub proof fn creation_records_its_arguments(
    campaign_id: u64,
    depositor: Address,
    payee: Address,
    arbiter: Address,
    token: Address,
    amount: i128,
    fee_bps: u32,
    fee_recipient: Address,
    deadline: u64,
)
    requires
        campaign_id < u64::MAX,
    ensures
        ({
            let e = create_effects(
                campaign_id,
                new_campaign(depositor, payee, arbiter, token, amount, fee_bps, fee_recipient, deadline),
            );
            &&& forall|k: int| 0 <= k < e.len() ==> (#[trigger] e[k] matches Effect::Store(DataKey::Campaign(id), v)
                ==> id == campaign_id && (v matches StoredValue::Campaign(sc) ==> sc.depositor == depositor
                && sc.payee == payee && sc.arbiter == arbiter && sc.token == token && sc.amount == amount
                && sc.fee_bps == fee_bps && sc.fee_recipient == fee_recipient && sc.deadline == deadline
                && sc.status == CampaignStatus::Pending) && v is Campaign)
            &&& exists|k: int| 0 <= k < e.len() && (#[trigger] e[k] matches Effect::Store(DataKey::Campaign(_), _))
            &&& forall|k: int| 0 <= k < e.len() ==> (#[trigger] e[k] matches Effect::RequireAuth(a) ==> a == depositor)
            &&& e.contains(Effect::RequireAuth(depositor))
            &&& forall|k: int| 0 <= k < e.len() ==> !(#[trigger] e[k] is Payout)
            &&& forall|k: int| 0 <= k < e.len() ==> (#[trigger] e[k] matches Effect::Deposit { token: t, from, amount: a }
                ==> t == token && from == depositor && a == amount)
            &&& e.contains(Effect::Deposit { token, from: depositor, amount })
            &&& forall|k: int| 0 <= k < e.len() ==> (#[trigger] e[k] matches Effect::Store(DataKey::CampaignCount, v)
                ==> v == StoredValue::Count((campaign_id + 1) as u64))
            &&& forall|k: int| 0 <= k < e.len() ==> (#[trigger] e[k] matches Effect::ExtendCampaignTtl { campaign_id: id, .. }
                ==> id == campaign_id)
            &&& e.contains(Effect::Store(DataKey::CampaignCount, StoredValue::Count((campaign_id + 1) as u64)))
            &&& forall|k: int| 0 <= k < e.len() ==> (#[trigger] e[k] matches Effect::Publish(ev) ==> ev
                == Event::Created(CampaignCreated { campaign_id, depositor, payee, token, amount }))
        }),
{
    let e = create_effects(
        campaign_id,
        new_campaign(depositor, payee, arbiter, token, amount, fee_bps, fee_recipient, deadline),
    );
    assert(e[0] == Effect::RequireAuth(depositor));
    assert(e[1] == Effect::Deposit { token, from: depositor, amount });
    assert(e[2] matches Effect::Store(DataKey::Campaign(_), _));
    assert(e[4] == Effect::Store(DataKey::CampaignCount, StoredValue::Count((campaign_id + 1) as u64)));
}

/// A refund demands exactly one signature, the depositor's, so neither the
/// arbiter nor the payee can block it; it stores the same campaign as
/// refunded, pays exactly the amount back to the depositor in the
/// campaign's token and nothing else, and announces that amount.
pub proof fn refund_needs_only_the_depositor(campaign_id: u64, c: Campaign)
    ensures
        ({
            let e = refund_effects(campaign_id, c);
            &&& forall|k: int| 0 <= k < e.len() ==> (#[trigger] e[k] matches Effect::RequireAuth(a) ==> a == c.depositor)
            &&& e.contains(Effect::RequireAuth(c.depositor))
            &&& forall|k: int| 0 <= k < e.len() ==> (#[trigger] e[k] matches Effect::Payout { token, to, amount }
                ==> token == c.token && to == c.depositor && amount == c.amount)
            &&& e.contains(Effect::Payout { token: c.token, to: c.depositor, amount: c.amount })
            &&& forall|k: int| 0 <= k < e.len() ==> !(#[trigger] e[k] is Deposit)
            &&& forall|k: int| 0 <= k < e.len() ==> (#[trigger] e[k] matches Effect::Store(key, v) ==> key
                == DataKey::Campaign(campaign_id) && (v matches StoredValue::Campaign(sc) ==> same_terms(sc, c)
                && sc.status == CampaignStatus::Refunded) && v is Campaign)
            &&& forall|k: int| 0 <= k < e.len() ==> (#[trigger] e[k] matches Effect::Publish(ev) ==> ev
                == Event::Refunded(CampaignRefunded { campaign_id, amount: c.amount }))
        }),
{
    let e = refund_effects(campaign_id, c);
    assert(e[0] == Effect::RequireAuth(c.depositor));
    assert(e[2] == Effect::Payout { token: c.token, to: c.depositor, amount: c.amount });
}

/// A cancellation demands the depositor's and the payee's signatures and no
/// other; it stores the same campaign as refunded, pays exactly the amount
/// back to the depositor, and announces that amount.
pub proof fn cancel_needs_depositor_and_payee(campaign_id: u64, c: Campaign)
    ensures
        ({
            let e = cancel_effects(campaign_id, c);
            &&& forall|k: int| 0 <= k < e.len() ==> (#[trigger] e[k] matches Effect::RequireAuth(a) ==> a == c.depositor
                || a == c.payee)
            &&& e.contains(Effect::RequireAuth(c.depositor))
            &&& e.contains(Effect::RequireAuth(c.payee))
            &&& forall|k: int| 0 <= k < e.len() ==> (#[trigger] e[k] matches Effect::Payout { token, to, amount }
                ==> token == c.token && to == c.depositor && amount == c.amount)
            &&& e.contains(Effect::Payout { token: c.token, to: c.depositor, amount: c.amount })
            &&& forall|k: int| 0 <= k < e.len() ==> !(#[trigger] e[k] is Deposit)
            &&& forall|k: int| 0 <= k < e.len() ==> (#[trigger] e[k] matches Effect::Store(key, v) ==> key
                == DataKey::Campaign(campaign_id) && (v matches StoredValue::Campaign(sc) ==> same_terms(sc, c)
                && sc.status == CampaignStatus::Refunded) && v is Campaign)
            &&& forall|k: int| 0 <= k < e.len() ==> (#[trigger] e[k] matches Effect::Publish(ev) ==> ev
                == Event::Cancelled(CampaignCancelled { campaign_id, amount: c.amount }))
        }),
{
    let e = cancel_effects(campaign_id, c);
    assert(e[0] == Effect::RequireAuth(c.depositor));
    assert(e[1] == Effect::RequireAuth(c.payee));
    assert(e[3] == Effect::Payout { token: c.token, to: c.depositor, amount: c.amount });
}

/// Governance stores exactly what it is given, whatever was stored before:
/// `set_paused(p)` writes `p` under `Paused`, `set_admin(a)` writes `a`
/// under `Admin`, `set_fee_distributor(f)` writes `f` under
/// `FeeDistributor`; each writes nothing else, moves no funds, demands only
/// the current admin's signature, and announces the new value.
pub proof fn governance_stores_exactly_its_argument(
    escrow: Escrow,
    paused: bool,
    new_admin: Address,
    fee_distributor: Address,
)
    ensures
        ({
            let e = escrow.set_paused_effects(paused);
            &&& forall|k: int| 0 <= k < e.len() ==> (#[trigger] e[k] matches Effect::Store(key, v) ==> key
                == DataKey::Paused && v == StoredValue::Flag(paused))
            &&& e.contains(Effect::Store(DataKey::Paused, StoredValue::Flag(paused)))
            &&& forall|k: int| 0 <= k < e.len() ==> (#[trigger] e[k] matches Effect::RequireAuth(a) ==> a == escrow.admin)
            &&& forall|k: int| 0 <= k < e.len() ==> !(#[trigger] e[k] is Payout) && !(e[k] is Deposit)
            &&& forall|k: int| 0 <= k < e.len() ==> (#[trigger] e[k] matches Effect::Publish(ev) ==> ev
                == Event::PausedUpdated(PausedUpdated { paused }))
        }),
        ({
            let e = escrow.set_admin_effects(new_admin);
            &&& forall|k: int| 0 <= k < e.len() ==> (#[trigger] e[k] matches Effect::Store(key, v) ==> key
                == DataKey::Admin && v == StoredValue::Addr(new_admin))
            &&& e.contains(Effect::Store(DataKey::Admin, StoredValue::Addr(new_admin)))
            &&& forall|k: int| 0 <= k < e.len() ==> (#[trigger] e[k] matches Effect::RequireAuth(a) ==> a == escrow.admin)
            &&& e.contains(Effect::RequireAuth(escrow.admin))
            &&& forall|k: int| 0 <= k < e.len() ==> !(#[trigger] e[k] is Payout) && !(e[k] is Deposit)
            &&& forall|k: int| 0 <= k < e.len() ==> (#[trigger] e[k] matches Effect::Publish(ev) ==> ev
                == Event::AdminUpdated(AdminUpdated { new_admin }))
        }),
        ({
            let e = escrow.set_fee_distributor_effects(fee_distributor);
            &&& forall|k: int| 0 <= k < e.len() ==> (#[trigger] e[k] matches Effect::Store(key, v) ==> key
                == DataKey::FeeDistributor && v == StoredValue::Addr(fee_distributor))
            &&& e.contains(Effect::Store(DataKey::FeeDistributor, StoredValue::Addr(fee_distributor)))
            &&& forall|k: int| 0 <= k < e.len() ==> (#[trigger] e[k] matches Effect::RequireAuth(a) ==> a == escrow.admin)
            &&& e.contains(Effect::RequireAuth(escrow.admin))
            &&& forall|k: int| 0 <= k < e.len() ==> !(#[trigger] e[k] is Payout) && !(e[k] is Deposit)
            &&& forall|k: int| 0 <= k < e.len() ==> (#[trigger] e[k] matches Effect::Publish(ev) ==> ev
                == Event::FeeDistributorUpdated(FeeDistributorUpdated { new_fee_distributor: fee_distributor }))
        }),
{
    let e = escrow.set_paused_effects(paused);
    assert(e[1] == Effect::Store(DataKey::Paused, StoredValue::Flag(paused)));
    let e = escrow.set_admin_effects(new_admin);
    assert(e[0] == Effect::RequireAuth(escrow.admin));
    assert(e[1] == Effect::Store(DataKey::Admin, StoredValue::Addr(new_admin)));
    let e = escrow.set_fee_distributor_effects(fee_distributor);
    assert(e[0] == Effect::RequireAuth(escrow.admin));
    assert(e[1] == Effect::Store(DataKey::FeeDistributor, StoredValue::Addr(fee_distributor)));
}

/// Deployment stores its configuration as given: the admin under `Admin`,
/// the fee distributor under `FeeDistributor`, a zero count and a cleared
/// pause flag; only the admin signs and no funds move.
pub proof fn deployment_stores_its_configuration(admin: Address, fee_distributor: Address)
    ensures
        ({
            let e = construct_effects(admin, fee_distributor);
            &&& forall|k: int| 0 <= k < e.len() ==> (#[trigger] e[k] matches Effect::Store(key, v) ==> (key
                == DataKey::Admin ==> v == StoredValue::Addr(admin)) && (key == DataKey::FeeDistributor ==> v
                == StoredValue::Addr(fee_distributor)) && (key == DataKey::CampaignCount ==> v == StoredValue::Count(0))
                && (key == DataKey::Paused ==> v == StoredValue::Flag(false)) && !(key is Campaign))
            &&& e.contains(Effect::Store(DataKey::Admin, StoredValue::Addr(admin)))
            &&& e.contains(Effect::Store(DataKey::FeeDistributor, StoredValue::Addr(fee_distributor)))
            &&& e.contains(Effect::Store(DataKey::CampaignCount, StoredValue::Count(0)))
            &&& e.contains(Effect::Store(DataKey::Paused, StoredValue::Flag(false)))
            &&& forall|k: int| 0 <= k < e.len() ==> (#[trigger] e[k] matches Effect::RequireAuth(a) ==> a == admin)
            &&& e.contains(Effect::RequireAuth(admin))
            &&& forall|k: int| 0 <= k < e.len() ==> !(#[trigger] e[k] is Payout) && !(e[k] is Deposit)
        }),
{
    let e = construct_effects(admin, fee_distributor);
    assert(e[0] == Effect::RequireAuth(admin));
    assert(e[1] == Effect::Store(DataKey::Admin, StoredValue::Addr(admin)));
    assert(e[2] == Effect::Store(DataKey::FeeDistributor, StoredValue::Addr(fee_distributor)));
    assert(e[3] == Effect::Store(DataKey::CampaignCount, StoredValue::Count(0)));
    assert(e[4] == Effect::Store(DataKey::Paused, StoredValue::Flag(false)));
}

/// Creation is refused exactly when one of its rules is broken, and the
/// refusal names the first broken rule in this order: paused, then a
/// non-positive amount, then a rate above the cap, then a deadline not
/// strictly in the future or more than a year away.
pub proof fn creation_is_refused_exactly_when_a_rule_is_broken(
    paused: bool,
    now: u64,
    amount: i128,
    fee_bps: u32,
    deadline: u64,
)
    ensures
        create_check(paused, now, amount, fee_bps, deadline) is None <==> (!paused && amount > 0 && fee_bps
            <= MAX_FEE_BPS && now < deadline && deadline <= now + MAX_CAMPAIGN_DURATION_SECONDS),
        paused ==> create_check(paused, now, amount, fee_bps, deadline) == Some(Error::Paused),
        !paused && amount <= 0 ==> create_check(paused, now, amount, fee_bps, deadline) == Some(
            Error::InvalidAmount,
        ),
        !paused && amount > 0 && fee_bps > MAX_FEE_BPS ==> create_check(paused, now, amount, fee_bps, deadline)
            == Some(Error::InvalidFeeBps),
        !paused && amount > 0 && fee_bps <= MAX_FEE_BPS && (deadline <= now || deadline > now
            + MAX_CAMPAIGN_DURATION_SECONDS) ==> create_check(paused, now, amount, fee_bps, deadline) == Some(
            Error::InvalidDeadline,
        ),
{
}

/// Settling refuses a missing campaign with `CampaignNotFound` and a
/// settled one with `InvalidStatus`; a refund of a pending campaign is
/// refused with `NotYetExpired` exactly while `now` is before its deadline.
pub proof fn settlement_refusals(stored: Option<Campaign>, now: u64)
    ensures
        stored is None ==> settle_check(stored) == Some(Error::CampaignNotFound) && refund_check(stored, now)
            == Some(Error::CampaignNotFound),
        stored matches Some(c) ==> (c.status != CampaignStatus::Pending ==> settle_check(stored) == Some(
            Error::InvalidStatus,
        ) && refund_check(stored, now) == Some(Error::InvalidStatus)),
        stored matches Some(c) ==> (c.status == CampaignStatus::Pending ==> settle_check(stored) is None && (
        now < c.deadline ==> refund_check(stored, now) == Some(Error::NotYetExpired)) && (now >= c.deadline
            ==> refund_check(stored, now) is None)),
{
}

/// A reported split is accepted exactly when both parts are non-negative
/// and they add up to the campaign's amount; otherwise it is refused with
/// `InvalidSplit`.
pub proof fn split_is_accepted_exactly_when_it_adds_up(c: Campaign, fee: i128, net: i128)
    ensures
        split_check(c, fee, net) is None <==> (fee >= 0 && net >= 0 && fee + net == c.amount),
        split_check(c, fee, net) is Some ==> split_check(c, fee, net) == Some(Error::InvalidSplit),
{
}

/// Distinct errors are reported under distinct codes, all between 3 and 10.
pub proof fn error_codes_are_distinct(a: Error, b: Error)
    ensures
        3 <= a.spec_code() <= 10,
        a != b ==> a.spec_code() != b.spec_code(),
{
}

} // verus!
