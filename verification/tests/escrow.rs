use campaign_escrow::escrow::{
    Address, Campaign, CampaignStatus, DataKey, Effect, Error, Escrow, Event, StoredValue,
    CAMPAIGN_BUMP_AMOUNT, CAMPAIGN_LIFETIME_THRESHOLD, INSTANCE_BUMP_AMOUNT,
    INSTANCE_LIFETIME_THRESHOLD, MAX_CAMPAIGN_DURATION_SECONDS,
};
use campaign_escrow::fee_distribution::FeeDistribution;
use std::collections::HashMap;

// A small stand-in for the ledger host: it keeps the escrow's storage and
// the token balances, and carries out the effects the escrow returns, all or
// nothing, the way a host aborts an invocation whose authorization or
// transfer fails.

type Splitter = fn(i128, u32) -> Option<(i128, i128)>;

fn canonical_split(amount: i128, fee_bps: u32) -> Option<(i128, i128)> {
    FeeDistribution::compute_split(amount, fee_bps).ok()
}

/// Stand-in for a misbehaving fee distributor that reports a split which
/// overstates the campaign amount (`fee + net > amount`).
fn mismatched_split(amount: i128, _fee_bps: u32) -> Option<(i128, i128)> {
    Some((amount, amount))
}

/// Stand-in for a misbehaving fee distributor that reports a negative fee.
fn negative_fee_split(amount: i128, _fee_bps: u32) -> Option<(i128, i128)> {
    Some((-1, amount + 1))
}

#[derive(Debug, PartialEq)]
enum Failure {
    Contract(Error),
    Aborted(&'static str),
}

#[derive(Clone)]
struct World {
    escrow_address: Address,
    admin: Address,
    fee_distributor: Address,
    campaign_count: Option<u64>,
    paused: Option<bool>,
    campaigns: HashMap<u64, Campaign>,
    balances: HashMap<(String, String), i128>,
    now: u64,
    /// `None`: every authorization is granted (mocked); otherwise only these.
    authorized: Option<Vec<Address>>,
    distributors: HashMap<String, Splitter>,
    events: Vec<String>,
    instance_ttl_bumps: u32,
    campaign_ttl_bumps: Vec<u64>,
}

fn addr(s: &str) -> Address {
    Address::new(s.to_string())
}

impl World {
    fn escrow(&self) -> Escrow {
        Escrow::restore(self.admin.clone(), self.fee_distributor.clone(), self.campaign_count, self.paused)
    }

    fn balance(&self, token: &Address, who: &Address) -> i128 {
        *self.balances.get(&(token.strkey.clone(), who.strkey.clone())).unwrap_or(&0)
    }

    fn mint(&mut self, token: &Address, to: &Address, amount: i128) {
        let b = self.balance(token, to);
        self.balances.insert((token.strkey.clone(), to.strkey.clone()), b + amount);
    }

    fn transfer(&mut self, token: &Address, from: &Address, to: &Address, amount: i128) -> Result<(), Failure> {
        if amount < 0 {
            return Err(Failure::Aborted("negative transfer"));
        }
        let from_balance = self.balance(token, from);
        if from_balance < amount {
            return Err(Failure::Aborted("insufficient balance"));
        }
        self.balances.insert((token.strkey.clone(), from.strkey.clone()), from_balance - amount);
        let to_balance = self.balance(token, to);
        self.balances.insert((token.strkey.clone(), to.strkey.clone()), to_balance + amount);
        Ok(())
    }

    fn apply(&mut self, effect: Effect) -> Result<(), Failure> {
        match effect {
            Effect::RequireAuth(who) => match &self.authorized {
                None => Ok(()),
                Some(list) if list.contains(&who) => Ok(()),
                Some(_) => Err(Failure::Aborted("missing authorization")),
            },
            Effect::Deposit { token, from, amount } => {
                let this = self.escrow_address.clone();
                self.transfer(&token, &from, &this, amount)
            }
            Effect::Payout { token, to, amount } => {
                let this = self.escrow_address.clone();
                self.transfer(&token, &this, &to, amount)
            }
            Effect::Store(key, value) => {
                match (key, value) {
                    (DataKey::Admin, StoredValue::Addr(a)) => self.admin = a,
                    (DataKey::FeeDistributor, StoredValue::Addr(a)) => self.fee_distributor = a,
                    (DataKey::CampaignCount, StoredValue::Count(n)) => self.campaign_count = Some(n),
                    (DataKey::Paused, StoredValue::Flag(p)) => self.paused = Some(p),
                    (DataKey::Campaign(id), StoredValue::Campaign(c)) => {
                        self.campaigns.insert(id, c);
                    }
                    _ => return Err(Failure::Aborted("value does not match its key")),
                }
                Ok(())
            }
            Effect::ExtendInstanceTtl { threshold, extend_to } => {
                assert_eq!(threshold, INSTANCE_LIFETIME_THRESHOLD);
                assert_eq!(extend_to, INSTANCE_BUMP_AMOUNT);
                self.instance_ttl_bumps += 1;
                Ok(())
            }
            Effect::ExtendCampaignTtl { campaign_id, threshold, extend_to } => {
                assert_eq!(threshold, CAMPAIGN_LIFETIME_THRESHOLD);
                assert_eq!(extend_to, CAMPAIGN_BUMP_AMOUNT);
                self.campaign_ttl_bumps.push(campaign_id);
                Ok(())
            }
            Effect::Publish(event) => {
                self.events.push(format!("{:?}", event));
                Ok(())
            }
        }
    }

    /// Carries out `effects` in order; on the first failure nothing of
    /// them remains.
    fn run(&mut self, effects: Vec<Effect>) -> Result<(), Failure> {
        let mut next = self.clone();
        for effect in effects {
            next.apply(effect)?;
        }
        *self = next;
        Ok(())
    }

    fn set_paused(&mut self, paused: bool) -> Result<(), Failure> {
        let effects = self.escrow().set_paused(paused).map_err(Failure::Contract)?;
        self.run(effects)
    }

    fn set_admin(&mut self, new_admin: &Address) -> Result<(), Failure> {
        let effects = self.escrow().set_admin(new_admin.clone()).map_err(Failure::Contract)?;
        self.run(effects)
    }

    fn set_fee_distributor(&mut self, fee_distributor: &Address) -> Result<(), Failure> {
        let effects = self.escrow().set_fee_distributor(fee_distributor.clone()).map_err(Failure::Contract)?;
        self.run(effects)
    }

    fn bump_campaign_ttl(&mut self, id: u64) -> Result<(), Failure> {
        let exists = self.campaigns.contains_key(&id);
        let effects = self.escrow().bump_campaign_ttl(id, exists).map_err(Failure::Contract)?;
        self.run(effects)
    }

    fn bump_instance_ttl(&mut self) -> Result<(), Failure> {
        let effects = self.escrow().bump_instance_ttl();
        self.run(effects)
    }

    #[allow(clippy::too_many_arguments)]
    fn create_campaign(
        &mut self,
        depositor: &Address,
        payee: &Address,
        arbiter: &Address,
        token: &Address,
        amount: i128,
        fee_bps: u32,
        fee_recipient: &Address,
        deadline: u64,
    ) -> Result<u64, Failure> {
        let mut escrow = self.escrow();
        let (id, effects) = escrow
            .create_campaign(
                self.now,
                depositor.clone(),
                payee.clone(),
                arbiter.clone(),
                token.clone(),
                amount,
                fee_bps,
                fee_recipient.clone(),
                deadline,
            )
            .map_err(Failure::Contract)?;
        self.run(effects)?;
        Ok(id)
    }

    fn get_campaign(&self, id: u64) -> Result<Campaign, Failure> {
        Escrow::get_campaign(self.campaigns.get(&id).cloned()).map_err(Failure::Contract)
    }

    fn release(&mut self, id: u64) -> Result<(), Failure> {
        let escrow = self.escrow();
        let (campaign, query, mut effects) =
            escrow.begin_release(self.campaigns.get(&id).cloned()).map_err(Failure::Contract)?;
        let splitter = match self.distributors.get(&query.fee_distributor.strkey) {
            Some(s) => *s,
            None => return Err(Failure::Aborted("no such fee distributor")),
        };
        let (fee, net) = match splitter(query.amount, query.fee_bps) {
            Some(split) => split,
            None => return Err(Failure::Aborted("fee distributor failed")),
        };
        if fee >= 0 && net >= 0 && fee.checked_add(net).is_none() {
            return Err(Failure::Aborted("arithmetic overflow"));
        }
        // The arbiter's authorization is checked before the split is asked
        // for; a missing one aborts the whole invocation either way.
        let rest = escrow.release(id, campaign, fee, net).map_err(Failure::Contract)?;
        effects.extend(rest);
        self.run(effects)
    }

    fn refund(&mut self, id: u64) -> Result<(), Failure> {
        let effects =
            self.escrow().refund(id, self.campaigns.get(&id).cloned(), self.now).map_err(Failure::Contract)?;
        self.run(effects)
    }

    fn cancel(&mut self, id: u64) -> Result<(), Failure> {
        let effects = self.escrow().cancel(id, self.campaigns.get(&id).cloned()).map_err(Failure::Contract)?;
        self.run(effects)
    }

    fn register_fee_distributor(&mut self, strkey: &str, splitter: Splitter) -> Address {
        self.distributors.insert(strkey.to_string(), splitter);
        addr(strkey)
    }
}

struct Setup {
    w: World,
    token: Address,
    admin: Address,
    fee_distributor_id: Address,
    depositor: Address,
    payee: Address,
    arbiter: Address,
    fee_recipient: Address,
}

fn setup() -> Setup {
    let admin = addr("GADMIN");
    let fee_distributor_id = addr("CFEEDISTRIBUTOR");
    let (escrow, effects) = Escrow::new(admin.clone(), fee_distributor_id.clone());
    let mut w = World {
        escrow_address: addr("CESCROW"),
        admin: escrow.admin,
        fee_distributor: escrow.fee_distributor,
        campaign_count: None,
        paused: None,
        campaigns: HashMap::new(),
        balances: HashMap::new(),
        now: 1_700_000_000,
        authorized: None,
        distributors: HashMap::new(),
        events: Vec::new(),
        instance_ttl_bumps: 0,
        campaign_ttl_bumps: Vec::new(),
    };
    w.distributors.insert(fee_distributor_id.strkey.clone(), canonical_split);
    w.run(effects).unwrap();
    Setup {
        w,
        token: addr("CTOKEN"),
        admin,
        fee_distributor_id,
        depositor: addr("GDEPOSITOR"),
        payee: addr("GPAYEE"),
        arbiter: addr("GARBITER"),
        fee_recipient: addr("GFEERECIPIENT"),
    }
}

/// Default campaign deadline: 1000 seconds from "now" in the test ledger.
fn default_deadline(s: &Setup) -> u64 {
    s.w.now + 1_000
}

fn create_default_campaign(s: &mut Setup, amount: i128, fee_bps: u32) -> (u64, u64) {
    let deadline = default_deadline(s);
    let (depositor, payee, arbiter, token, fee_recipient) =
        (s.depositor.clone(), s.payee.clone(), s.arbiter.clone(), s.token.clone(), s.fee_recipient.clone());
    let id = s
        .w
        .create_campaign(&depositor, &payee, &arbiter, &token, amount, fee_bps, &fee_recipient, deadline)
        .unwrap();
    (id, deadline)
}

fn create_campaign_try(s: &mut Setup, amount: i128, fee_bps: u32, deadline: u64) -> bool {
    let (depositor, payee, arbiter, token, fee_recipient) =
        (s.depositor.clone(), s.payee.clone(), s.arbiter.clone(), s.token.clone(), s.fee_recipient.clone());
    s.w.create_campaign(&depositor, &payee, &arbiter, &token, amount, fee_bps, &fee_recipient, deadline)
        .is_err()
}

fn mint_to_depositor(s: &mut Setup, amount: i128) {
    let (token, depositor) = (s.token.clone(), s.depositor.clone());
    s.w.mint(&token, &depositor, amount);
}

fn escrow_balance(s: &Setup) -> i128 {
    s.w.balance(&s.token, &s.w.escrow_address)
}

#[test]
fn release_pays_fee_and_net_to_the_right_parties() {
    let mut s = setup();
    mint_to_depositor(&mut s, 1_000_000);
    let (id, _) = create_default_campaign(&mut s, 1_000_000, 250); // 2.5%

    assert_eq!(s.w.balance(&s.token, &s.depositor), 0);
    assert_eq!(escrow_balance(&s), 1_000_000);

    s.w.release(id).unwrap();

    assert_eq!(s.w.balance(&s.token, &s.fee_recipient), 25_000);
    assert_eq!(s.w.balance(&s.token, &s.payee), 975_000);
    assert_eq!(escrow_balance(&s), 0);
    assert_eq!(s.w.get_campaign(id).unwrap().status, CampaignStatus::Released);
}

#[test]
fn refund_after_deadline_returns_full_amount_to_depositor() {
    let mut s = setup();
    mint_to_depositor(&mut s, 500_000);
    let (id, deadline) = create_default_campaign(&mut s, 500_000, 500);

    s.w.now = deadline + 1;
    s.w.refund(id).unwrap();

    assert_eq!(s.w.balance(&s.token, &s.depositor), 500_000);
    assert_eq!(escrow_balance(&s), 0);
}

#[test]
fn refund_before_deadline_is_rejected() {
    let mut s = setup();
    mint_to_depositor(&mut s, 500_000);
    let (id, _) = create_default_campaign(&mut s, 500_000, 500);

    let result = s.w.refund(id);
    assert!(result.is_err());
}

#[test]
fn release_twice_is_rejected() {
    let mut s = setup();
    mint_to_depositor(&mut s, 200_000);
    let (id, _) = create_default_campaign(&mut s, 200_000, 0);

    s.w.release(id).unwrap();
    let result = s.w.release(id);
    assert!(result.is_err());
}

#[test]
fn pause_blocks_new_campaigns_but_never_blocks_existing_release_or_refund() {
    let mut s = setup();
    mint_to_depositor(&mut s, 300_000);
    let (id, deadline) = create_default_campaign(&mut s, 100_000, 0);

    s.w.set_paused(true).unwrap();

    let (depositor, payee, arbiter, token, fee_recipient) =
        (s.depositor.clone(), s.payee.clone(), s.arbiter.clone(), s.token.clone(), s.fee_recipient.clone());
    let result = s.w.create_campaign(&depositor, &payee, &arbiter, &token, 100_000, 0, &fee_recipient, deadline);
    assert!(result.is_err());

    // A campaign funded before the pause can still be released in full.
    s.w.release(id).unwrap();
    assert_eq!(s.w.balance(&s.token, &s.payee), 100_000);
}

#[test]
fn fee_bps_above_the_platform_cap_is_rejected() {
    let mut s = setup();
    mint_to_depositor(&mut s, 100_000);
    let deadline = default_deadline(&s);
    assert!(create_campaign_try(&mut s, 100_000, 2_001, deadline));
}

#[test]
fn deadline_further_than_max_campaign_duration_is_rejected() {
    let mut s = setup();
    mint_to_depositor(&mut s, 100_000);

    let too_far = s.w.now + MAX_CAMPAIGN_DURATION_SECONDS + 1;
    assert!(create_campaign_try(&mut s, 100_000, 0, too_far));
}

#[test]
fn mutual_cancel_requires_both_depositor_and_payee_and_refunds_in_full() {
    let mut s = setup();
    mint_to_depositor(&mut s, 400_000);
    let (id, _) = create_default_campaign(&mut s, 400_000, 0);

    s.w.cancel(id).unwrap();

    assert_eq!(s.w.balance(&s.token, &s.depositor), 400_000);
    assert_eq!(escrow_balance(&s), 0);
    assert_eq!(s.w.get_campaign(id).unwrap().status, CampaignStatus::Refunded);
}

#[test]
fn cancel_after_release_is_rejected() {
    let mut s = setup();
    mint_to_depositor(&mut s, 150_000);
    let (id, _) = create_default_campaign(&mut s, 150_000, 0);

    s.w.release(id).unwrap();
    let result = s.w.cancel(id);
    assert!(result.is_err());
}

#[test]
fn admin_can_rotate_admin_and_fee_distributor() {
    let mut s = setup();
    let new_admin = addr("GNEWADMIN");
    let new_fee_distributor = s.w.register_fee_distributor("CNEWFEEDISTRIBUTOR", canonical_split);

    s.w.set_fee_distributor(&new_fee_distributor).unwrap();
    s.w.set_admin(&new_admin).unwrap();
    s.w.set_paused(true).unwrap();
    s.w.set_paused(false).unwrap();

    assert_ne!(new_fee_distributor, s.fee_distributor_id);
    assert_ne!(new_admin, s.admin);
}

#[test]
fn bump_campaign_ttl_succeeds_for_existing_campaign_and_fails_for_missing_one() {
    let mut s = setup();
    mint_to_depositor(&mut s, 50_000);
    let (id, _) = create_default_campaign(&mut s, 50_000, 0);

    s.w.bump_campaign_ttl(id).unwrap();

    let missing_result = s.w.bump_campaign_ttl(id + 1);
    assert!(missing_result.is_err());
}

// --- Negative authorization tests ---
//
// Every test above grants every authorization. These switch to granting
// none immediately before the privileged call under test, so the only way
// it can succeed is if its authorization is not demanded.

#[test]
fn release_without_arbiter_auth_fails() {
    let mut s = setup();
    mint_to_depositor(&mut s, 100_000);
    let (id, _) = create_default_campaign(&mut s, 100_000, 0);

    s.w.authorized = Some(vec![]);
    let result = s.w.release(id);
    assert!(result.is_err());
}

#[test]
fn refund_without_depositor_auth_fails() {
    let mut s = setup();
    mint_to_depositor(&mut s, 100_000);
    let (id, deadline) = create_default_campaign(&mut s, 100_000, 0);
    s.w.now = deadline + 1;

    s.w.authorized = Some(vec![]);
    let result = s.w.refund(id);
    assert!(result.is_err());
}

#[test]
fn cancel_without_both_parties_auth_fails() {
    let mut s = setup();
    mint_to_depositor(&mut s, 100_000);
    let (id, _) = create_default_campaign(&mut s, 100_000, 0);

    s.w.authorized = Some(vec![]);
    let result = s.w.cancel(id);
    assert!(result.is_err());
}

#[test]
fn create_campaign_without_depositor_auth_fails() {
    let mut s = setup();
    mint_to_depositor(&mut s, 100_000);
    let deadline = default_deadline(&s);

    s.w.authorized = Some(vec![]);
    assert!(create_campaign_try(&mut s, 100_000, 0, deadline));
}

#[test]
fn set_paused_without_admin_auth_fails() {
    let mut s = setup();

    s.w.authorized = Some(vec![]);
    let result = s.w.set_paused(true);
    assert!(result.is_err());
}

#[test]
fn set_admin_without_admin_auth_fails() {
    let mut s = setup();
    let new_admin = addr("GNEWADMIN");

    s.w.authorized = Some(vec![]);
    let result = s.w.set_admin(&new_admin);
    assert!(result.is_err());
}

#[test]
fn set_fee_distributor_without_admin_auth_fails() {
    let mut s = setup();
    let new_fee_distributor = s.w.register_fee_distributor("CNEWFEEDISTRIBUTOR", canonical_split);

    s.w.authorized = Some(vec![]);
    let result = s.w.set_fee_distributor(&new_fee_distributor);
    assert!(result.is_err());
}

// --- Fee-distributor split validation ---

#[test]
fn release_rejects_a_split_that_overstates_the_campaign_amount() {
    let mut s = setup();
    mint_to_depositor(&mut s, 1_000_000);
    let (id, _) = create_default_campaign(&mut s, 1_000_000, 250);

    let bad_distributor = s.w.register_fee_distributor("CMISMATCHED", mismatched_split);
    s.w.set_fee_distributor(&bad_distributor).unwrap();

    let result = s.w.release(id);
    assert!(result.is_err());
    assert_eq!(escrow_balance(&s), 1_000_000);
}

#[test]
fn release_rejects_a_negative_fee() {
    let mut s = setup();
    mint_to_depositor(&mut s, 1_000_000);
    let (id, _) = create_default_campaign(&mut s, 1_000_000, 250);

    let bad_distributor = s.w.register_fee_distributor("CNEGATIVEFEE", negative_fee_split);
    s.w.set_fee_distributor(&bad_distributor).unwrap();

    let result = s.w.release(id);
    assert!(result.is_err());
    assert_eq!(escrow_balance(&s), 1_000_000);
}

// --- Instance TTL bump ---

#[test]
fn bump_instance_ttl_is_callable_by_anyone_and_keeps_the_contract_usable() {
    let mut s = setup();
    mint_to_depositor(&mut s, 10_000);

    s.w.authorized = Some(vec![]);
    s.w.bump_instance_ttl().unwrap();

    s.w.authorized = None;
    let (id, _) = create_default_campaign(&mut s, 10_000, 0);
    s.w.release(id).unwrap();
    assert_eq!(s.w.balance(&s.token, &s.payee), 10_000);
}

// --- Further scenarios ---

#[test]
fn each_escrow_refusal_names_its_reason() {
    let mut s = setup();
    mint_to_depositor(&mut s, 1_000_000);
    let now = s.w.now;
    let (depositor, payee, arbiter, token, fee_recipient) =
        (s.depositor.clone(), s.payee.clone(), s.arbiter.clone(), s.token.clone(), s.fee_recipient.clone());
    let mut create = |w: &mut World, amount: i128, fee_bps: u32, deadline: u64| {
        w.create_campaign(&depositor, &payee, &arbiter, &token, amount, fee_bps, &fee_recipient, deadline)
    };
    assert_eq!(create(&mut s.w, 0, 0, now + 10), Err(Failure::Contract(Error::InvalidAmount)));
    assert_eq!(create(&mut s.w, -5, 0, now + 10), Err(Failure::Contract(Error::InvalidAmount)));
    assert_eq!(create(&mut s.w, 10, 2_001, now + 10), Err(Failure::Contract(Error::InvalidFeeBps)));
    assert_eq!(create(&mut s.w, 10, 0, now), Err(Failure::Contract(Error::InvalidDeadline)));
    assert_eq!(create(&mut s.w, 10, 0, now - 1), Err(Failure::Contract(Error::InvalidDeadline)));
    assert_eq!(
        create(&mut s.w, 10, 0, now + MAX_CAMPAIGN_DURATION_SECONDS + 1),
        Err(Failure::Contract(Error::InvalidDeadline))
    );
    // Exactly one year out and exactly the fee cap are accepted.
    let id = create(&mut s.w, 10, 2_000, now + MAX_CAMPAIGN_DURATION_SECONDS).unwrap();
    assert_eq!(id, 0);

    assert_eq!(s.w.release(7), Err(Failure::Contract(Error::CampaignNotFound)));
    assert_eq!(s.w.refund(7), Err(Failure::Contract(Error::CampaignNotFound)));
    assert_eq!(s.w.cancel(7), Err(Failure::Contract(Error::CampaignNotFound)));
    assert_eq!(s.w.get_campaign(7), Err(Failure::Contract(Error::CampaignNotFound)));
    assert_eq!(s.w.bump_campaign_ttl(7), Err(Failure::Contract(Error::CampaignNotFound)));
    assert_eq!(s.w.refund(id), Err(Failure::Contract(Error::NotYetExpired)));

    s.w.set_paused(true).unwrap();
    assert_eq!(create(&mut s.w, 10, 0, now + 10), Err(Failure::Contract(Error::Paused)));
    // Paused is reported before any other problem.
    assert_eq!(create(&mut s.w, 0, 9_999, now), Err(Failure::Contract(Error::Paused)));
}

#[test]
fn escrow_error_codes_match_the_contract_interface() {
    let all = [
        (Error::Paused, 3),
        (Error::InvalidAmount, 4),
        (Error::InvalidFeeBps, 5),
        (Error::InvalidDeadline, 6),
        (Error::CampaignNotFound, 7),
        (Error::InvalidStatus, 8),
        (Error::NotYetExpired, 9),
        (Error::InvalidSplit, 10),
    ];
    for (e, code) in all {
        assert_eq!(e.code(), code);
    }
}

#[test]
fn campaign_ids_are_sequential_and_the_count_is_stored() {
    let mut s = setup();
    mint_to_depositor(&mut s, 30);
    assert_eq!(create_default_campaign(&mut s, 10, 0).0, 0);
    assert_eq!(create_default_campaign(&mut s, 10, 0).0, 1);
    assert_eq!(create_default_campaign(&mut s, 10, 0).0, 2);
    assert_eq!(s.w.campaign_count, Some(3));
    assert_eq!(s.w.campaign_ttl_bumps, vec![0, 1, 2]);
    // The constructor and every creation keep the instance alive.
    assert_eq!(s.w.instance_ttl_bumps, 4);
}

#[test]
fn refund_is_possible_exactly_from_the_deadline() {
    let mut s = setup();
    mint_to_depositor(&mut s, 1_000);
    let (id, deadline) = create_default_campaign(&mut s, 1_000, 100);
    s.w.now = deadline - 1;
    assert_eq!(s.w.refund(id), Err(Failure::Contract(Error::NotYetExpired)));
    s.w.now = deadline;
    s.w.refund(id).unwrap();
    assert_eq!(s.w.balance(&s.token, &s.depositor), 1_000);
}

#[test]
fn a_settled_campaign_can_never_be_settled_again() {
    let mut s = setup();
    mint_to_depositor(&mut s, 3_000);
    let (released, deadline) = create_default_campaign(&mut s, 1_000, 0);
    let (refunded, _) = create_default_campaign(&mut s, 1_000, 0);
    let (cancelled, _) = create_default_campaign(&mut s, 1_000, 0);
    s.w.release(released).unwrap();
    s.w.now = deadline;
    s.w.refund(refunded).unwrap();
    s.w.cancel(cancelled).unwrap();
    for id in [released, refunded, cancelled] {
        assert_eq!(s.w.release(id), Err(Failure::Contract(Error::InvalidStatus)));
        assert_eq!(s.w.refund(id), Err(Failure::Contract(Error::InvalidStatus)));
        assert_eq!(s.w.cancel(id), Err(Failure::Contract(Error::InvalidStatus)));
    }
    assert_eq!(escrow_balance(&s), 0);
}

#[test]
fn pooled_balance_always_equals_what_pending_campaigns_are_owed() {
    let mut s = setup();
    mint_to_depositor(&mut s, 10_000_000);
    let owed = |w: &World, token: &Address| -> i128 {
        w.campaigns
            .values()
            .filter(|c| c.status == CampaignStatus::Pending && &c.token == token)
            .map(|c| c.amount)
            .sum()
    };
    let (a, deadline) = create_default_campaign(&mut s, 1_000_000, 250);
    let (b, _) = create_default_campaign(&mut s, 333_333, 333);
    let (c, _) = create_default_campaign(&mut s, 777, 2_000);
    assert_eq!(escrow_balance(&s), owed(&s.w, &s.token));
    s.w.release(b).unwrap();
    assert_eq!(escrow_balance(&s), owed(&s.w, &s.token));
    let bad = s.w.register_fee_distributor("CMISMATCHED", mismatched_split);
    s.w.set_fee_distributor(&bad).unwrap();
    assert_eq!(s.w.release(a), Err(Failure::Contract(Error::InvalidSplit)));
    assert_eq!(escrow_balance(&s), owed(&s.w, &s.token));
    s.w.cancel(c).unwrap();
    assert_eq!(escrow_balance(&s), owed(&s.w, &s.token));
    s.w.now = deadline;
    s.w.refund(a).unwrap();
    assert_eq!(escrow_balance(&s), 0);
    assert_eq!(owed(&s.w, &s.token), 0);
}

#[test]
fn release_rejects_a_split_that_understates_or_goes_negative_on_net() {
    let mut s = setup();
    mint_to_depositor(&mut s, 1_000);
    let (id, _) = create_default_campaign(&mut s, 1_000, 0);
    let campaign = s.w.get_campaign(id).unwrap();
    let escrow = s.w.escrow();
    assert_eq!(escrow.release(id, campaign.clone(), 10, 989), Err(Error::InvalidSplit));
    assert_eq!(escrow.release(id, campaign.clone(), 1_001, -1), Err(Error::InvalidSplit));
    assert_eq!(escrow.release(id, campaign.clone(), -1, 1_001), Err(Error::InvalidSplit));
    assert!(escrow.release(id, campaign, 1_000, 0).is_ok());
}

#[test]
fn release_writes_the_status_before_paying_and_skips_zero_payouts() {
    let mut s = setup();
    mint_to_depositor(&mut s, 1_000);
    let (id, _) = create_default_campaign(&mut s, 1_000, 0);
    let campaign = s.w.get_campaign(id).unwrap();
    let effects = s.w.escrow().release(id, campaign.clone(), 0, 1_000).unwrap();
    let mut released = campaign.clone();
    released.status = CampaignStatus::Released;
    assert_eq!(effects.len(), 3);
    assert_eq!(effects[0], Effect::Store(DataKey::Campaign(id), StoredValue::Campaign(released)));
    assert_eq!(effects[1], Effect::Payout { token: s.token.clone(), to: s.payee.clone(), amount: 1_000 });
    assert!(matches!(effects[2], Effect::Publish(Event::Released(_))));

    let effects = s.w.escrow().release(id, campaign, 1_000, 0).unwrap();
    assert_eq!(effects.len(), 3);
    assert_eq!(effects[1], Effect::Payout { token: s.token.clone(), to: s.fee_recipient.clone(), amount: 1_000 });
}

#[test]
fn a_full_split_from_the_fee_calculator_pays_nobody_more_than_the_amount() {
    let mut s = setup();
    mint_to_depositor(&mut s, 999);
    let (id, _) = create_default_campaign(&mut s, 999, 333);
    s.w.release(id).unwrap();
    assert_eq!(s.w.balance(&s.token, &s.fee_recipient), 33);
    assert_eq!(s.w.balance(&s.token, &s.payee), 966);
    assert_eq!(escrow_balance(&s), 0);
}

#[test]
fn cancel_needs_the_payee_as_well_as_the_depositor() {
    let mut s = setup();
    mint_to_depositor(&mut s, 1_000);
    let (id, _) = create_default_campaign(&mut s, 1_000, 0);
    s.w.authorized = Some(vec![s.depositor.clone()]);
    assert_eq!(s.w.cancel(id), Err(Failure::Aborted("missing authorization")));
    s.w.authorized = Some(vec![s.payee.clone()]);
    assert_eq!(s.w.cancel(id), Err(Failure::Aborted("missing authorization")));
    s.w.authorized = Some(vec![s.depositor.clone(), s.payee.clone()]);
    s.w.cancel(id).unwrap();
    assert_eq!(s.w.balance(&s.token, &s.depositor), 1_000);
}

#[test]
fn rotated_admin_is_the_one_that_must_sign() {
    let mut s = setup();
    let new_admin = addr("GNEWADMIN");
    s.w.set_admin(&new_admin).unwrap();
    s.w.authorized = Some(vec![s.admin.clone()]);
    assert_eq!(s.w.set_paused(true), Err(Failure::Aborted("missing authorization")));
    s.w.authorized = Some(vec![new_admin.clone()]);
    s.w.set_paused(true).unwrap();
    assert_eq!(s.w.paused, Some(true));
    assert_eq!(
        s.w.events.last().unwrap(),
        &format!("{:?}", Event::PausedUpdated(campaign_escrow::escrow::PausedUpdated { paused: true }))
    );
}

#[test]
fn restore_reads_missing_count_and_flag_as_defaults() {
    let e = Escrow::restore(addr("GA"), addr("CF"), None, None);
    assert_eq!(e.campaign_count, 0);
    assert!(!e.paused);
    let e = Escrow::restore(addr("GA"), addr("CF"), Some(5), Some(true));
    assert_eq!(e.campaign_count, 5);
    assert!(e.paused);
}

#[test]
fn construction_demands_the_admin_and_writes_a_fresh_configuration() {
    let (escrow, effects) = Escrow::new(addr("GA"), addr("CF"));
    assert_eq!(escrow.campaign_count, 0);
    assert!(!escrow.paused);
    assert_eq!(effects[0], Effect::RequireAuth(addr("GA")));
    assert_eq!(effects.len(), 6);
}

#[test]
fn every_change_is_published_and_ttl_bumps_need_no_signature() {
    let mut s = setup();
    mint_to_depositor(&mut s, 3_000);
    let mut seen = s.w.events.len();
    let mut expect_one_more = |w: &World| {
        assert_eq!(w.events.len(), seen + 1);
        seen += 1;
    };
    let (a, deadline) = create_default_campaign(&mut s, 1_000, 100);
    expect_one_more(&s.w);
    let (b, _) = create_default_campaign(&mut s, 1_000, 100);
    expect_one_more(&s.w);
    let (c, _) = create_default_campaign(&mut s, 1_000, 100);
    expect_one_more(&s.w);
    s.w.release(a).unwrap();
    expect_one_more(&s.w);
    s.w.cancel(b).unwrap();
    expect_one_more(&s.w);
    s.w.now = deadline;
    s.w.refund(c).unwrap();
    expect_one_more(&s.w);
    s.w.set_paused(true).unwrap();
    expect_one_more(&s.w);
    let admin = s.admin.clone();
    s.w.set_admin(&admin).unwrap();
    expect_one_more(&s.w);
    let fd = s.fee_distributor_id.clone();
    s.w.set_fee_distributor(&fd).unwrap();
    expect_one_more(&s.w);

    s.w.authorized = Some(vec![]);
    s.w.bump_campaign_ttl(a).unwrap();
    s.w.bump_instance_ttl().unwrap();
    assert_eq!(s.w.events.len(), seen);
}
