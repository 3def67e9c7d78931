//! The crowdfunding ledger: campaigns with a fundraising target, a
//! donor ledger ordered most-recent-first, a three-way payment split
//! and a reward issued to the donor.

use vstd::prelude::*;

use vstd::arithmetic::div_mod::{
    lemma_div_by_multiple, lemma_div_denominator, lemma_fundamental_div_mod, lemma_mod_bound,
};

use crate::errors::CampaignError;
use crate::{scaled_amount, AccountId, Transfer, REWARD_FACTOR, SCALE_FACTOR};

verus! {

/// Percentage of every donation owed to the campaign owner.
pub const OWNER_PER: i128 = 95;

/// Percentage of every donation owed to the launchpad account.
pub const LAUNCHPAD_PER: i128 = 2;

/// Percentage of every donation owed to the development account.
pub const DEV_PER: i128 = 3;

/// Largest raw amount a donation may carry, namely
/// `i128::MAX / SCALE_FACTOR / OWNER_PER`: above it the scaled share
/// products no longer fit in `i128` and the host would trap.
pub const MAX_DONATION_AMOUNT: i128 = 179_095_982_589_967_612_349_144_530_227;

/// The percentage sum is recomputed from the constants rather than
/// assumed to equal 100, so a change of one constant cannot silently
/// skew the split.
pub open spec fn percentage_total() -> int {
    OWNER_PER + LAUNCHPAD_PER + DEV_PER
}

/// The share owed to a role, in the raw denomination: the scaled
/// amount is multiplied by the role's percentage, floor-divided by the
/// recomputed percentage sum, and the result descaled by another floor
/// division.
pub open spec fn donation_share(amount: i128, percentage: i128) -> int {
    scaled_amount(amount) * percentage / percentage_total() / (SCALE_FACTOR as int)
}

/// For every raw amount a donation may carry, the nested floor
/// divisions collapse to one floor division in the raw denomination;
/// each share is non-negative — and positive whenever the donation is
/// large enough for the splitter at all; the shares together never
/// exceed the raw amount (the floor divisions may drop at most three
/// raw units of dust, which is not redistributed); and each share is
/// proportional to its configured percentage up to floor-division
/// rounding.
pub proof fn lemma_donation_split_bounds(amount: i128)
    requires
        0 < amount <= MAX_DONATION_AMOUNT,
    ensures
        donation_share(amount, OWNER_PER) == amount * OWNER_PER / percentage_total(),
        donation_share(amount, LAUNCHPAD_PER) == amount * LAUNCHPAD_PER / percentage_total(),
        donation_share(amount, DEV_PER) == amount * DEV_PER / percentage_total(),
        0 <= donation_share(amount, OWNER_PER),
        0 <= donation_share(amount, LAUNCHPAD_PER),
        0 <= donation_share(amount, DEV_PER),
        donation_share(amount, OWNER_PER) + donation_share(amount, LAUNCHPAD_PER) + donation_share(
            amount,
            DEV_PER,
        ) <= amount,
        amount - 3 < donation_share(amount, OWNER_PER) + donation_share(amount, LAUNCHPAD_PER)
            + donation_share(amount, DEV_PER),
        amount >= 50 ==> 0 < donation_share(amount, OWNER_PER) && 0 < donation_share(
            amount,
            LAUNCHPAD_PER,
        ) && 0 < donation_share(amount, DEV_PER),
        percentage_total() * donation_share(amount, OWNER_PER) <= OWNER_PER * amount,
        OWNER_PER * amount - percentage_total() < percentage_total() * donation_share(
            amount,
            OWNER_PER,
        ),
        percentage_total() * donation_share(amount, LAUNCHPAD_PER) <= LAUNCHPAD_PER * amount,
        LAUNCHPAD_PER * amount - percentage_total() < percentage_total() * donation_share(
            amount,
            LAUNCHPAD_PER,
        ),
        percentage_total() * donation_share(amount, DEV_PER) <= DEV_PER * amount,
        DEV_PER * amount - percentage_total() < percentage_total() * donation_share(
            amount,
            DEV_PER,
        ),
{
    let s = scaled_amount(amount);
    let total = percentage_total();
    let sc = SCALE_FACTOR as int;
    let no = amount * OWNER_PER;
    let nl = amount * LAUNCHPAD_PER;
    let nd = amount * DEV_PER;
    assert(0 <= s && no == amount * 95 && nl == amount * 2 && nd == amount * 3 && s * OWNER_PER
        == no * sc && s * LAUNCHPAD_PER == nl * sc && s * DEV_PER == nd * sc) by (nonlinear_arith)
        requires
            0 < amount,
            s == amount * (SCALE_FACTOR as int),
            sc == SCALE_FACTOR as int,
            SCALE_FACTOR == 10_000_000,
            OWNER_PER == 95,
            LAUNCHPAD_PER == 2,
            DEV_PER == 3,
            no == amount * OWNER_PER,
            nl == amount * LAUNCHPAD_PER,
            nd == amount * DEV_PER,
    ;
    lemma_div_denominator(s * OWNER_PER, total, sc);
    lemma_div_denominator(no * sc, sc, total);
    lemma_div_by_multiple(no, sc);
    lemma_div_denominator(s * LAUNCHPAD_PER, total, sc);
    lemma_div_denominator(nl * sc, sc, total);
    lemma_div_by_multiple(nl, sc);
    lemma_div_denominator(s * DEV_PER, total, sc);
    lemma_div_denominator(nd * sc, sc, total);
    lemma_div_by_multiple(nd, sc);
    assert(donation_share(amount, OWNER_PER) == no / total);
    assert(donation_share(amount, LAUNCHPAD_PER) == nl / total);
    assert(donation_share(amount, DEV_PER) == nd / total);
    lemma_fundamental_div_mod(no, total);
    lemma_mod_bound(no, total);
    lemma_fundamental_div_mod(nl, total);
    lemma_mod_bound(nl, total);
    lemma_fundamental_div_mod(nd, total);
    lemma_mod_bound(nd, total);
    let qo = no / total;
    let ql = nl / total;
    let qd = nd / total;
    let mo = no % total;
    let ml = nl % total;
    let md = nd % total;
    assert(0 <= qo && 0 <= ql && 0 <= qd && qo + ql + qd <= amount && amount - 3 < qo + ql + qd
        && (amount >= 50 ==> 0 < qo && 0 < ql && 0 < qd) && total * qo <= 95 * amount && 95
        * amount - total < total * qo && total * ql <= 2 * amount && 2 * amount - total < total
        * ql && total * qd <= 3 * amount && 3 * amount - total < total * qd) by (nonlinear_arith)
        requires
            0 < amount,
            total == 100,
            no == amount * 95,
            nl == amount * 2,
            nd == amount * 3,
            no == total * qo + mo,
            nl == total * ql + ml,
            nd == total * qd + md,
            0 <= mo < total,
            0 <= ml < total,
            0 <= md < total,
    ;
}

/// A crowdfunding campaign.  `amount_collected` grows by exactly the
/// donated amount per successful donation and never exceeds `target`;
/// `donators` and `donations` record the donors and their amounts,
/// most recent first.
#[derive(Debug, PartialEq, Eq)]
pub struct Campaign {
    pub id: u32,
    pub owner: AccountId,
    pub title: String,
    pub description: String,
    pub target: i128,
    pub deadline: u64,
    pub amount_collected: i128,
    pub status: bool,
    pub image: String,
    pub category: String,
    pub donators: Vec<AccountId>,
    pub donations: Vec<i128>,
}

/// Observational equality of campaigns: every scalar and text field
/// equal, and the two ledgers equal element by element.
pub open spec fn campaign_equiv(a: Campaign, b: Campaign) -> bool {
    &&& a.id == b.id
    &&& a.owner == b.owner
    &&& a.title == b.title
    &&& a.description == b.description
    &&& a.target == b.target
    &&& a.deadline == b.deadline
    &&& a.amount_collected == b.amount_collected
    &&& a.status == b.status
    &&& a.image == b.image
    &&& a.category == b.category
    &&& a.donators@ == b.donators@
    &&& a.donations@ == b.donations@
}

impl Clone for Campaign {
    fn clone(&self) -> (res: Self)
        ensures
            campaign_equiv(res, *self),
    {
        let donators = self.donators.clone();
        let donations = self.donations.clone();
        proof {
            assert(donators@ =~= self.donators@);
            assert(donations@ =~= self.donations@);
        }
        Campaign {
            id: self.id,
            owner: self.owner,
            title: self.title.clone(),
            description: self.description.clone(),
            target: self.target,
            deadline: self.deadline,
            amount_collected: self.amount_collected,
            status: self.status,
            image: self.image.clone(),
            category: self.category.clone(),
            donators,
            donations,
        }
    }
}

/// How one successful donation of `amount` by `donor` rewrites a
/// campaign: the collected amount grows by exactly `amount`, the donor
/// and the amount are prepended to the ledgers (most recent first),
/// and every other field stays unchanged.
pub open spec fn donation_recorded(
    c0: Campaign,
    c1: Campaign,
    donor: AccountId,
    amount: i128,
) -> bool {
    &&& c1.id == c0.id
    &&& c1.owner == c0.owner
    &&& c1.title == c0.title
    &&& c1.description == c0.description
    &&& c1.target == c0.target
    &&& c1.deadline == c0.deadline
    &&& c1.amount_collected == c0.amount_collected + amount
    &&& c1.status == c0.status
    &&& c1.image == c0.image
    &&& c1.category == c0.category
    &&& c1.donators@ == c0.donators@.insert(0, donor)
    &&& c1.donations@ == c0.donations@.insert(0, amount)
}

/// The record `get_campaign` hands back when nothing is stored under
/// the requested identifier: id zero is never assigned to a real
/// campaign and marks the miss.
pub open spec fn is_sentinel_campaign(c: Campaign) -> bool {
    &&& c.id == 0
    &&& c.owner == 0
    &&& c.title@ == Seq::<char>::empty()
    &&& c.description@ == Seq::<char>::empty()
    &&& c.target == 0
    &&& c.deadline == 0
    &&& c.amount_collected == 0
    &&& c.status == false
    &&& c.image@ == Seq::<char>::empty()
    &&& c.category@ == Seq::<char>::empty()
    &&& c.donators@ == Seq::<AccountId>::empty()
    &&& c.donations@ == Seq::<i128>::empty()
}

/// The role bindings of the crowdfunding ledger, set exactly once by
/// `initialize`: the development and launchpad beneficiaries, the
/// reward token contract and its administrator.
#[derive(Clone, Copy, Debug, PartialEq, Eq, Structural)]
pub struct CrowdAccounts {
    pub dev: AccountId,
    pub launchpad: AccountId,
    pub token: AccountId,
    pub admin: AccountId,
}

/// The whole state of the crowdfunding ledger: the role registry, the
/// campaign counter and the campaign store, keyed densely by id.
pub struct CrowdFund {
    pub accounts: Option<CrowdAccounts>,
    pub counter: u32,
    pub campaigns: Vec<Campaign>,
}

impl CrowdFund {
    /// A campaign the store may hold: the ledgers pair donors with
    /// amounts, nothing has been collected beyond the target, and the
    /// collected amount never turns negative.
    pub open spec fn campaign_inv(c: Campaign) -> bool {
        &&& c.donators@.len() == c.donations@.len()
        &&& 0 <= c.amount_collected
        &&& c.amount_collected == 0 || c.amount_collected <= c.target
    }

    /// Identifiers are dense: the counter equals the number of stored
    /// campaigns and slot `i` holds the campaign with id `i + 1`, so
    /// id zero is never occupied.
    pub open spec fn wf(self) -> bool {
        &&& self.counter as int == self.campaigns@.len()
        &&& forall|i: int|
            0 <= i < self.campaigns@.len() ==> (#[trigger] self.campaigns@[i]).id as int == i + 1
        &&& forall|i: int|
            0 <= i < self.campaigns@.len() ==> Self::campaign_inv(#[trigger] self.campaigns@[i])
    }

    /// Whether the role registry has been populated.
    pub open spec fn initialized(self) -> bool {
        self.accounts is Some
    }

    /// The role bindings; meaningful only once initialized.
    pub open spec fn roles(self) -> CrowdAccounts {
        self.accounts->Some_0
    }

    /// Whether a campaign is stored under `id`.
    pub open spec fn has_campaign(self, id: u32) -> bool {
        1 <= id <= self.counter
    }

    /// The campaign stored under `id`; meaningful only when
    /// `has_campaign(id)` holds.
    pub open spec fn campaign_at(self, id: u32) -> Campaign {
        self.campaigns@[id as int - 1]
    }

    /// An empty ledger: no bindings, no campaigns.
    pub fn new() -> (c: CrowdFund)
        ensures
            c.wf(),
            !c.initialized(),
            c.counter == 0,
            c.campaigns@ == Seq::<Campaign>::empty(),
    {
        CrowdFund { accounts: None, counter: 0, campaigns: Vec::new() }
    }

    /// Populates the role registry, exactly once.  A second call fails
    /// with `AlreadyInitialized` and leaves every binding unchanged.
    ///
    /// The host must have authenticated `admin` as the caller of the
    /// current invocation before this runs.
    pub fn initialize(
        &mut self,
        dev_acc: AccountId,
        launchpad_acc: AccountId,
        token: AccountId,
        admin: AccountId,
    ) -> (r: Result<String, CampaignError>)
        ensures
            old(self).initialized() ==> {
                &&& r == Err::<String, CampaignError>(CampaignError::AlreadyInitialized)
                &&& *final(self) == *old(self)
            },
            !old(self).initialized() ==> {
                &&& final(self).accounts == Some(
                    (CrowdAccounts { dev: dev_acc, launchpad: launchpad_acc, token, admin }),
                )
                &&& final(self).counter == old(self).counter
                &&& final(self).campaigns == old(self).campaigns
                &&& r matches Ok(s) && s@ == "Initialized"@
            },
    {
        if self.accounts.is_some() {
            return Err(CampaignError::AlreadyInitialized);
        }
        self.accounts = Some(
            CrowdAccounts { dev: dev_acc, launchpad: launchpad_acc, token, admin },
        );
        Ok(String::from_str("Initialized"))
    }

    /// Creates a new campaign under the next identifier.  `now` is
    /// the current ledger time: the deadline must lie strictly in the
    /// future, else the call fails with `DeadlineShouldBeFuture` and
    /// the counter stays unchanged.
    pub fn create_campaign(
        &mut self,
        now: u64,
        owner: AccountId,
        title: String,
        description: String,
        image: String,
        target: i128,
        deadline: u64,
        category: String,
    ) -> (r: Result<Campaign, CampaignError>)
        requires
            old(self).wf(),
            now < deadline ==> old(self).counter < u32::MAX,
        ensures
            final(self).wf(),
            final(self).accounts == old(self).accounts,
            deadline <= now ==> {
                &&& r == Err::<Campaign, CampaignError>(CampaignError::DeadlineShouldBeFuture)
                &&& *final(self) == *old(self)
            },
            now < deadline ==> {
                &&& final(self).counter == old(self).counter + 1
                &&& final(self).campaigns@ == old(self).campaigns@.push(
                    final(self).campaigns@.last(),
                )
                &&& final(self).campaigns@.last().id == old(self).counter + 1
                &&& final(self).campaigns@.last().owner == owner
                &&& final(self).campaigns@.last().title == title
                &&& final(self).campaigns@.last().description == description
                &&& final(self).campaigns@.last().target == target
                &&& final(self).campaigns@.last().deadline == deadline
                &&& final(self).campaigns@.last().amount_collected == 0
                &&& final(self).campaigns@.last().status == true
                &&& final(self).campaigns@.last().image == image
                &&& final(self).campaigns@.last().category == category
                &&& final(self).campaigns@.last().donators@ == Seq::<AccountId>::empty()
                &&& final(self).campaigns@.last().donations@ == Seq::<i128>::empty()
                &&& r matches Ok(c) && campaign_equiv(c, final(self).campaigns@.last())
            },
    {
        if deadline <= now {
            return Err(CampaignError::DeadlineShouldBeFuture);
        }
        let mut count_id: u32 = self.counter;
        count_id = count_id + 1;

        let check_campaign = self.get_campaign(count_id);
        if check_campaign.id == count_id {
            return Err(CampaignError::CampaignAlreadyExist);
        }
        if count_id == 0 {
            return Err(CampaignError::IdCampaignMustNonZero);
        }
        let campaign = Campaign {
            id: count_id,
            owner,
            title,
            description,
            target,
            deadline,
            amount_collected: 0,
            status: true,
            image,
            category,
            donators: Vec::new(),
            donations: Vec::new(),
        };
        let result = campaign.clone();
        self.counter = count_id;
        self.campaigns.push(campaign);
        Ok(result)
    }

    /// The campaign stored under `campaign_id`, or the sentinel record
    /// when nothing is stored there.  Never fails.
    pub fn get_campaign(&self, campaign_id: u32) -> (r: Campaign)
        requires
            self.wf(),
        ensures
            self.has_campaign(campaign_id) ==> campaign_equiv(r, self.campaign_at(campaign_id)),
            !self.has_campaign(campaign_id) ==> is_sentinel_campaign(r),
    {
        if 1 <= campaign_id && campaign_id <= self.counter {
            let idx = (campaign_id - 1) as usize;
            self.campaigns[idx].clone()
        } else {
            Campaign {
                id: 0,
                owner: 0,
                title: String::new(),
                description: String::new(),
                target: 0,
                deadline: 0,
                amount_collected: 0,
                status: false,
                image: String::new(),
                category: String::new(),
                donators: Vec::new(),
                donations: Vec::new(),
            }
        }
    }

    /// All stored campaigns, in ascending id order.
    pub fn get_campaigns(&self) -> (r: Vec<Campaign>)
        requires
            self.wf(),
        ensures
            r@.len() == self.campaigns@.len(),
            forall|i: int|
                0 <= i < r@.len() ==> campaign_equiv(#[trigger] r@[i], self.campaigns@[i]),
    {
        let mut campaigns: Vec<Campaign> = Vec::new();
        let mut idx: usize = 0;
        while idx < self.campaigns.len()
            invariant
                self.wf(),
                idx <= self.campaigns@.len(),
                campaigns@.len() == idx,
                forall|i: int|
                    0 <= i < idx ==> campaign_equiv(#[trigger] campaigns@[i], self.campaigns@[i]),
            decreases self.campaigns@.len() - idx,
        {
            let campaign = self.get_campaign((idx as u32) + 1);
            campaigns.push(campaign);
            idx = idx + 1;
        }
        campaigns
    }

    /// The donors of campaign `id`, most recent first.
    pub fn get_donators(&self, id: u32) -> (r: Result<Vec<AccountId>, CampaignError>)
        requires
            self.wf(),
        ensures
            self.has_campaign(id) ==> (r matches Ok(v) && v@ == self.campaign_at(id).donators@),
            !self.has_campaign(id) ==> r == Err::<Vec<AccountId>, CampaignError>(
                CampaignError::CampaignNotExist,
            ),
    {
        if 1 <= id && id <= self.counter {
            let idx = (id - 1) as usize;
            let donators = self.campaigns[idx].donators.clone();
            proof {
                assert(donators@ =~= self.campaign_at(id).donators@);
            }
            Ok(donators)
        } else {
            Err(CampaignError::CampaignNotExist)
        }
    }

    /// Splits a raw donation into the descaled shares of the three
    /// roles.
    fn split_donation(amount: i128) -> (shares: (i128, i128, i128))
        requires
            0 < amount <= MAX_DONATION_AMOUNT,
        ensures
            shares.0 == donation_share(amount, OWNER_PER),
            shares.1 == donation_share(amount, LAUNCHPAD_PER),
            shares.2 == donation_share(amount, DEV_PER),
    {
        let total_percentage: i128 = OWNER_PER + LAUNCHPAD_PER + DEV_PER;
        let real_amount: i128 = amount * SCALE_FACTOR;
        let owner_amount: i128 = (real_amount * OWNER_PER) / total_percentage / SCALE_FACTOR;
        let launchpad_amount: i128 = (real_amount * LAUNCHPAD_PER) / total_percentage
            / SCALE_FACTOR;
        let dev_amount: i128 = (real_amount * DEV_PER) / total_percentage / SCALE_FACTOR;
        (owner_amount, launchpad_amount, dev_amount)
    }

    /// Donates `amount` units of the token `token_id` to campaign
    /// `id`, paid by `donor`.
    ///
    /// On success the descaled shares `(owner, launchpad, dev)` are
    /// returned; the host must then move each share from the donor to
    /// its beneficiary and issue the donor's reward (see
    /// [`Self::donate_transfers`]), aborting the whole call if any
    /// movement fails.  The collected amount grows by exactly
    /// `amount` and the donor is prepended to the donor ledger.
    ///
    /// The host must have authenticated `donor` as the caller of the
    /// current invocation before this runs.
    pub fn donate_to_campaign(
        &mut self,
        id: u32,
        donor: AccountId,
        amount: i128,
        token_id: AccountId,
    ) -> (r: Result<(i128, i128, i128), CampaignError>)
        requires
            old(self).wf(),
            amount <= MAX_DONATION_AMOUNT,
        ensures
            final(self).wf(),
            final(self).counter == old(self).counter,
            final(self).accounts == old(self).accounts,
            amount <= 0 ==> {
                &&& r == Err::<(i128, i128, i128), CampaignError>(CampaignError::AmountMustNonZero)
                &&& *final(self) == *old(self)
            },
            amount > 0 && !old(self).has_campaign(id) ==> {
                &&& r == Err::<(i128, i128, i128), CampaignError>(CampaignError::CampaignNotExist)
                &&& *final(self) == *old(self)
            },
            amount > 0 && old(self).has_campaign(id) && old(self).campaign_at(id).amount_collected
                == old(self).campaign_at(id).target ==> {
                &&& r == Err::<(i128, i128, i128), CampaignError>(CampaignError::TargetReached)
                &&& *final(self) == *old(self)
            },
            amount > 0 && old(self).has_campaign(id) && old(self).campaign_at(id).amount_collected
                != old(self).campaign_at(id).target && old(self).campaign_at(id).amount_collected
                + amount > old(self).campaign_at(id).target ==> {
                &&& r == Err::<(i128, i128, i128), CampaignError>(
                    CampaignError::AmountExceedTargetLimit,
                )
                &&& *final(self) == *old(self)
            },
            amount > 0 && old(self).has_campaign(id) && old(self).campaign_at(id).amount_collected
                != old(self).campaign_at(id).target && old(self).campaign_at(id).amount_collected
                + amount <= old(self).campaign_at(id).target ==> {
                &&& (donation_share(amount, OWNER_PER) == 0 || donation_share(
                    amount,
                    LAUNCHPAD_PER,
                ) == 0 || donation_share(amount, DEV_PER) == 0) ==> {
                    &&& r == Err::<(i128, i128, i128), CampaignError>(
                        CampaignError::LowAmountForSplitter,
                    )
                    &&& *final(self) == *old(self)
                }
                &&& (donation_share(amount, OWNER_PER) != 0 && donation_share(
                    amount,
                    LAUNCHPAD_PER,
                ) != 0 && donation_share(amount, DEV_PER) != 0) ==> {
                    &&& r matches Ok(shares)
                    &&& shares.0 == donation_share(amount, OWNER_PER)
                    &&& shares.1 == donation_share(amount, LAUNCHPAD_PER)
                    &&& shares.2 == donation_share(amount, DEV_PER)
                    &&& final(self).campaigns@ == old(self).campaigns@.update(
                        id - 1,
                        final(self).campaigns@[id - 1],
                    )
                    &&& donation_recorded(
                        old(self).campaign_at(id),
                        final(self).campaign_at(id),
                        donor,
                        amount,
                    )
                }
            },
    {
        if amount <= 0 {
            return Err(CampaignError::AmountMustNonZero);
        }
        let mut check_campaign = self.get_campaign(id);
        if check_campaign.id != id || id == 0 {
            return Err(CampaignError::CampaignNotExist);
        }
        if check_campaign.amount_collected == check_campaign.target {
            return Err(CampaignError::TargetReached);
        }
        if amount > check_campaign.target - check_campaign.amount_collected {
            return Err(CampaignError::AmountExceedTargetLimit);
        }
        let (owner_amount, launchpad_amount, dev_amount) = Self::split_donation(amount);
        if owner_amount == 0 || launchpad_amount == 0 || dev_amount == 0 {
            return Err(CampaignError::LowAmountForSplitter);
        }
        check_campaign.amount_collected = check_campaign.amount_collected + amount;
        check_campaign.donators.insert(0, donor);
        check_campaign.donations.insert(0, amount);
        let idx = (id - 1) as usize;
        self.campaigns[idx] = check_campaign;
        Ok((owner_amount, launchpad_amount, dev_amount))
    }

    /// The token movements a successful donation demands, in the fixed
    /// order the host must perform them: the donor pays each role its
    /// descaled share of `amount` — the campaign owner first, then the
    /// operational roles — and finally the administrator issues the
    /// donor's reward of `amount * REWARD_FACTOR` units of the reward
    /// token.  The host aborts the whole call if any movement fails.
    pub fn donate_transfers(
        &self,
        id: u32,
        donor: AccountId,
        amount: i128,
        token_id: AccountId,
    ) -> (r: Vec<Transfer>)
        requires
            self.wf(),
            self.initialized(),
            self.has_campaign(id),
            0 < amount <= MAX_DONATION_AMOUNT,
        ensures
            r@ == seq![
                (Transfer {
                    token: token_id,
                    from: donor,
                    to: self.campaign_at(id).owner,
                    amount: donation_share(amount, OWNER_PER) as i128,
                }),
                (Transfer {
                    token: token_id,
                    from: donor,
                    to: self.roles().launchpad,
                    amount: donation_share(amount, LAUNCHPAD_PER) as i128,
                }),
                (Transfer {
                    token: token_id,
                    from: donor,
                    to: self.roles().dev,
                    amount: donation_share(amount, DEV_PER) as i128,
                }),
                (Transfer {
                    token: self.roles().token,
                    from: self.roles().admin,
                    to: donor,
                    amount: (amount * REWARD_FACTOR) as i128,
                }),
            ],
    {
        let (owner_amount, launchpad_amount, dev_amount) = Self::split_donation(amount);
        let idx = (id - 1) as usize;
        let owner = self.campaigns[idx].owner;
        let reward_amount: i128 = amount * REWARD_FACTOR;
        let mut transfers: Vec<Transfer> = Vec::new();
        transfers.push(Transfer { token: token_id, from: donor, to: owner, amount: owner_amount });
        transfers.push(
            Transfer {
                token: token_id,
                from: donor,
                to: self.get_launchpad_acc(),
                amount: launchpad_amount,
            },
        );
        transfers.push(
            Transfer { token: token_id, from: donor, to: self.get_dev_acc(), amount: dev_amount },
        );
        transfers.push(
            Transfer {
                token: self.get_token_acc(),
                from: self.get_admin(),
                to: donor,
                amount: reward_amount,
            },
        );
        proof {
            assert(transfers@ =~= seq![
                (Transfer {
                    token: token_id,
                    from: donor,
                    to: self.campaign_at(id).owner,
                    amount: donation_share(amount, OWNER_PER) as i128,
                }),
                (Transfer {
                    token: token_id,
                    from: donor,
                    to: self.roles().launchpad,
                    amount: donation_share(amount, LAUNCHPAD_PER) as i128,
                }),
                (Transfer {
                    token: token_id,
                    from: donor,
                    to: self.roles().dev,
                    amount: donation_share(amount, DEV_PER) as i128,
                }),
                (Transfer {
                    token: self.roles().token,
                    from: self.roles().admin,
                    to: donor,
                    amount: (amount * REWARD_FACTOR) as i128,
                }),
            ]);
        }
        transfers
    }

    /// The development account.
    pub fn get_dev_acc(&self) -> (r: AccountId)
        requires
            self.initialized(),
        ensures
            r == self.roles().dev,
    {
        self.accounts.unwrap().dev
    }

    /// The launchpad account.
    pub fn get_launchpad_acc(&self) -> (r: AccountId)
        requires
            self.initialized(),
        ensures
            r == self.roles().launchpad,
    {
        self.accounts.unwrap().launchpad
    }

    /// The reward token contract.
    pub fn get_token_acc(&self) -> (r: AccountId)
        requires
            self.initialized(),
        ensures
            r == self.roles().token,
    {
        self.accounts.unwrap().token
    }

    /// The administrator account, which issues the donor rewards.
    pub fn get_admin(&self) -> (r: AccountId)
        requires
            self.initialized(),
        ensures
            r == self.roles().admin,
    {
        self.accounts.unwrap().admin
    }
}

/// After every successful creation the stored campaign carries id
/// `priorCount + 1` and a read of that id hands back that very
/// campaign: creating and storing are one unit.
pub proof fn lemma_created_campaign_readable(pre: CrowdFund, post: CrowdFund, c: Campaign)
    requires
        pre.wf(),
        c.id == pre.counter + 1,
        post.counter == pre.counter + 1,
        post.campaigns@ == pre.campaigns@.push(c),
        CrowdFund::campaign_inv(c),
    ensures
        post.wf(),
        post.has_campaign(c.id),
        post.campaign_at(c.id) == c,
{
}

} // verus!
