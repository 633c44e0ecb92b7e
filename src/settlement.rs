use vstd::prelude::*;
use crate::address::Address;
use crate::error::ErrorCode;
use crate::model::{
    campaign_index, contribution, donation_index, has_campaign, has_donation, lemma_raised_covers,
    lemma_raised_update, lookup_campaign, lookup_donation, raised, refunds_kept, settled_kept,
    Campaign, CampaignId, Donation, DonationId, Lifecycle, Outcome, Registry,
};

verus! {

/// The refusal that `finalize_campaign` gives, if any.
pub open spec fn finalize_error(
    cs: Seq<Campaign>,
    key: (Seq<u8>, Seq<char>),
    caller: Address,
    now: i64,
) -> Option<ErrorCode> {
    let c = cs[campaign_index(cs, key)];
    if !has_campaign(cs, key) {
        Some(ErrorCode::CampaignNotFound)
    } else if c.lifecycle_state != Lifecycle::Active {
        Some(ErrorCode::CampaignInactive)
    } else if c.creator@ != caller@ {
        Some(ErrorCode::Unauthorized)
    } else if now < c.deadline {
        Some(ErrorCode::CampaignStillRunning)
    } else {
        None
    }
}

/// The campaign `c` once closed: the outcome is decided from the total alone.
pub open spec fn finalized(c: Campaign) -> Campaign {
    Campaign {
        lifecycle_state: Lifecycle::Closed,
        outcome: if c.total_raised_usd >= c.goal_amount_usd {
            Outcome::Successful
        } else {
            Outcome::Failed
        },
        ..c
    }
}

/// Closes campaign `campaign` at time `now`, at or after its deadline, on
/// behalf of its creator, and fixes its outcome. No funds move.
pub fn finalize_campaign(
    reg: &mut Registry,
    campaign: &CampaignId,
    caller: Address,
    now: i64,
) -> (r: Result<(), ErrorCode>)
    ensures
        old(reg).wf() ==> final(reg).wf(),
        settled_kept(old(reg).campaigns@, final(reg).campaigns@),
        refunds_kept(old(reg).donations@, final(reg).donations@),
        match finalize_error(old(reg).campaigns@, campaign@, caller, now) {
            Some(e) => r == Err::<(), ErrorCode>(e) && *final(reg) == *old(reg),
            None => {
                let i = campaign_index(old(reg).campaigns@, campaign@);
                &&& r == Ok::<(), ErrorCode>(())
                &&& final(reg).donations@ == old(reg).donations@
                &&& final(reg).campaigns@ == old(reg).campaigns@.update(
                    i,
                    finalized(old(reg).campaigns@[i]),
                )
            },
        },
{
    let ci = match lookup_campaign(&reg.campaigns, campaign) {
        Some(i) => i,
        None => return Err(ErrorCode::CampaignNotFound),
    };
    if reg.campaigns[ci].lifecycle_state != Lifecycle::Active {
        return Err(ErrorCode::CampaignInactive);
    }
    if !reg.campaigns[ci].creator.same_as(&caller) {
        return Err(ErrorCode::Unauthorized);
    }
    if now < reg.campaigns[ci].deadline {
        return Err(ErrorCode::CampaignStillRunning);
    }
    reg.campaigns[ci].lifecycle_state = Lifecycle::Closed;
    if reg.campaigns[ci].total_raised_usd >= reg.campaigns[ci].goal_amount_usd {
        reg.campaigns[ci].outcome = Outcome::Successful;
    } else {
        reg.campaigns[ci].outcome = Outcome::Failed;
    }
    Ok(())
}

/// The balance that a campaign's custody vault holds of one asset.
#[derive(Clone, Copy, Debug, PartialEq, Eq)]
pub struct VaultBalance {
    pub asset: Address,
    pub amount: u64,
}

/// One step of a payout, each carried out on its own: a direct transfer of
/// the target asset to the creator, or a swap of another asset into it.
#[derive(Clone, Copy, Debug, PartialEq, Eq)]
pub enum PayoutStep {
    Transfer { asset: Address, amount: u64 },
    Swap { asset_in: Address, amount: u64, asset_out: Address },
}

/// How the vault `v` is paid out in `target`.
pub open spec fn payout_step(v: VaultBalance, target: Address) -> PayoutStep {
    if v.asset@ == target@ {
        PayoutStep::Transfer { asset: v.asset, amount: v.amount }
    } else {
        PayoutStep::Swap { asset_in: v.asset, amount: v.amount, asset_out: target }
    }
}

/// One step for each vault with a positive balance, in the vaults' order.
pub open spec fn payout_plan(vaults: Seq<VaultBalance>, target: Address) -> Seq<PayoutStep>
    decreases vaults.len(),
{
    if vaults.len() == 0 {
        Seq::empty()
    } else {
        let rest = payout_plan(vaults.drop_last(), target);
        if vaults.last().amount > 0 {
            rest.push(payout_step(vaults.last(), target))
        } else {
            rest
        }
    }
}

/// The refusal that `convert_and_payout` gives, if any.
pub open spec fn payout_error(cs: Seq<Campaign>, key: (Seq<u8>, Seq<char>), caller: Address) -> Option<
    ErrorCode,
> {
    let c = cs[campaign_index(cs, key)];
    if !has_campaign(cs, key) {
        Some(ErrorCode::CampaignNotFound)
    } else if c.lifecycle_state == Lifecycle::Active {
        Some(ErrorCode::CampaignStillActive)
    } else if c.outcome != Outcome::Successful {
        Some(ErrorCode::CampaignUnsuccessful)
    } else if c.creator@ != caller@ {
        Some(ErrorCode::Unauthorized)
    } else {
        None
    }
}

/// Plans the payout of a successful, closed campaign to its creator, from
/// the current balances of its vaults. Vaults already drained give no step,
/// so a payout asked again resumes where an earlier one stopped.
pub fn convert_and_payout(
    reg: &Registry,
    campaign: &CampaignId,
    caller: Address,
    vaults: &Vec<VaultBalance>,
) -> (r: Result<Vec<PayoutStep>, ErrorCode>)
    ensures
        match payout_error(reg.campaigns@, campaign@, caller) {
            Some(e) => r == Err::<Vec<PayoutStep>, ErrorCode>(e),
            None => r matches Ok(steps) && steps@ == payout_plan(
                vaults@,
                reg.campaigns@[campaign_index(reg.campaigns@, campaign@)].target_currency,
            ),
        },
{
    let ci = match lookup_campaign(&reg.campaigns, campaign) {
        Some(i) => i,
        None => return Err(ErrorCode::CampaignNotFound),
    };
    let c = &reg.campaigns[ci];
    if c.lifecycle_state == Lifecycle::Active {
        return Err(ErrorCode::CampaignStillActive);
    }
    if c.outcome != Outcome::Successful {
        return Err(ErrorCode::CampaignUnsuccessful);
    }
    if !c.creator.same_as(&caller) {
        return Err(ErrorCode::Unauthorized);
    }
    let target = c.target_currency;
    let mut steps: Vec<PayoutStep> = Vec::new();
    let mut i: usize = 0;
    while i < vaults.len()
        invariant
            0 <= i <= vaults@.len(),
            steps@ == payout_plan(vaults@.subrange(0, i as int), target),
        decreases vaults@.len() - i,
    {
        let v = vaults[i];
        proof {
            assert(vaults@.subrange(0, i + 1).drop_last() =~= vaults@.subrange(0, i as int));
        }
        if v.amount > 0 {
            if v.asset.same_as(&target) {
                steps.push(PayoutStep::Transfer { asset: v.asset, amount: v.amount });
            } else {
                steps.push(PayoutStep::Swap { asset_in: v.asset, amount: v.amount, asset_out: target });
            }
        }
        i = i + 1;
    }
    assert(vaults@.subrange(0, vaults@.len() as int) =~= vaults@);
    Ok(steps)
}

/// Instruction data of a swap step: a fixed four-byte tag. The swap's
/// source, destination and target mint travel as the instruction's accounts.
pub fn build_jupiter_swap_data(
    _from_token_account: Address,
    _to_token_account: Address,
    _target_mint: Address,
) -> (r: Vec<u8>)
    ensures
        r@ == seq![0u8, 1u8, 2u8, 3u8],
{
    let r: Vec<u8> = vec![0, 1, 2, 3];
    assert(r@ =~= seq![0u8, 1u8, 2u8, 3u8]);
    r
}

/// What a refund hands back: the donation's own asset and raw amount.
#[derive(Clone, Copy, Debug, PartialEq, Eq)]
pub struct RefundTransfer {
    pub token_mint: Address,
    pub amount: u64,
}

/// The refusal that `claim_refund` gives, if any, for the donation of the
/// campaign with key `key` by `donor` with sequence number `sequence`.
pub open spec fn refund_error(
    cs: Seq<Campaign>,
    ds: Seq<Donation>,
    key: (Seq<u8>, Seq<char>),
    donor: Address,
    sequence: u64,
    caller: Address,
) -> Option<ErrorCode> {
    let ci = campaign_index(cs, key);
    let c = cs[ci];
    let d = ds[donation_index(ds, ci, donor@, sequence)];
    if !has_campaign(cs, key) {
        Some(ErrorCode::CampaignNotFound)
    } else if !has_donation(ds, ci, donor@, sequence) {
        Some(ErrorCode::DonationNotFound)
    } else if c.lifecycle_state == Lifecycle::Active {
        Some(ErrorCode::CampaignStillActive)
    } else if c.outcome != Outcome::Failed {
        Some(ErrorCode::CampaignSuccessful)
    } else if d.donor@ != caller@ {
        Some(ErrorCode::NotDonor)
    } else if d.is_refunded {
        Some(ErrorCode::AlreadyRefunded)
    } else if c.total_raised_usd < d.usd_value {
        Some(ErrorCode::ArithmeticOverflow)
    } else {
        None
    }
}

/// Refunds the donation `donation` of a failed, closed campaign to its
/// donor. The flag is set and the value leaves the campaign's total in the
/// same atomic step as the transfer that the caller makes of the returned
/// raw amount: a transfer that fails undoes both. A total below the
/// donation's value, which a well-formed registry never holds, is refused as
/// an overflow.
pub fn claim_refund(reg: &mut Registry, donation: &DonationId, caller: Address) -> (r: Result<
    RefundTransfer,
    ErrorCode,
>)
    ensures
        old(reg).wf() ==> final(reg).wf(),
        settled_kept(old(reg).campaigns@, final(reg).campaigns@),
        refunds_kept(old(reg).donations@, final(reg).donations@),
        old(reg).wf() ==> r != Err::<RefundTransfer, ErrorCode>(ErrorCode::ArithmeticOverflow),
        match refund_error(
            old(reg).campaigns@,
            old(reg).donations@,
            donation.campaign@,
            donation.donor,
            donation.sequence,
            caller,
        ) {
            Some(e) => r == Err::<RefundTransfer, ErrorCode>(e) && *final(reg) == *old(reg),
            None => {
                let ci = campaign_index(old(reg).campaigns@, donation.campaign@);
                let k = donation_index(
                    old(reg).donations@,
                    ci,
                    donation.donor@,
                    donation.sequence,
                );
                let d = old(reg).donations@[k];
                let c = old(reg).campaigns@[ci];
                &&& r == Ok::<RefundTransfer, ErrorCode>(
                    RefundTransfer { token_mint: d.token_mint, amount: d.amount },
                )
                &&& final(reg).donations@ == old(reg).donations@.update(
                    k,
                    (Donation { is_refunded: true, ..d }),
                )
                &&& final(reg).campaigns@ == old(reg).campaigns@.update(
                    ci,
                    (Campaign { total_raised_usd: (c.total_raised_usd - d.usd_value) as u64, ..c }),
                )
            },
        },
{
    let ci = match lookup_campaign(&reg.campaigns, &donation.campaign) {
        Some(i) => i,
        None => return Err(ErrorCode::CampaignNotFound),
    };
    let k = match lookup_donation(&reg.donations, ci, &donation.donor, donation.sequence) {
        Some(k) => k,
        None => return Err(ErrorCode::DonationNotFound),
    };
    if reg.campaigns[ci].lifecycle_state == Lifecycle::Active {
        return Err(ErrorCode::CampaignStillActive);
    }
    if reg.campaigns[ci].outcome != Outcome::Failed {
        return Err(ErrorCode::CampaignSuccessful);
    }
    let d = reg.donations[k];
    if !d.donor.same_as(&caller) {
        return Err(ErrorCode::NotDonor);
    }
    if d.is_refunded {
        return Err(ErrorCode::AlreadyRefunded);
    }
    proof {
        if reg.wf() {
            lemma_raised_covers(reg.donations@, k as int, ci as int);
        }
    }
    if reg.campaigns[ci].total_raised_usd < d.usd_value {
        return Err(ErrorCode::ArithmeticOverflow);
    }
    let refunded = Donation { is_refunded: true, ..d };
    proof {
        assert forall|i: int| 0 <= i < reg.campaigns@.len() implies raised(
            reg.donations@.update(k as int, refunded),
            i,
        ) == raised(reg.donations@, i) - contribution(d, i) + contribution(refunded, i) by {
            lemma_raised_update(reg.donations@, k as int, refunded, i);
        }
    }
    reg.donations.set(k, refunded);
    reg.campaigns[ci].total_raised_usd = reg.campaigns[ci].total_raised_usd - d.usd_value;
    Ok(RefundTransfer { token_mint: d.token_mint, amount: d.amount })
}

} // verus!
