use vstd::prelude::*;
use crate::address::Address;
use crate::error::ErrorCode;
use crate::model::{
    campaign_index, contribution, has_campaign, lemma_raised_push, lookup_campaign, raised,
    refunds_kept, settled_kept, Campaign, CampaignId, Donation, DonationId, Lifecycle, Outcome,
    Registry,
};

verus! {

/// Ten to the power `n`.
pub open spec fn pow10(n: nat) -> nat
    decreases n,
{
    if n == 0 {
        1
    } else {
        10 * pow10((n - 1) as nat)
    }
}

proof fn lemma_pow10_grows(a: nat, b: nat)
    requires
        a <= b,
    ensures
        1 <= pow10(a) <= pow10(b),
    decreases b,
{
    if b > a {
        lemma_pow10_grows(a, (b - 1) as nat);
    } else if a > 0 {
        lemma_pow10_grows(0, (a - 1) as nat);
    }
}

/// Accounting-unit value of `amount` base units of a token with `decimals`
/// decimal places, when one whole token is worth `price_usd`: the product
/// scaled down and rounded toward zero. None when a step leaves `u64`.
pub open spec fn quote(amount: u64, price_usd: u64, decimals: u8) -> Option<u64> {
    if amount * price_usd <= u64::MAX && pow10(decimals as nat) <= u64::MAX {
        Some(((amount * price_usd) / (pow10(decimals as nat) as int)) as u64)
    } else {
        None
    }
}

/// Values `amount` base units of a token with `token_decimals` decimals at
/// `price_usd` per whole token.
pub fn get_token_usd_value(amount: u64, price_usd: u64, token_decimals: u8) -> (r: Result<
    u64,
    ErrorCode,
>)
    ensures
        r == match quote(amount, price_usd, token_decimals) {
            Some(v) => Ok::<u64, ErrorCode>(v),
            None => Err::<u64, ErrorCode>(ErrorCode::ArithmeticOverflow),
        },
{
    let product = match amount.checked_mul(price_usd) {
        Some(p) => p,
        None => return Err(ErrorCode::ArithmeticOverflow),
    };
    let mut scale: u64 = 1;
    let mut i: u8 = 0;
    while i < token_decimals
        invariant
            i <= token_decimals,
            scale == pow10(i as nat),
        decreases token_decimals - i,
    {
        scale = match scale.checked_mul(10) {
            Some(s) => s,
            None => {
                proof {
                    lemma_pow10_grows((i + 1) as nat, token_decimals as nat);
                }
                return Err(ErrorCode::ArithmeticOverflow);
            },
        };
        i = i + 1;
    }
    proof {
        lemma_pow10_grows(0, token_decimals as nat);
    }
    Ok(product / scale)
}

/// The refusal that `donate` gives, if any.
pub open spec fn donate_error(
    cs: Seq<Campaign>,
    key: (Seq<u8>, Seq<char>),
    amount: u64,
    sequence: u64,
    price_usd: u64,
    token_decimals: u8,
    now: i64,
) -> Option<ErrorCode> {
    let c = cs[campaign_index(cs, key)];
    if !has_campaign(cs, key) {
        Some(ErrorCode::CampaignNotFound)
    } else if c.lifecycle_state != Lifecycle::Active {
        Some(ErrorCode::CampaignInactive)
    } else if now >= c.deadline {
        Some(ErrorCode::CampaignEnded)
    } else if amount == 0 {
        Some(ErrorCode::InvalidAmount)
    } else if sequence != c.donation_count {
        Some(ErrorCode::DuplicateDonation)
    } else if quote(amount, price_usd, token_decimals) is None {
        Some(ErrorCode::ArithmeticOverflow)
    } else if c.total_raised_usd + quote(amount, price_usd, token_decimals).unwrap() > u64::MAX {
        Some(ErrorCode::ArithmeticOverflow)
    } else if c.donation_count == u64::MAX {
        Some(ErrorCode::ArithmeticOverflow)
    } else {
        None
    }
}

/// The campaign `c` once a donation worth `value` is counted: the total
/// and the donation count grow, and reaching the goal marks it successful
/// ahead of finalization.
pub open spec fn credited(c: Campaign, value: u64) -> Campaign {
    Campaign {
        total_raised_usd: (c.total_raised_usd + value) as u64,
        outcome: if c.total_raised_usd + value >= c.goal_amount_usd {
            Outcome::Successful
        } else {
            c.outcome
        },
        donation_count: (c.donation_count + 1) as u64,
        ..c
    }
}

/// Records a donation of `amount` base units of `token_mint` by `donor` to
/// the campaign `campaign` at time `now`, valued with `get_token_usd_value`.
/// `sequence` is the campaign's donation count as the donor saw it: a
/// submission that repeats an earlier one, or comes after another donation,
/// is refused rather than recorded twice. The caller moves the tokens into
/// the campaign's custody in the same atomic step.
pub fn donate(
    reg: &mut Registry,
    campaign: &CampaignId,
    donor: Address,
    token_mint: Address,
    amount: u64,
    sequence: u64,
    price_usd: u64,
    token_decimals: u8,
    now: i64,
) -> (r: Result<DonationId, ErrorCode>)
    ensures
        old(reg).wf() ==> final(reg).wf(),
        settled_kept(old(reg).campaigns@, final(reg).campaigns@),
        refunds_kept(old(reg).donations@, final(reg).donations@),
        match donate_error(
            old(reg).campaigns@,
            campaign@,
            amount,
            sequence,
            price_usd,
            token_decimals,
            now,
        ) {
            Some(e) => r == Err::<DonationId, ErrorCode>(e) && *final(reg) == *old(reg),
            None => {
                let value = quote(amount, price_usd, token_decimals).unwrap();
                let i = campaign_index(old(reg).campaigns@, campaign@);
                &&& r matches Ok(id) && id.campaign@ == campaign@ && id.donor == donor
                    && id.sequence == sequence
                &&& final(reg).campaigns@ == old(reg).campaigns@.update(
                    i,
                    credited(old(reg).campaigns@[i], value),
                )
                &&& final(reg).donations@ == old(reg).donations@.push(
                    (Donation {
                        donor,
                        campaign: i as usize,
                        sequence,
                        token_mint,
                        amount,
                        usd_value: value,
                        timestamp: now,
                        is_refunded: false,
                    }),
                )
            },
        },
{
    let ci = match lookup_campaign(&reg.campaigns, campaign) {
        Some(i) => i,
        None => return Err(ErrorCode::CampaignNotFound),
    };
    if reg.campaigns[ci].lifecycle_state != Lifecycle::Active {
        return Err(ErrorCode::CampaignInactive);
    }
    if now >= reg.campaigns[ci].deadline {
        return Err(ErrorCode::CampaignEnded);
    }
    if amount == 0 {
        return Err(ErrorCode::InvalidAmount);
    }
    if sequence != reg.campaigns[ci].donation_count {
        return Err(ErrorCode::DuplicateDonation);
    }
    let usd_value = match get_token_usd_value(amount, price_usd, token_decimals) {
        Ok(v) => v,
        Err(e) => return Err(e),
    };
    let new_total = match reg.campaigns[ci].total_raised_usd.checked_add(usd_value) {
        Some(t) => t,
        None => return Err(ErrorCode::ArithmeticOverflow),
    };
    let new_count = match reg.campaigns[ci].donation_count.checked_add(1) {
        Some(n) => n,
        None => return Err(ErrorCode::ArithmeticOverflow),
    };
    let donation = Donation {
        donor,
        campaign: ci,
        sequence,
        token_mint,
        amount,
        usd_value,
        timestamp: now,
        is_refunded: false,
    };
    let id = DonationId {
        campaign: CampaignId { creator: campaign.creator, name: campaign.name.clone() },
        donor,
        sequence,
    };
    proof {
        assert forall|i: int| 0 <= i < reg.campaigns@.len() implies raised(
            reg.donations@.push(donation),
            i,
        ) == raised(reg.donations@, i) + contribution(donation, i) by {
            lemma_raised_push(reg.donations@, donation, i);
        }
    }
    reg.donations.push(donation);
    reg.campaigns[ci].total_raised_usd = new_total;
    reg.campaigns[ci].donation_count = new_count;
    if new_total >= reg.campaigns[ci].goal_amount_usd {
        reg.campaigns[ci].outcome = Outcome::Successful;
    }
    Ok(id)
}

} // verus!
