use vstd::prelude::*;
use crate::address::Address;
use crate::error::ErrorCode;
use crate::ledger::{donate_error, quote};
use crate::model::{
    campaign_index, donation_index, has_campaign, lemma_campaign_index, has_donation, raised, settled_kept, Campaign,
    Donation, Lifecycle, Outcome, Registry,
};
use crate::settlement::{payout_error, payout_plan, refund_error, PayoutStep, VaultBalance};

verus! {

/// In every well-formed registry, a campaign's total is the sum of the
/// values of its donations not refunded.
pub proof fn total_matches_donations(reg: &Registry, campaign: int)
    requires
        reg.wf(),
        0 <= campaign < reg.campaigns@.len(),
    ensures
        reg.campaigns@[campaign].total_raised_usd == raised(reg.donations@, campaign),
{
}

/// A donation already refunded is never refunded again.
pub proof fn refund_at_most_once(
    cs: Seq<Campaign>,
    ds: Seq<Donation>,
    key: (Seq<u8>, Seq<char>),
    donor: Address,
    sequence: u64,
    caller: Address,
)
    requires
        has_campaign(cs, key),
        has_donation(ds, campaign_index(cs, key), donor@, sequence),
        ds[donation_index(ds, campaign_index(cs, key), donor@, sequence)].is_refunded,
    ensures
        refund_error(cs, ds, key, donor, sequence, caller) is Some,
{
}

/// A closed campaign that failed refuses every payout, whoever asks.
pub proof fn failed_campaign_never_pays_out(
    cs: Seq<Campaign>,
    key: (Seq<u8>, Seq<char>),
    caller: Address,
)
    requires
        has_campaign(cs, key),
        cs[campaign_index(cs, key)].lifecycle_state == Lifecycle::Closed,
        cs[campaign_index(cs, key)].outcome == Outcome::Failed,
    ensures
        payout_error(cs, key, caller) == Some(ErrorCode::CampaignUnsuccessful),
{
}

/// Once a payout is allowed, no refund is allowed in any later state in
/// which closed campaigns kept their outcome, and the other way round.
pub proof fn payout_and_refund_exclusive(
    before: Seq<Campaign>,
    before_donations: Seq<Donation>,
    after: Seq<Campaign>,
    after_donations: Seq<Donation>,
    key: (Seq<u8>, Seq<char>),
    donor: Address,
    sequence: u64,
    creator: Address,
    caller: Address,
)
    requires
        settled_kept(before, after),
        campaign_index(before, key) == campaign_index(after, key),
    ensures
        payout_error(before, key, creator) is None ==> refund_error(
            after,
            after_donations,
            key,
            donor,
            sequence,
            caller,
        ) is Some,
        refund_error(before, before_donations, key, donor, sequence, caller) is None
            ==> payout_error(after, key, creator) is Some,
{
    if has_campaign(before, key) {
        lemma_campaign_index(before, key);
        let i = campaign_index(before, key);
        assert(before[i].lifecycle_state == Lifecycle::Closed ==> after[i].outcome
            == before[i].outcome);
    }
}

/// The vaults once every positive balance in them has been paid out.
pub open spec fn drained(vaults: Seq<VaultBalance>) -> Seq<VaultBalance> {
    vaults.map_values(|v: VaultBalance| VaultBalance { asset: v.asset, amount: 0 })
}

/// Paying out leaves nothing to pay: a second payout right after the first
/// has no step.
pub proof fn payout_idempotent(vaults: Seq<VaultBalance>, target: Address)
    ensures
        payout_plan(drained(vaults), target) == Seq::<PayoutStep>::empty(),
    decreases vaults.len(),
{
    if vaults.len() > 0 {
        payout_idempotent(vaults.drop_last(), target);
        assert(drained(vaults).drop_last() =~= drained(vaults.drop_last()));
    }
}

/// A donation to an active campaign is taken up to the instant before its
/// deadline and refused from the deadline on.
pub proof fn donation_deadline_boundary(
    cs: Seq<Campaign>,
    key: (Seq<u8>, Seq<char>),
    amount: u64,
    price_usd: u64,
    token_decimals: u8,
)
    requires
        has_campaign(cs, key),
        cs[campaign_index(cs, key)].lifecycle_state == Lifecycle::Active,
        cs[campaign_index(cs, key)].deadline > i64::MIN,
        cs[campaign_index(cs, key)].donation_count < u64::MAX,
        amount > 0,
        quote(amount, price_usd, token_decimals) is Some,
        cs[campaign_index(cs, key)].total_raised_usd + quote(
            amount,
            price_usd,
            token_decimals,
        ).unwrap() <= u64::MAX,
    ensures
        donate_error(
            cs,
            key,
            amount,
            cs[campaign_index(cs, key)].donation_count,
            price_usd,
            token_decimals,
            (cs[campaign_index(cs, key)].deadline - 1) as i64,
        ) is None,
        donate_error(
            cs,
            key,
            amount,
            cs[campaign_index(cs, key)].donation_count,
            price_usd,
            token_decimals,
            cs[campaign_index(cs, key)].deadline,
        ) == Some(ErrorCode::CampaignEnded),
{
}

/// A donation whose value would push the total past the largest amount is
/// refused as an overflow; `donate` then leaves the registry unchanged.
pub proof fn donation_overflow_refused(
    cs: Seq<Campaign>,
    key: (Seq<u8>, Seq<char>),
    amount: u64,
    price_usd: u64,
    token_decimals: u8,
    now: i64,
)
    requires
        has_campaign(cs, key),
        cs[campaign_index(cs, key)].lifecycle_state == Lifecycle::Active,
        now < cs[campaign_index(cs, key)].deadline,
        amount > 0,
        quote(amount, price_usd, token_decimals) is None || cs[campaign_index(
            cs,
            key,
        )].total_raised_usd + quote(amount, price_usd, token_decimals).unwrap() > u64::MAX,
    ensures
        donate_error(
            cs,
            key,
            amount,
            cs[campaign_index(cs, key)].donation_count,
            price_usd,
            token_decimals,
            now,
        ) == Some(ErrorCode::ArithmeticOverflow),
{
}

} // verus!
