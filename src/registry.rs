use vstd::prelude::*;
use vstd::utf8::encode_utf8;
use crate::address::Address;
use crate::error::ErrorCode;
use crate::model::{
    has_campaign, key_of, lemma_raised_absent, lookup_campaign, refunds_kept, settled_kept,
    Campaign, CampaignId, Lifecycle, Outcome, Registry,
};

verus! {

/// Longest campaign name, in UTF-8 bytes: the name seeds the campaign's
/// address, and a seed holds at most 32 bytes.
pub const MAX_NAME_LEN: usize = 32;

/// Longest campaign description, in UTF-8 bytes.
pub const MAX_DESCRIPTION_LEN: usize = 996;

/// The refusal that `create_campaign` gives, if any.
pub open spec fn create_error(
    cs: Seq<Campaign>,
    creator: Address,
    name: Seq<char>,
    description: Seq<char>,
    goal_amount_usd: u64,
    deadline: i64,
    now: i64,
) -> Option<ErrorCode> {
    if goal_amount_usd == 0 {
        Some(ErrorCode::InvalidGoal)
    } else if deadline <= now {
        Some(ErrorCode::InvalidDeadline)
    } else if encode_utf8(name).len() > MAX_NAME_LEN {
        Some(ErrorCode::NameTooLong)
    } else if encode_utf8(description).len() > MAX_DESCRIPTION_LEN {
        Some(ErrorCode::DescriptionTooLong)
    } else if has_campaign(cs, (creator@, name)) {
        Some(ErrorCode::DuplicateCampaign)
    } else {
        None
    }
}

/// Opens a campaign at time `now`. Its identifier is the pair of creator and
/// name: a second campaign of one creator with one name is refused.
pub fn create_campaign(
    reg: &mut Registry,
    creator: Address,
    name: String,
    description: String,
    goal_amount_usd: u64,
    deadline: i64,
    target_currency: Address,
    now: i64,
) -> (r: Result<CampaignId, ErrorCode>)
    ensures
        old(reg).wf() ==> final(reg).wf(),
        settled_kept(old(reg).campaigns@, final(reg).campaigns@),
        refunds_kept(old(reg).donations@, final(reg).donations@),
        match create_error(
            old(reg).campaigns@,
            creator,
            name@,
            description@,
            goal_amount_usd,
            deadline,
            now,
        ) {
            Some(e) => r == Err::<CampaignId, ErrorCode>(e) && *final(reg) == *old(reg),
            None => {
                &&& r matches Ok(id) && id@ == (creator@, name@)
                &&& final(reg).donations@ == old(reg).donations@
                &&& final(reg).campaigns@ == old(reg).campaigns@.push(
                    (Campaign {
                        creator,
                        name,
                        description,
                        goal_amount_usd,
                        deadline,
                        total_raised_usd: 0,
                        target_currency,
                        lifecycle_state: Lifecycle::Active,
                        outcome: Outcome::Pending,
                        donation_count: 0,
                    }),
                )
            },
        },
{
    if goal_amount_usd == 0 {
        return Err(ErrorCode::InvalidGoal);
    }
    if deadline <= now {
        return Err(ErrorCode::InvalidDeadline);
    }
    if name.as_str().as_bytes().len() > MAX_NAME_LEN {
        return Err(ErrorCode::NameTooLong);
    }
    if description.as_str().as_bytes().len() > MAX_DESCRIPTION_LEN {
        return Err(ErrorCode::DescriptionTooLong);
    }
    let id = CampaignId { creator, name: name.clone() };
    if lookup_campaign(&reg.campaigns, &id).is_some() {
        return Err(ErrorCode::DuplicateCampaign);
    }
    let n = reg.campaigns.len();
    let campaign = Campaign {
        creator,
        name,
        description,
        goal_amount_usd,
        deadline,
        total_raised_usd: 0,
        target_currency,
        lifecycle_state: Lifecycle::Active,
        outcome: Outcome::Pending,
        donation_count: 0,
    };
    proof {
        if reg.wf() {
            lemma_raised_absent(reg.donations@, n as int);
        }
        assert forall|i: int| 0 <= i < n implies key_of(#[trigger] reg.campaigns@[i]) != key_of(
            campaign,
        ) by {
            if key_of(reg.campaigns@[i]) == key_of(campaign) {
                assert(has_campaign(reg.campaigns@, id@));
            }
        }
    }
    reg.campaigns.push(campaign);
    Ok(id)
}

} // verus!
