use vstd::prelude::*;
use crate::address::Address;

verus! {

/// Whether a campaign still takes donations or has been closed for settlement.
#[derive(Clone, Copy, Debug, PartialEq, Eq, Structural)]
pub enum Lifecycle {
    Active,
    Closed,
}

/// A campaign's result. It may turn `Successful` early, while donations
/// come in; finalization fixes it for good.
#[derive(Clone, Copy, Debug, PartialEq, Eq, Structural)]
pub enum Outcome {
    Pending,
    Successful,
    Failed,
}

/// A fundraising campaign. Amounts ending in `_usd` are in the accounting
/// unit, cents of a dollar.
pub struct Campaign {
    pub creator: Address,
    pub name: String,
    pub description: String,
    pub goal_amount_usd: u64,
    pub deadline: i64,
    /// Sum of the values of this campaign's donations not refunded.
    pub total_raised_usd: u64,
    /// The asset that the creator is paid out in.
    pub target_currency: Address,
    pub lifecycle_state: Lifecycle,
    pub outcome: Outcome,
    /// Number of donations recorded so far: the sequence number of the next.
    pub donation_count: u64,
}

/// One contribution to a campaign.
#[derive(Clone, Copy, Debug, PartialEq, Eq)]
pub struct Donation {
    pub donor: Address,
    /// Where the campaign is stored in the registry.
    pub campaign: usize,
    /// The campaign's donation count when this donation was made.
    pub sequence: u64,
    pub token_mint: Address,
    /// Raw amount of `token_mint` moved into custody: what a refund returns.
    pub amount: u64,
    /// Accounting-unit value, fixed when the donation was made.
    pub usd_value: u64,
    pub timestamp: i64,
    pub is_refunded: bool,
}

/// All campaigns and all donations, in the order they were made; neither is
/// ever removed. Callers name a campaign by `CampaignId` and a donation by
/// `DonationId`, never by where it is stored.
pub struct Registry {
    pub campaigns: Vec<Campaign>,
    pub donations: Vec<Donation>,
}

/// What a donation adds to the total of campaign `c`.
pub open spec fn contribution(d: Donation, c: int) -> int {
    if d.campaign == c && !d.is_refunded {
        d.usd_value as int
    } else {
        0
    }
}

/// Sum of the values of the donations to campaign `c` not refunded.
pub open spec fn raised(ds: Seq<Donation>, c: int) -> int
    decreases ds.len(),
{
    if ds.len() == 0 {
        0
    } else {
        raised(ds.drop_last(), c) + contribution(ds.last(), c)
    }
}

impl Registry {
    /// The registry's invariant: each total matches its donations, each
    /// donation belongs to a campaign, refunds happen only on closed failed
    /// campaigns, a closed campaign has its outcome fixed, a successful one
    /// reached its goal, no creator has two campaigns of one name, and each
    /// donation has its own sequence number below its campaign's count.
    pub open spec fn wf(&self) -> bool {
        &&& forall|i: int|
            0 <= i < self.campaigns@.len() ==> #[trigger] self.campaigns@[i].total_raised_usd
                == raised(self.donations@, i)
        &&& forall|k: int|
            0 <= k < self.donations@.len() ==> (#[trigger] self.donations@[k]).campaign
                < self.campaigns@.len()
        &&& forall|k: int|
            0 <= k < self.donations@.len() && (#[trigger] self.donations@[k]).is_refunded ==> {
                &&& self.campaigns@[self.donations@[k].campaign as int].lifecycle_state
                    == Lifecycle::Closed
                &&& self.campaigns@[self.donations@[k].campaign as int].outcome == Outcome::Failed
            }
        &&& forall|i: int|
            0 <= i < self.campaigns@.len() && (#[trigger] self.campaigns@[i]).lifecycle_state
                == Lifecycle::Closed ==> self.campaigns@[i].outcome != Outcome::Pending
        &&& forall|i: int, j: int|
            0 <= i < self.campaigns@.len() && 0 <= j < self.campaigns@.len() && i != j
                ==> key_of(#[trigger] self.campaigns@[i]) != key_of(#[trigger] self.campaigns@[j])
        &&& forall|k: int|
            0 <= k < self.donations@.len() ==> (#[trigger] self.donations@[k]).sequence
                < self.campaigns@[self.donations@[k].campaign as int].donation_count
        &&& forall|k: int, l: int|
            0 <= k < self.donations@.len() && 0 <= l < self.donations@.len() && k != l
                && (#[trigger] self.donations@[k]).campaign == (#[trigger] self.donations@[l]).campaign
                ==> self.donations@[k].sequence != self.donations@[l].sequence
    }

    /// An empty registry.
    pub fn new() -> (r: Registry)
        ensures
            r.wf(),
            r.campaigns@.len() == 0,
            r.donations@.len() == 0,
    {
        Registry { campaigns: Vec::new(), donations: Vec::new() }
    }
}

/// A campaign's key: its creator and its name.
pub open spec fn key_of(c: Campaign) -> (Seq<u8>, Seq<char>) {
    (c.creator@, c.name@)
}

/// Identifies a campaign by its creator and its name alone.
#[derive(Clone, Debug, PartialEq, Eq)]
pub struct CampaignId {
    pub creator: Address,
    pub name: String,
}

impl View for CampaignId {
    type V = (Seq<u8>, Seq<char>);

    open spec fn view(&self) -> (Seq<u8>, Seq<char>) {
        (self.creator@, self.name@)
    }
}

/// Identifies a donation by its campaign, its donor and its sequence number.
#[derive(Clone, Debug, PartialEq, Eq)]
pub struct DonationId {
    pub campaign: CampaignId,
    pub donor: Address,
    pub sequence: u64,
}

/// Whether some campaign of `cs` has key `key`.
pub open spec fn has_campaign(cs: Seq<Campaign>, key: (Seq<u8>, Seq<char>)) -> bool {
    exists|i: int| 0 <= i < cs.len() && #[trigger] key_of(cs[i]) == key
}

/// Where the first campaign of `cs` with key `key` stands.
pub open spec fn campaign_index(cs: Seq<Campaign>, key: (Seq<u8>, Seq<char>)) -> int {
    choose|i: int|
        0 <= i < cs.len() && key_of(cs[i]) == key && forall|j: int|
            0 <= j < i ==> #[trigger] key_of(cs[j]) != key
}

/// A campaign with the key exists: the first one stands where
/// `campaign_index` says.
pub proof fn lemma_campaign_index(cs: Seq<Campaign>, key: (Seq<u8>, Seq<char>))
    requires
        has_campaign(cs, key),
    ensures
        0 <= campaign_index(cs, key) < cs.len(),
        key_of(cs[campaign_index(cs, key)]) == key,
        forall|j: int| 0 <= j < campaign_index(cs, key) ==> #[trigger] key_of(cs[j]) != key,
    decreases cs.len(),
{
    let p = cs.drop_last();
    if has_campaign(p, key) {
        lemma_campaign_index(p, key);
        let m = campaign_index(p, key);
        assert(key_of(cs[m]) == key);
        assert forall|j: int| 0 <= j < m implies #[trigger] key_of(cs[j]) != key by {
            assert(cs[j] == p[j]);
        }
    } else {
        let m = cs.len() - 1;
        let w = choose|i: int| 0 <= i < cs.len() && #[trigger] key_of(cs[i]) == key;
        if w < m {
            assert(key_of(p[w]) == key);
        }
        assert forall|j: int| 0 <= j < m implies #[trigger] key_of(cs[j]) != key by {
            if key_of(cs[j]) == key {
                assert(key_of(p[j]) == key);
            }
        }
        assert(key_of(cs[m]) == key);
    }
}

/// Finds the campaign named by `id`.
pub fn lookup_campaign(cs: &Vec<Campaign>, id: &CampaignId) -> (r: Option<usize>)
    ensures
        r == (if has_campaign(cs@, id@) {
            Some(campaign_index(cs@, id@) as usize)
        } else {
            None::<usize>
        }),
        r matches Some(i) ==> i < cs@.len() && key_of(cs@[i as int]) == id@ && i as int
            == campaign_index(cs@, id@),
{
    let n = cs.len();
    let mut i: usize = 0;
    while i < n
        invariant
            0 <= i <= n,
            n == cs@.len(),
            forall|j: int| 0 <= j < i ==> #[trigger] key_of(cs@[j]) != id@,
        decreases n - i,
    {
        if cs[i].creator.same_as(&id.creator) && cs[i].name == id.name {
            proof {
                assert(key_of(cs@[i as int]) == id@);
                let k = campaign_index(cs@, id@);
                assert(0 <= k < cs@.len() && key_of(cs@[k]) == id@);
                if k > i {
                    assert(key_of(cs@[i as int]) != id@);
                }
            }
            return Some(i);
        }
        i = i + 1;
    }
    None
}

/// Whether donation `d` is the one of campaign position `c`, donor `donor`
/// and sequence number `sequence`.
pub open spec fn donation_matches(d: Donation, c: int, donor: Seq<u8>, sequence: u64) -> bool {
    d.campaign == c && d.donor@ == donor && d.sequence == sequence
}

/// Whether some donation of `ds` matches.
pub open spec fn has_donation(ds: Seq<Donation>, c: int, donor: Seq<u8>, sequence: u64) -> bool {
    exists|k: int| 0 <= k < ds.len() && #[trigger] donation_matches(ds[k], c, donor, sequence)
}

/// Where the first matching donation of `ds` stands.
pub open spec fn donation_index(ds: Seq<Donation>, c: int, donor: Seq<u8>, sequence: u64) -> int {
    choose|k: int|
        0 <= k < ds.len() && donation_matches(ds[k], c, donor, sequence) && forall|j: int|
            0 <= j < k ==> !#[trigger] donation_matches(ds[j], c, donor, sequence)
}

/// Finds the donation of campaign position `c` by `donor` with `sequence`.
pub fn lookup_donation(ds: &Vec<Donation>, c: usize, donor: &Address, sequence: u64) -> (r:
    Option<usize>)
    ensures
        r == (if has_donation(ds@, c as int, donor@, sequence) {
            Some(donation_index(ds@, c as int, donor@, sequence) as usize)
        } else {
            None::<usize>
        }),
        r matches Some(k) ==> k < ds@.len() && donation_matches(ds@[k as int], c as int, donor@, sequence)
            && k as int == donation_index(ds@, c as int, donor@, sequence),
{
    let n = ds.len();
    let mut i: usize = 0;
    while i < n
        invariant
            0 <= i <= n,
            n == ds@.len(),
            forall|j: int| 0 <= j < i ==> !#[trigger] donation_matches(ds@[j], c as int, donor@, sequence),
        decreases n - i,
    {
        if ds[i].campaign == c && ds[i].donor.same_as(donor) && ds[i].sequence == sequence {
            proof {
                assert(donation_matches(ds@[i as int], c as int, donor@, sequence));
                let k = donation_index(ds@, c as int, donor@, sequence);
                assert(0 <= k < ds@.len() && donation_matches(ds@[k], c as int, donor@, sequence));
                if k > i {
                    assert(!donation_matches(ds@[i as int], c as int, donor@, sequence));
                }
            }
            return Some(i);
        }
        i = i + 1;
    }
    None
}

/// Closed campaigns stay closed with the same outcome from `before` to `after`.
pub open spec fn settled_kept(before: Seq<Campaign>, after: Seq<Campaign>) -> bool {
    &&& before.len() <= after.len()
    &&& forall|i: int|
        0 <= i < before.len() && (#[trigger] before[i]).lifecycle_state == Lifecycle::Closed
            ==> after[i].lifecycle_state == Lifecycle::Closed && after[i].outcome
            == before[i].outcome
}

/// No refund flag is cleared from `before` to `after`.
pub open spec fn refunds_kept(before: Seq<Donation>, after: Seq<Donation>) -> bool {
    &&& before.len() <= after.len()
    &&& forall|k: int|
        0 <= k < before.len() && (#[trigger] before[k]).is_refunded ==> after[k].is_refunded
}

pub proof fn lemma_raised_push(ds: Seq<Donation>, d: Donation, c: int)
    ensures
        raised(ds.push(d), c) == raised(ds, c) + contribution(d, c),
{
    assert(ds.push(d).drop_last() =~= ds);
}

pub proof fn lemma_raised_update(ds: Seq<Donation>, k: int, d: Donation, c: int)
    requires
        0 <= k < ds.len(),
    ensures
        raised(ds.update(k, d), c) == raised(ds, c) - contribution(ds[k], c) + contribution(d, c),
    decreases ds.len(),
{
    if k == ds.len() - 1 {
        assert(ds.update(k, d).drop_last() =~= ds.drop_last());
    } else {
        lemma_raised_update(ds.drop_last(), k, d, c);
        assert(ds.update(k, d).drop_last() =~= ds.drop_last().update(k, d));
    }
}

pub proof fn lemma_raised_covers(ds: Seq<Donation>, k: int, c: int)
    requires
        0 <= k < ds.len(),
    ensures
        raised(ds, c) >= contribution(ds[k], c),
    decreases ds.len(),
{
    lemma_raised_nonneg(ds.drop_last(), c);
    if k < ds.len() - 1 {
        lemma_raised_covers(ds.drop_last(), k, c);
    }
}

pub proof fn lemma_raised_nonneg(ds: Seq<Donation>, c: int)
    ensures
        raised(ds, c) >= 0,
    decreases ds.len(),
{
    if ds.len() > 0 {
        lemma_raised_nonneg(ds.drop_last(), c);
    }
}

pub proof fn lemma_raised_absent(ds: Seq<Donation>, c: int)
    requires
        forall|k: int| 0 <= k < ds.len() ==> (#[trigger] ds[k]).campaign != c,
    ensures
        raised(ds, c) == 0,
    decreases ds.len(),
{
    if ds.len() > 0 {
        lemma_raised_absent(ds.drop_last(), c);
    }
}

} // verus!
