use vstd::prelude::*;

verus! {

/// Why an operation was refused. Every refusal leaves the state unchanged.
#[derive(Clone, Copy, Debug, PartialEq, Eq, Structural)]
pub enum ErrorCode {
    /// The campaign no longer accepts donations or finalization.
    CampaignInactive,
    /// A donation came at or after the deadline.
    CampaignEnded,
    /// Finalization came before the deadline.
    CampaignStillRunning,
    /// Payout or refund came before finalization.
    CampaignStillActive,
    /// Payout was asked of a campaign that failed.
    CampaignUnsuccessful,
    /// A refund was asked of a campaign that succeeded.
    CampaignSuccessful,
    /// The donation was already refunded.
    AlreadyRefunded,
    /// The caller did not make the donation.
    NotDonor,
    /// The caller is not the campaign's creator.
    Unauthorized,
    /// A value left the range of the accounting unit.
    ArithmeticOverflow,
    /// No fresh price could be had for the asset.
    OracleUnavailable,
    /// The custody transfer was refused.
    TransferFailed,
    /// The asset conversion was refused.
    SwapFailed,
    /// The creator already has a campaign of that name.
    DuplicateCampaign,
    /// The donation's sequence number is not the campaign's next one: the
    /// submission repeats an earlier one or was overtaken by another.
    DuplicateDonation,
    /// The goal must be above zero.
    InvalidGoal,
    /// The deadline must lie in the future.
    InvalidDeadline,
    /// The campaign name is too long.
    NameTooLong,
    /// The campaign description is too long.
    DescriptionTooLong,
    /// A donation must move a positive amount.
    InvalidAmount,
    /// No campaign has that identifier.
    CampaignNotFound,
    /// No donation of that campaign has that identifier.
    DonationNotFound,
}

} // verus!
