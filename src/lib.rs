//! Crowdfunding escrow and settlement: campaigns collect donations in many
//! assets, valued in one accounting unit, and settle either by paying the
//! creator or by refunding each donor.

pub mod address;
pub mod error;
pub mod laws;
pub mod ledger;
pub mod model;
pub mod registry;
pub mod settlement;

pub use address::Address;
pub use error::ErrorCode;
pub use model::{Campaign, CampaignId, Donation, DonationId, Lifecycle, Outcome, Registry};
pub use ledger::{donate, get_token_usd_value};
pub use registry::{create_campaign, MAX_DESCRIPTION_LEN, MAX_NAME_LEN};
pub use settlement::{
    build_jupiter_swap_data, claim_refund, convert_and_payout, finalize_campaign, PayoutStep,
    RefundTransfer, VaultBalance,
};
