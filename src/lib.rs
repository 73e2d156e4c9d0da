//! A crowdfunding campaign ledger.
//!
//! An owner opens a campaign with a goal and a deadline, contributors pledge,
//! the campaign is resolved once the deadline has passed, and the funds then go
//! either to the owner (funded) or back to each contributor (unfunded).
//!
//! Moving balances and reading the clock are the host's work. Each operation is
//! split in two: a check that returns the [`Transfer`] the host must perform (or
//! the reason the operation is refused), and the operation itself, which takes
//! the outcome of that transfer and commits the new record only when it
//! succeeded.

pub mod types;
pub mod ledger;
pub mod ops;
pub mod laws;

pub use types::{Identity, Pledger, Campaign, Party, Transfer, TransferFailed, CampaignError};
pub use types::{InitCampaign, SendPledge, CancelPledge, CheckCampaign, ClaimFunds};
pub use ledger::ledger_is_consistent;
pub use ops::{
    init_campaign, pledge_transfer, send_pledge, cancel_transfer, cancel_pledge, check_campaign,
    claim_transfer, claim_funds, find_active_pledge,
};
