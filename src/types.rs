use vstd::prelude::*;

verus! {

/// An opaque account identity: the 32 bytes of a public key, as four
/// little-endian words.
#[derive(Clone, Copy, Debug, PartialEq, Eq, Structural)]
pub struct Identity {
    pub w0: u64,
    pub w1: u64,
    pub w2: u64,
    pub w3: u64,
}

/// One contribution. A `pledge` of zero marks an entry that was refunded.
#[derive(Clone, Copy, Debug, PartialEq, Eq, Structural)]
pub struct Pledger {
    pub address: Identity,
    pub pledge: u64,
}

/// The campaign record.
#[derive(Clone, Debug)]
pub struct Campaign {
    pub goal: u64,
    /// The sum of the pledges held in `pledgers`.
    pub pledged: u64,
    pub pledgers: Vec<Pledger>,
    pub name: String,
    pub description: String,
    pub owner: Identity,
    pub timestamp_start: i64,
    pub timestamp_end: i64,
    pub is_active: bool,
    pub is_funded: bool,
    /// Set once the owner of a funded campaign has been paid out.
    pub payout_claimed: bool,
}

/// One side of a balance move: the campaign's own account or a user's.
#[derive(Clone, Copy, Debug, PartialEq, Eq, Structural)]
pub enum Party {
    Campaign,
    User(Identity),
}

/// A balance move that the host performs atomically.
#[derive(Clone, Copy, Debug, PartialEq, Eq, Structural)]
pub struct Transfer {
    pub from: Party,
    pub to: Party,
    pub amount: u64,
}

/// The host could not perform a [`Transfer`] (for example, the payer's balance
/// was too low).
#[derive(Clone, Copy, Debug, PartialEq, Eq, Structural)]
pub struct TransferFailed;

#[derive(Clone, Copy, Debug, PartialEq, Eq, Structural)]
pub enum CampaignError {
    /// A record already exists for this owner.
    AlreadyExists,
    /// The caller already holds an active pledge.
    AlreadyPledged,
    /// The caller holds no active pledge.
    NotAPledger,
    /// The pledging or cancellation window is over.
    CampaignClosed,
    /// The deadline has not passed yet.
    NotYetEnded,
    /// The campaign was already resolved.
    AlreadyResolved,
    /// Only the owner may claim a funded campaign.
    NotOwner,
    /// The host could not move the funds.
    TransferFailed,
    /// The payout of a funded campaign was already made.
    NothingToClaim,
    /// A pledge must be positive.
    ZeroAmount,
    /// A campaign must last at least one second.
    InvalidDuration,
    /// A total or a timestamp would leave its integer range.
    Overflow,
}

/// What opening a campaign needs: the owner, the current time, and whether the
/// storage already holds a record for this owner.
#[derive(Clone, Copy, Debug)]
pub struct InitCampaign {
    pub user: Identity,
    pub now: i64,
    pub record_exists: bool,
}

/// A pledge request against a campaign, at time `now`.
#[derive(Clone, Debug)]
pub struct SendPledge {
    pub campaign: Campaign,
    pub user: Identity,
    pub now: i64,
}

/// A cancellation request against a campaign, at time `now`.
#[derive(Clone, Debug)]
pub struct CancelPledge {
    pub campaign: Campaign,
    pub user: Identity,
    pub now: i64,
}

/// A request to resolve a campaign, at time `now`.
#[derive(Clone, Debug)]
pub struct CheckCampaign {
    pub campaign: Campaign,
    pub now: i64,
}

/// A claim on a resolved campaign.
#[derive(Clone, Debug)]
pub struct ClaimFunds {
    pub campaign: Campaign,
    pub user: Identity,
}

} // verus!
