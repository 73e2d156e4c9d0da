use vstd::prelude::*;
use crate::types::{
    Identity, Pledger, Campaign, Party, Transfer, TransferFailed, CampaignError, InitCampaign,
    SendPledge, CancelPledge, CheckCampaign, ClaimFunds,
};
use crate::ledger::{
    is_active_entry, has_active_pledge, active_index, pledge_of, same_terms, lemma_total_push,
    lemma_entry_le_total, lemma_total_update, lemma_total_remove, lemma_active_index,
};

verus! {

// ---------------------------------------------------------------- opening

/// Why opening a campaign is refused, if it is.
pub open spec fn init_error(ctx: InitCampaign, duration_seconds: i64) -> Option<CampaignError> {
    if ctx.record_exists {
        Some(CampaignError::AlreadyExists)
    } else if duration_seconds <= 0 {
        Some(CampaignError::InvalidDuration)
    } else if ctx.now + duration_seconds > i64::MAX {
        Some(CampaignError::Overflow)
    } else {
        None
    }
}

/// Opens a campaign owned by `ctx.user`, running from `ctx.now` for
/// `duration_seconds`, with an empty ledger.
pub fn init_campaign(
    ctx: &InitCampaign,
    name: String,
    description: String,
    goal: u64,
    duration_seconds: i64,
) -> (r: Result<Campaign, CampaignError>)
    ensures
        match init_error(*ctx, duration_seconds) {
            Some(e) => r == Err::<Campaign, CampaignError>(e),
            None => r is Ok && {
                let c = r->Ok_0;
                &&& c.goal == goal
                &&& c.owner == ctx.user
                &&& c.pledged == 0
                &&& c.pledgers@.len() == 0
                &&& c.name == name
                &&& c.description == description
                &&& c.is_active
                &&& !c.is_funded
                &&& !c.payout_claimed
                &&& c.timestamp_start == ctx.now
                &&& c.timestamp_end == ctx.now + duration_seconds
                &&& c.wf()
            },
        },
{
    if ctx.record_exists {
        return Err(CampaignError::AlreadyExists);
    }
    if duration_seconds <= 0 {
        return Err(CampaignError::InvalidDuration);
    }
    if ctx.now > i64::MAX - duration_seconds {
        return Err(CampaignError::Overflow);
    }
    let c = Campaign {
        goal,
        pledged: 0,
        pledgers: Vec::new(),
        name,
        description,
        owner: ctx.user,
        timestamp_start: ctx.now,
        timestamp_end: ctx.now + duration_seconds,
        is_active: true,
        is_funded: false,
        payout_claimed: false,
    };
    assert(c.pledgers@.len() == 0);
    Ok(c)
}

/// The position of `id`'s live pledge in `ps`, if it holds one.
pub fn find_active_pledge(ps: &Vec<Pledger>, id: Identity) -> (r: Option<usize>)
    ensures
        match r {
            Some(i) => i < ps@.len() && is_active_entry(ps@[i as int], id),
            None => !has_active_pledge(ps@, id),
        },
{
    let mut i: usize = 0;
    while i < ps.len()
        invariant
            i <= ps@.len(),
            forall|j: int| 0 <= j < i ==> !is_active_entry(#[trigger] ps@[j], id),
        decreases ps@.len() - i,
    {
        if ps[i].address == id && ps[i].pledge > 0 {
            return Some(i);
        }
        i = i + 1;
    }
    None
}


// ---------------------------------------------------------------- pledging

/// Why a pledge of `amount` by `user` at time `now` is refused, if it is.
///
/// Pledges are taken only while the campaign is open: before its deadline and
/// before it is resolved.
pub open spec fn pledge_error(c: Campaign, user: Identity, amount: u64, now: i64) -> Option<
    CampaignError,
> {
    if has_active_pledge(c.pledgers@, user) {
        Some(CampaignError::AlreadyPledged)
    } else if amount == 0 {
        Some(CampaignError::ZeroAmount)
    } else if !c.is_active || now > c.timestamp_end {
        Some(CampaignError::CampaignClosed)
    } else if c.pledged + amount > u64::MAX {
        Some(CampaignError::Overflow)
    } else {
        None
    }
}

/// `post` is `pre` after `user` pledged `amount`.
pub open spec fn pledge_applied(pre: Campaign, post: Campaign, user: Identity, amount: u64) -> bool {
    &&& same_terms(pre, post)
    &&& post.pledgers@ == pre.pledgers@.push(Pledger { address: user, pledge: amount })
    &&& post.pledged == pre.pledged + amount
    &&& post.is_funded == (post.pledged >= post.goal)
    &&& post.is_active == pre.is_active
    &&& post.payout_claimed == pre.payout_claimed
}

/// Checks a pledge of `amount` by `ctx.user` and returns the transfer that
/// moves it into the campaign.
pub fn pledge_transfer(ctx: &SendPledge, amount: u64) -> (r: Result<Transfer, CampaignError>)
    ensures
        match pledge_error(ctx.campaign, ctx.user, amount, ctx.now) {
            Some(e) => r == Err::<Transfer, CampaignError>(e),
            None => r == Ok::<Transfer, CampaignError>(
                Transfer { from: Party::User(ctx.user), to: Party::Campaign, amount },
            ),
        },
{
    if find_active_pledge(&ctx.campaign.pledgers, ctx.user).is_some() {
        return Err(CampaignError::AlreadyPledged);
    }
    if amount == 0 {
        return Err(CampaignError::ZeroAmount);
    }
    if !ctx.campaign.is_active || ctx.now > ctx.campaign.timestamp_end {
        return Err(CampaignError::CampaignClosed);
    }
    if ctx.campaign.pledged > u64::MAX - amount {
        return Err(CampaignError::Overflow);
    }
    Ok(Transfer { from: Party::User(ctx.user), to: Party::Campaign, amount })
}

/// Records a pledge of `amount` by `ctx.user`, given the outcome of the
/// transfer that [`pledge_transfer`] asked for. A refused pledge or a failed
/// transfer leaves the request as it was.
pub fn send_pledge(ctx: &mut SendPledge, amount: u64, outcome: Result<(), TransferFailed>) -> (r:
    Result<(), CampaignError>)
    requires
        old(ctx).campaign.wf(),
    ensures
        final(ctx).campaign.wf(),
        match pledge_error(old(ctx).campaign, old(ctx).user, amount, old(ctx).now) {
            Some(e) => r == Err::<(), CampaignError>(e) && *final(ctx) == *old(ctx),
            None => match outcome {
                Err(_) => {
                    &&& r == Err::<(), CampaignError>(CampaignError::TransferFailed)
                    &&& *final(ctx) == *old(ctx)
                },
                Ok(_) => {
                    &&& r is Ok
                    &&& final(ctx).user == old(ctx).user
                    &&& final(ctx).now == old(ctx).now
                    &&& pledge_applied(old(ctx).campaign, final(ctx).campaign, old(ctx).user, amount)
                },
            },
        },
{
    match pledge_transfer(ctx, amount) {
        Err(e) => return Err(e),
        Ok(_) => {},
    }
    if outcome.is_err() {
        return Err(CampaignError::TransferFailed);
    }
    let ghost pre = ctx.campaign.pledgers@;
    let entry = Pledger { address: ctx.user, pledge: amount };
    ctx.campaign.pledgers.push(entry);
    proof {
        lemma_total_push(pre, entry);
        assert(ctx.campaign.pledgers@ == pre.push(entry));
        assert forall|i: int, j: int|
            0 <= i < ctx.campaign.pledgers@.len() && 0 <= j < ctx.campaign.pledgers@.len() && i
                != j && ctx.campaign.pledgers@[i].pledge > 0 && ctx.campaign.pledgers@[j].pledge
                > 0 implies #[trigger] ctx.campaign.pledgers@[i].address
            != #[trigger] ctx.campaign.pledgers@[j].address by {
            if i == pre.len() {
                assert(!is_active_entry(pre[j], entry.address));
            } else if j == pre.len() {
                assert(!is_active_entry(pre[i], entry.address));
            }
        }
    }
    ctx.campaign.pledged = ctx.campaign.pledged + amount;
    ctx.campaign.is_funded = ctx.campaign.pledged >= ctx.campaign.goal;
    Ok(())
}


// ---------------------------------------------------------------- cancelling

/// Why `user`'s cancellation at time `now` is refused, if it is. The window
/// closes at the deadline, whether or not the campaign was resolved.
pub open spec fn cancel_error(c: Campaign, user: Identity, now: i64) -> Option<CampaignError> {
    if !has_active_pledge(c.pledgers@, user) {
        Some(CampaignError::NotAPledger)
    } else if now > c.timestamp_end {
        Some(CampaignError::CampaignClosed)
    } else {
        None
    }
}

/// `post` is `pre` after `user`'s live pledge was withdrawn and its entry removed.
pub open spec fn cancel_applied(pre: Campaign, post: Campaign, user: Identity) -> bool {
    &&& same_terms(pre, post)
    &&& post.pledgers@ == pre.pledgers@.remove(active_index(pre.pledgers@, user))
    &&& post.pledged == pre.pledged - pledge_of(pre.pledgers@, user)
    &&& post.is_funded == pre.is_funded
    &&& post.is_active == pre.is_active
    &&& post.payout_claimed == pre.payout_claimed
}

/// Checks a cancellation by `ctx.user` and returns the transfer that gives the
/// pledge back.
pub fn cancel_transfer(ctx: &CancelPledge) -> (r: Result<Transfer, CampaignError>)
    requires
        ctx.campaign.wf(),
    ensures
        match cancel_error(ctx.campaign, ctx.user, ctx.now) {
            Some(e) => r == Err::<Transfer, CampaignError>(e),
            None => r == Ok::<Transfer, CampaignError>(
                Transfer {
                    from: Party::Campaign,
                    to: Party::User(ctx.user),
                    amount: pledge_of(ctx.campaign.pledgers@, ctx.user),
                },
            ),
        },
{
    match find_active_pledge(&ctx.campaign.pledgers, ctx.user) {
        None => Err(CampaignError::NotAPledger),
        Some(i) => {
            proof {
                lemma_active_index(ctx.campaign.pledgers@, ctx.user, i as int);
            }
            if ctx.now > ctx.campaign.timestamp_end {
                return Err(CampaignError::CampaignClosed);
            }
            Ok(
                Transfer {
                    from: Party::Campaign,
                    to: Party::User(ctx.user),
                    amount: ctx.campaign.pledgers[i].pledge,
                },
            )
        },
    }
}

/// Withdraws `ctx.user`'s live pledge, given the outcome of the transfer that
/// [`cancel_transfer`] asked for. The entry is removed, so the identity may
/// pledge again. A refused cancellation or a failed transfer leaves the
/// request as it was.
pub fn cancel_pledge(ctx: &mut CancelPledge, outcome: Result<(), TransferFailed>) -> (r: Result<
    (),
    CampaignError,
>)
    requires
        old(ctx).campaign.wf(),
    ensures
        final(ctx).campaign.wf(),
        match cancel_error(old(ctx).campaign, old(ctx).user, old(ctx).now) {
            Some(e) => r == Err::<(), CampaignError>(e) && *final(ctx) == *old(ctx),
            None => match outcome {
                Err(_) => {
                    &&& r == Err::<(), CampaignError>(CampaignError::TransferFailed)
                    &&& *final(ctx) == *old(ctx)
                },
                Ok(_) => {
                    &&& r is Ok
                    &&& final(ctx).user == old(ctx).user
                    &&& final(ctx).now == old(ctx).now
                    &&& cancel_applied(old(ctx).campaign, final(ctx).campaign, old(ctx).user)
                },
            },
        },
{
    let i = match find_active_pledge(&ctx.campaign.pledgers, ctx.user) {
        None => return Err(CampaignError::NotAPledger),
        Some(i) => i,
    };
    proof {
        lemma_active_index(ctx.campaign.pledgers@, ctx.user, i as int);
    }
    if ctx.now > ctx.campaign.timestamp_end {
        return Err(CampaignError::CampaignClosed);
    }
    if outcome.is_err() {
        return Err(CampaignError::TransferFailed);
    }
    let ghost pre = ctx.campaign.pledgers@;
    proof {
        lemma_entry_le_total(pre, i as int);
        lemma_total_remove(pre, i as int);
    }
    let amount = ctx.campaign.pledgers[i].pledge;
    ctx.campaign.pledgers.remove(i);
    ctx.campaign.pledged = ctx.campaign.pledged - amount;
    proof {
        let post = ctx.campaign.pledgers@;
        assert(post == pre.remove(i as int));
        assert forall|a: int, b: int|
            0 <= a < post.len() && 0 <= b < post.len() && a != b && post[a].pledge > 0
                && post[b].pledge > 0 implies #[trigger] post[a].address
            != #[trigger] post[b].address by {
            let a0 = if a < i { a } else { a + 1 };
            let b0 = if b < i { b } else { b + 1 };
            assert(post[a] == pre[a0]);
            assert(post[b] == pre[b0]);
        }
    }
    Ok(())
}

// ---------------------------------------------------------------- resolving

/// Why resolving at time `now` is refused, if it is.
pub open spec fn resolve_error(c: Campaign, now: i64) -> Option<CampaignError> {
    if now <= c.timestamp_end {
        Some(CampaignError::NotYetEnded)
    } else if !c.is_active {
        Some(CampaignError::AlreadyResolved)
    } else {
        None
    }
}

/// `post` is `pre` resolved: closed, and funded exactly when the goal was met.
pub open spec fn resolve_applied(pre: Campaign, post: Campaign) -> bool {
    &&& same_terms(pre, post)
    &&& post.pledgers@ == pre.pledgers@
    &&& post.pledged == pre.pledged
    &&& post.is_funded == (pre.pledged >= pre.goal)
    &&& !post.is_active
    &&& post.payout_claimed == pre.payout_claimed
}

/// Resolves the campaign once its deadline has passed. No funds move.
pub fn check_campaign(ctx: &mut CheckCampaign) -> (r: Result<(), CampaignError>)
    requires
        old(ctx).campaign.wf(),
    ensures
        final(ctx).campaign.wf(),
        match resolve_error(old(ctx).campaign, old(ctx).now) {
            Some(e) => r == Err::<(), CampaignError>(e) && *final(ctx) == *old(ctx),
            None => {
                &&& r is Ok
                &&& final(ctx).now == old(ctx).now
                &&& resolve_applied(old(ctx).campaign, final(ctx).campaign)
            },
        },
{
    if ctx.now <= ctx.campaign.timestamp_end {
        return Err(CampaignError::NotYetEnded);
    }
    if !ctx.campaign.is_active {
        return Err(CampaignError::AlreadyResolved);
    }
    ctx.campaign.is_funded = ctx.campaign.pledged >= ctx.campaign.goal;
    ctx.campaign.is_active = false;
    Ok(())
}


// ---------------------------------------------------------------- claiming

/// Why `user`'s claim is refused, if it is. A campaign must be resolved first;
/// a funded one pays its owner once, an unfunded one refunds each live pledge
/// once.
pub open spec fn claim_error(c: Campaign, user: Identity) -> Option<CampaignError> {
    if c.is_active {
        Some(CampaignError::NotYetEnded)
    } else if c.is_funded {
        if user != c.owner {
            Some(CampaignError::NotOwner)
        } else if c.payout_claimed {
            Some(CampaignError::NothingToClaim)
        } else {
            None
        }
    } else if !has_active_pledge(c.pledgers@, user) {
        Some(CampaignError::NotAPledger)
    } else {
        None
    }
}

/// The amount that `user`'s claim moves out of the campaign.
pub open spec fn claim_amount(c: Campaign, user: Identity) -> u64 {
    if c.is_funded {
        c.pledged
    } else {
        pledge_of(c.pledgers@, user)
    }
}

/// `post` is `pre` after `user`'s claim was paid: the owner's payout is marked
/// as made, or the refunded pledge is set to zero and leaves the total.
pub open spec fn claim_applied(pre: Campaign, post: Campaign, user: Identity) -> bool {
    &&& same_terms(pre, post)
    &&& post.is_funded == pre.is_funded
    &&& post.is_active == pre.is_active
    &&& if pre.is_funded {
        &&& post.pledgers@ == pre.pledgers@
        &&& post.pledged == pre.pledged
        &&& post.payout_claimed
    } else {
        &&& post.pledgers@ == pre.pledgers@.update(
            active_index(pre.pledgers@, user),
            Pledger { address: user, pledge: 0 },
        )
        &&& post.pledged == pre.pledged - pledge_of(pre.pledgers@, user)
        &&& post.payout_claimed == pre.payout_claimed
    }
}

/// Checks a claim by `ctx.user` and returns the transfer that pays it.
pub fn claim_transfer(ctx: &ClaimFunds) -> (r: Result<Transfer, CampaignError>)
    requires
        ctx.campaign.wf(),
    ensures
        match claim_error(ctx.campaign, ctx.user) {
            Some(e) => r == Err::<Transfer, CampaignError>(e),
            None => r == Ok::<Transfer, CampaignError>(
                Transfer {
                    from: Party::Campaign,
                    to: Party::User(ctx.user),
                    amount: claim_amount(ctx.campaign, ctx.user),
                },
            ),
        },
{
    if ctx.campaign.is_active {
        return Err(CampaignError::NotYetEnded);
    }
    if ctx.campaign.is_funded {
        if ctx.user != ctx.campaign.owner {
            return Err(CampaignError::NotOwner);
        }
        if ctx.campaign.payout_claimed {
            return Err(CampaignError::NothingToClaim);
        }
        Ok(Transfer { from: Party::Campaign, to: Party::User(ctx.user), amount: ctx.campaign.pledged })
    } else {
        match find_active_pledge(&ctx.campaign.pledgers, ctx.user) {
            None => Err(CampaignError::NotAPledger),
            Some(i) => {
                proof {
                    lemma_active_index(ctx.campaign.pledgers@, ctx.user, i as int);
                }
                Ok(
                    Transfer {
                        from: Party::Campaign,
                        to: Party::User(ctx.user),
                        amount: ctx.campaign.pledgers[i].pledge,
                    },
                )
            },
        }
    }
}

/// Pays `ctx.user`'s claim, given the outcome of the transfer that
/// [`claim_transfer`] asked for. A refused claim or a failed transfer leaves
/// the request as it was.
pub fn claim_funds(ctx: &mut ClaimFunds, outcome: Result<(), TransferFailed>) -> (r: Result<
    (),
    CampaignError,
>)
    requires
        old(ctx).campaign.wf(),
    ensures
        final(ctx).campaign.wf(),
        match claim_error(old(ctx).campaign, old(ctx).user) {
            Some(e) => r == Err::<(), CampaignError>(e) && *final(ctx) == *old(ctx),
            None => match outcome {
                Err(_) => {
                    &&& r == Err::<(), CampaignError>(CampaignError::TransferFailed)
                    &&& *final(ctx) == *old(ctx)
                },
                Ok(_) => {
                    &&& r is Ok
                    &&& final(ctx).user == old(ctx).user
                    &&& claim_applied(old(ctx).campaign, final(ctx).campaign, old(ctx).user)
                },
            },
        },
{
    match claim_transfer(ctx) {
        Err(e) => return Err(e),
        Ok(_) => {},
    }
    if outcome.is_err() {
        return Err(CampaignError::TransferFailed);
    }
    if ctx.campaign.is_funded {
        ctx.campaign.payout_claimed = true;
        return Ok(());
    }
    let i = match find_active_pledge(&ctx.campaign.pledgers, ctx.user) {
        None => return Err(CampaignError::NotAPledger),
        Some(i) => i,
    };
    let ghost pre = ctx.campaign.pledgers@;
    proof {
        lemma_active_index(pre, ctx.user, i as int);
        lemma_entry_le_total(pre, i as int);
    }
    let amount = ctx.campaign.pledgers[i].pledge;
    let cleared = Pledger { address: ctx.user, pledge: 0 };
    ctx.campaign.pledgers.set(i, cleared);
    ctx.campaign.pledged = ctx.campaign.pledged - amount;
    proof {
        lemma_total_update(pre, i as int, cleared);
        let post = ctx.campaign.pledgers@;
        assert(post == pre.update(i as int, cleared));
        assert forall|a: int, b: int|
            0 <= a < post.len() && 0 <= b < post.len() && a != b && post[a].pledge > 0
                && post[b].pledge > 0 implies #[trigger] post[a].address
            != #[trigger] post[b].address by {
            assert(post[a] == pre[a]);
            assert(post[b] == pre[b]);
        }
    }
    Ok(())
}

} // verus!
