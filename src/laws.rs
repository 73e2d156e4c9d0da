use vstd::prelude::*;
use crate::types::{Identity, Pledger, Campaign, CampaignError};
use crate::ledger::{is_active_entry, has_active_pledge, active_index, pledge_of};
use crate::ops::{
    pledge_error, cancel_error, cancel_applied, resolve_error, resolve_applied, claim_error,
    claim_applied,
};

verus! {

/// An identity that holds a live pledge cannot pledge again: the pledge is
/// refused with `AlreadyPledged`, which leaves the record (and so `pledged`)
/// unchanged.
pub proof fn lemma_no_double_pledge(c: Campaign, user: Identity, amount: u64, now: i64)
    requires
        has_active_pledge(c.pledgers@, user),
    ensures
        pledge_error(c, user, amount, now) == Some(CampaignError::AlreadyPledged),
{
}

/// After a cancellation, the same identity may pledge the same amount again at
/// the same time, as long as the campaign is still open.
pub proof fn lemma_cancel_then_repledge(pre: Campaign, post: Campaign, user: Identity, now: i64)
    requires
        pre.wf(),
        pre.is_active,
        cancel_error(pre, user, now).is_none(),
        cancel_applied(pre, post, user),
    ensures
        !has_active_pledge(post.pledgers@, user),
        pledge_error(post, user, pledge_of(pre.pledgers@, user), now).is_none(),
{
    let ps = pre.pledgers@;
    let k = active_index(ps, user);
    assert(0 <= k < ps.len() && is_active_entry(ps[k], user));
    let qs = post.pledgers@;
    if has_active_pledge(qs, user) {
        let a = choose|a: int| 0 <= a < qs.len() && #[trigger] is_active_entry(qs[a], user);
        let a0 = if a < k { a } else { a + 1 };
        assert(qs[a] == ps[a0]);
        assert(ps[a0].address != ps[k].address);
    }
}

/// Resolving twice fails the second time with `AlreadyResolved`, at any later
/// time; the failed call leaves the record as the first one left it.
pub proof fn lemma_resolve_once(pre: Campaign, post: Campaign, now: i64, later: i64)
    requires
        resolve_error(pre, now).is_none(),
        resolve_applied(pre, post),
        now <= later,
    ensures
        resolve_error(post, later) == Some(CampaignError::AlreadyResolved),
{
}

/// Past the deadline a live pledge can no longer be cancelled, whether or not
/// the campaign was resolved.
pub proof fn lemma_cancel_closed_after_deadline(c: Campaign, user: Identity, now: i64)
    requires
        has_active_pledge(c.pledgers@, user),
        now > c.timestamp_end,
    ensures
        cancel_error(c, user, now) == Some(CampaignError::CampaignClosed),
{
}

/// A funded campaign pays out once: after the owner's claim, every further
/// claim is refused, the owner's with `NothingToClaim`.
pub proof fn lemma_single_payout(pre: Campaign, post: Campaign, other: Identity)
    requires
        pre.is_funded,
        claim_error(pre, pre.owner).is_none(),
        claim_applied(pre, post, pre.owner),
    ensures
        claim_error(post, pre.owner) == Some(CampaignError::NothingToClaim),
        claim_error(post, other).is_some(),
{
}

/// An unfunded campaign refunds each pledge once: after a refund, the same
/// identity's next claim is refused with `NotAPledger`.
pub proof fn lemma_single_refund(pre: Campaign, post: Campaign, user: Identity)
    requires
        pre.wf(),
        !pre.is_funded,
        claim_error(pre, user).is_none(),
        claim_applied(pre, post, user),
    ensures
        claim_error(post, user) == Some(CampaignError::NotAPledger),
{
    let ps = pre.pledgers@;
    let k = active_index(ps, user);
    assert(0 <= k < ps.len() && is_active_entry(ps[k], user));
    let qs = post.pledgers@;
    assert(qs == ps.update(k, Pledger { address: user, pledge: 0 }));
    if has_active_pledge(qs, user) {
        let a = choose|a: int| 0 <= a < qs.len() && #[trigger] is_active_entry(qs[a], user);
        assert(a != k);
        assert(qs[a] == ps[a]);
        assert(ps[a].address != ps[k].address);
    }
}

} // verus!
