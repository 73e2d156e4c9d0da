use vstd::prelude::*;
use crate::types::{Identity, Pledger, Campaign};

verus! {

/// `p` is a live (not cancelled, not refunded) pledge of `id`.
pub open spec fn is_active_entry(p: Pledger, id: Identity) -> bool {
    p.address == id && p.pledge > 0
}

pub open spec fn has_active_pledge(ps: Seq<Pledger>, id: Identity) -> bool {
    exists|i: int| 0 <= i < ps.len() && #[trigger] is_active_entry(ps[i], id)
}

/// The position of `id`'s live pledge, where there is one.
pub open spec fn active_index(ps: Seq<Pledger>, id: Identity) -> int {
    choose|i: int| 0 <= i < ps.len() && #[trigger] is_active_entry(ps[i], id)
}

/// The amount of `id`'s live pledge, where there is one.
pub open spec fn pledge_of(ps: Seq<Pledger>, id: Identity) -> u64 {
    ps[active_index(ps, id)].pledge
}

/// The sum of all pledges in the list (refunded entries count as zero).
pub open spec fn total(ps: Seq<Pledger>) -> int
    decreases ps.len(),
{
    if ps.len() == 0 {
        0
    } else {
        total(ps.drop_last()) + ps.last().pledge
    }
}

/// No identity holds two live pledges.
pub open spec fn unique_active(ps: Seq<Pledger>) -> bool {
    forall|i: int, j: int|
        0 <= i < ps.len() && 0 <= j < ps.len() && i != j && ps[i].pledge > 0 && ps[j].pledge > 0
            ==> #[trigger] ps[i].address != #[trigger] ps[j].address
}

impl Campaign {
    /// The ledger invariants: `pledged` is the sum of the pledges in
    /// `pledgers`, and no identity holds two live pledges.
    pub open spec fn wf(&self) -> bool {
        &&& self.pledged == total(self.pledgers@)
        &&& unique_active(self.pledgers@)
    }
}

/// The fields fixed at creation are the same in both records.
pub open spec fn same_terms(a: Campaign, b: Campaign) -> bool {
    &&& a.goal == b.goal
    &&& a.name == b.name
    &&& a.description == b.description
    &&& a.owner == b.owner
    &&& a.timestamp_start == b.timestamp_start
    &&& a.timestamp_end == b.timestamp_end
}

pub proof fn lemma_total_push(ps: Seq<Pledger>, p: Pledger)
    ensures
        total(ps.push(p)) == total(ps) + p.pledge,
{
    assert(ps.push(p).drop_last() =~= ps);
}

pub proof fn lemma_total_nonneg(ps: Seq<Pledger>)
    ensures
        total(ps) >= 0,
    decreases ps.len(),
{
    if ps.len() > 0 {
        lemma_total_nonneg(ps.drop_last());
    }
}

pub proof fn lemma_entry_le_total(ps: Seq<Pledger>, i: int)
    requires
        0 <= i < ps.len(),
    ensures
        ps[i].pledge <= total(ps),
    decreases ps.len(),
{
    lemma_total_nonneg(ps.drop_last());
    if i < ps.len() - 1 {
        lemma_entry_le_total(ps.drop_last(), i);
    }
}

pub proof fn lemma_total_update(ps: Seq<Pledger>, i: int, p: Pledger)
    requires
        0 <= i < ps.len(),
    ensures
        total(ps.update(i, p)) == total(ps) - ps[i].pledge + p.pledge,
    decreases ps.len(),
{
    if i == ps.len() - 1 {
        assert(ps.update(i, p).drop_last() =~= ps.drop_last());
    } else {
        lemma_total_update(ps.drop_last(), i, p);
        assert(ps.update(i, p).drop_last() =~= ps.drop_last().update(i, p));
    }
}

pub proof fn lemma_total_remove(ps: Seq<Pledger>, i: int)
    requires
        0 <= i < ps.len(),
    ensures
        total(ps.remove(i)) == total(ps) - ps[i].pledge,
    decreases ps.len(),
{
    if i == ps.len() - 1 {
        assert(ps.remove(i) =~= ps.drop_last());
    } else {
        lemma_total_remove(ps.drop_last(), i);
        assert(ps.remove(i).drop_last() =~= ps.drop_last().remove(i));
    }
}

/// Under `unique_active`, a live pledge of `id` sits at `active_index`.
pub proof fn lemma_active_index(ps: Seq<Pledger>, id: Identity, i: int)
    requires
        unique_active(ps),
        0 <= i < ps.len(),
        is_active_entry(ps[i], id),
    ensures
        active_index(ps, id) == i,
        pledge_of(ps, id) == ps[i].pledge,
        has_active_pledge(ps, id),
{
    let k = active_index(ps, id);
    assert(0 <= k < ps.len() && is_active_entry(ps[k], id));
    if k != i {
        assert(ps[k].address != ps[i].address);
    }
}


pub proof fn lemma_total_prefix(ps: Seq<Pledger>, k: int)
    requires
        0 <= k <= ps.len(),
    ensures
        total(ps.subrange(0, k)) <= total(ps),
    decreases ps.len(),
{
    if k == ps.len() {
        assert(ps.subrange(0, k) =~= ps);
    } else {
        lemma_total_prefix(ps.drop_last(), k);
        assert(ps.drop_last().subrange(0, k) =~= ps.subrange(0, k));
    }
}

/// Whether `c` meets the ledger invariants. A host that loads a record from
/// storage runs this before handing it to the operations.
pub fn ledger_is_consistent(c: &Campaign) -> (r: bool)
    ensures
        r == c.wf(),
{
    let n = c.pledgers.len();
    let ghost ps = c.pledgers@;
    let mut sum: u64 = 0;
    let mut i: usize = 0;
    while i < n
        invariant
            n == ps.len(),
            ps == c.pledgers@,
            i <= n,
            sum as int == total(ps.subrange(0, i as int)),
            sum <= c.pledged,
        decreases n - i,
    {
        proof {
            assert(ps.subrange(0, i + 1).drop_last() =~= ps.subrange(0, i as int));
        }
        let p = c.pledgers[i].pledge;
        if p > c.pledged - sum {
            proof {
                lemma_total_prefix(ps, i + 1);
            }
            return false;
        }
        sum = sum + p;
        i = i + 1;
    }
    assert(ps.subrange(0, n as int) =~= ps);
    if sum != c.pledged {
        return false;
    }
    let mut i: usize = 0;
    while i < n
        invariant
            n == ps.len(),
            ps == c.pledgers@,
            i <= n,
            forall|a: int, b: int|
                0 <= a < i && 0 <= b < n && a != b && ps[a].pledge > 0 && ps[b].pledge > 0
                    ==> #[trigger] ps[a].address != #[trigger] ps[b].address,
        decreases n - i,
    {
        let mut j: usize = 0;
        while j < n
            invariant
                n == ps.len(),
                ps == c.pledgers@,
                i < n,
                j <= n,
                forall|a: int, b: int|
                    0 <= a < i && 0 <= b < n && a != b && ps[a].pledge > 0 && ps[b].pledge > 0
                        ==> #[trigger] ps[a].address != #[trigger] ps[b].address,
                forall|b: int|
                    0 <= b < j && b != i && ps[i as int].pledge > 0 && ps[b].pledge > 0
                        ==> ps[i as int].address != #[trigger] ps[b].address,
            decreases n - j,
        {
            let pi = c.pledgers[i];
            let pj = c.pledgers[j];
            if j != i && pi.pledge > 0 && pj.pledge > 0 && pi.address == pj.address {
                assert(ps[i as int].address == ps[j as int].address);
                return false;
            }
            j = j + 1;
        }
        i = i + 1;
    }
    true
}

} // verus!
