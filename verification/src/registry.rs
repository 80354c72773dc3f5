use vstd::prelude::*;

use crate::config::AccountId;
use crate::deal::{spec_accepted_deal, spec_completed_deal, Deal, DealState};
use crate::gig::{spec_dec_pending, spec_inc_pending, Gig};

verus! {

/// One deal's contribution to a listing's ongoing count: an accepted deal
/// against that listing counts, a created or completed one does not.
pub open spec fn pending_contribution(d: Deal, gig_id: AccountId) -> int {
    if d.gig == gig_id && d.state == DealState::Accepted {
        1
    } else {
        0
    }
}

/// How many of `deals` are accepted and ongoing against listing `gig_id`.
pub open spec fn accepted_deal_count(deals: Seq<Deal>, gig_id: AccountId) -> int
    decreases deals.len(),
{
    if deals.len() == 0 {
        0
    } else {
        accepted_deal_count(deals.drop_last(), gig_id) + pending_contribution(
            deals.last(),
            gig_id,
        )
    }
}

/// The registry invariant: a listing's pending counter equals the number
/// of accepted deals currently standing against it.  Because every
/// transition below preserves this equality, the counter can never go
/// negative, and the decrement on settlement can never underflow.
pub open spec fn counter_consistent(gig: Gig, deals: Seq<Deal>) -> bool {
    gig.pending_deals as int == accepted_deal_count(deals, gig.id)
}

/// A count of matching deals is never negative.
pub proof fn lemma_count_nonneg(deals: Seq<Deal>, gig_id: AccountId)
    ensures
        accepted_deal_count(deals, gig_id) >= 0,
    decreases deals.len(),
{
    if deals.len() > 0 {
        lemma_count_nonneg(deals.drop_last(), gig_id);
    }
}

/// Appending one deal adds exactly its own contribution to the count.
pub proof fn lemma_count_push(deals: Seq<Deal>, gig_id: AccountId, d: Deal)
    ensures
        accepted_deal_count(deals.push(d), gig_id) == accepted_deal_count(deals, gig_id)
            + pending_contribution(d, gig_id),
{
    let s = deals.push(d);
    assert(s.drop_last() =~= deals);
    assert(s.last() == d);
}

/// Replacing one deal swaps its old contribution for the new one.
pub proof fn lemma_count_update(deals: Seq<Deal>, gig_id: AccountId, i: int, d2: Deal)
    requires
        0 <= i < deals.len(),
    ensures
        accepted_deal_count(deals.update(i, d2), gig_id) == accepted_deal_count(deals, gig_id)
            - pending_contribution(deals[i], gig_id) + pending_contribution(d2, gig_id),
    decreases deals.len(),
{
    let s = deals.update(i, d2);
    if i == deals.len() - 1 {
        assert(s.drop_last() =~= deals.drop_last());
        assert(s.last() == d2);
    } else {
        assert(s.drop_last() =~= deals.drop_last().update(i, d2));
        assert(s.last() == deals.last());
        lemma_count_update(deals.drop_last(), gig_id, i, d2);
    }
}

/// Removing one deal subtracts exactly its own contribution.
pub proof fn lemma_count_remove(deals: Seq<Deal>, gig_id: AccountId, i: int)
    requires
        0 <= i < deals.len(),
    ensures
        accepted_deal_count(deals.remove(i), gig_id) == accepted_deal_count(deals, gig_id)
            - pending_contribution(deals[i], gig_id),
    decreases deals.len(),
{
    let s = deals.remove(i);
    if i == deals.len() - 1 {
        assert(s =~= deals.drop_last());
    } else {
        assert(s.last() == deals.last());
        assert(s.drop_last() =~= deals.drop_last().remove(i));
        lemma_count_remove(deals.drop_last(), gig_id, i);
    }
}

/// No single deal contributes more than the whole count.
pub proof fn lemma_count_element_bound(deals: Seq<Deal>, gig_id: AccountId, i: int)
    requires
        0 <= i < deals.len(),
    ensures
        pending_contribution(deals[i], gig_id) <= accepted_deal_count(deals, gig_id),
    decreases deals.len(),
{
    if i == deals.len() - 1 {
        lemma_count_nonneg(deals.drop_last(), gig_id);
    } else {
        assert(deals.drop_last()[i] == deals[i]);
        lemma_count_element_bound(deals.drop_last(), gig_id, i);
    }
}

/// Creating a deal leaves every listing's counter consistent: a freshly
/// created deal awaits acceptance and is not yet counted.
pub proof fn lemma_counter_after_create(gig: Gig, deals: Seq<Deal>, d: Deal)
    requires
        counter_consistent(gig, deals),
        d.state == DealState::Created,
    ensures
        counter_consistent(gig, deals.push(d)),
{
    lemma_count_push(deals, gig.id, d);
}

/// Accepting a created deal against a listing and incrementing that
/// listing's counter together keep the registry consistent.
pub proof fn lemma_counter_after_accept(gig: Gig, deals: Seq<Deal>, i: int, now: i64)
    requires
        counter_consistent(gig, deals),
        0 <= i < deals.len(),
        deals[i].gig == gig.id,
        deals[i].state == DealState::Created,
        gig.pending_deals < u8::MAX,
    ensures
        counter_consistent(spec_inc_pending(gig), deals.update(i, spec_accepted_deal(deals[i], now))),
{
    lemma_count_update(deals, gig.id, i, spec_accepted_deal(deals[i], now));
}

/// Settling an accepted deal can never underflow its listing's counter —
/// consistency guarantees the counter is at least one — and decrementing
/// it keeps the registry consistent.
pub proof fn lemma_counter_after_complete(gig: Gig, deals: Seq<Deal>, i: int)
    requires
        counter_consistent(gig, deals),
        0 <= i < deals.len(),
        deals[i].gig == gig.id,
        deals[i].state == DealState::Accepted,
    ensures
        gig.pending_deals >= 1,
        counter_consistent(spec_dec_pending(gig), deals.update(i, spec_completed_deal(deals[i]))),
{
    lemma_count_element_bound(deals, gig.id, i);
    lemma_count_update(deals, gig.id, i, spec_completed_deal(deals[i]));
}

/// Cancelling a deal that was never accepted leaves every listing's
/// counter consistent: such a deal was never counted.
pub proof fn lemma_counter_after_cancel(gig: Gig, deals: Seq<Deal>, i: int)
    requires
        counter_consistent(gig, deals),
        0 <= i < deals.len(),
        deals[i].state == DealState::Created,
    ensures
        counter_consistent(gig, deals.remove(i)),
{
    lemma_count_remove(deals, gig.id, i);
}

} // verus!
