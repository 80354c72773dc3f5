use vstd::prelude::*;

use crate::config::{AccountId, Config};
use crate::errors::CustomError;

verus! {

/// Whether a listing is visible to clients.  Deals may only be opened
/// against a published listing.
#[derive(Clone, Copy, Debug, PartialEq, Eq, Structural)]
pub enum GigState {
    Unpublished,
    Published,
}

/// A service listing created by a freelancer.
#[derive(Clone, Copy, Debug, PartialEq, Eq)]
pub struct Gig {
    /// Registry key of this listing; every deal carries it as a back-reference.
    pub id: AccountId,
    /// The freelancer who owns this listing.
    pub owner: AccountId,
    /// Who funded the listing's storage; refunded when the listing is closed.
    pub payer: AccountId,
    pub state: GigState,
    /// How many deals against this listing are currently accepted and
    /// ongoing.  Incremented when the freelancer accepts a deal, decremented
    /// when an accepted deal settles; it must never underflow.
    pub pending_deals: u8,
    /// Service category being offered.
    pub category: u8,
    /// Skill flags under the chosen category.
    pub skills: u64,
    /// The minimum acceptable offer.
    pub asking: u64,
    /// The minimum duration, in seconds, that a deal's deadline must leave
    /// between creation and completion.
    pub min_completion_time: i64,
    /// The settlement currency accepted for this listing; `None` means the
    /// native base currency.
    pub mint: Option<AccountId>,
}

/// The parameters a freelancer chooses when publishing a listing.
#[derive(Clone, Copy, Debug, PartialEq, Eq, Structural)]
pub struct CreateGigParams {
    pub category: u8,
    pub skills: u64,
    pub asking: u64,
    pub min_completion_time: i64,
}

/// `g` after one more deal has been accepted against it.
pub open spec fn spec_inc_pending(g: Gig) -> Gig {
    Gig { pending_deals: (g.pending_deals + 1) as u8, ..g }
}

/// `g` after one of its accepted deals has settled.
pub open spec fn spec_dec_pending(g: Gig) -> Gig {
    Gig { pending_deals: (g.pending_deals - 1) as u8, ..g }
}

/// Publishes a new listing with no ongoing deals.
pub fn create_gig(
    id: AccountId,
    owner: AccountId,
    payer: AccountId,
    mint: Option<AccountId>,
    params: CreateGigParams,
) -> (g: Gig)
    ensures
        g == (Gig {
            id,
            owner,
            payer,
            state: GigState::Published,
            pending_deals: 0,
            category: params.category,
            skills: params.skills,
            asking: params.asking,
            min_completion_time: params.min_completion_time,
            mint,
        }),
{
    Gig {
        id,
        owner,
        payer,
        state: GigState::Published,
        pending_deals: 0,
        category: params.category,
        skills: params.skills,
        asking: params.asking,
        min_completion_time: params.min_completion_time,
        mint,
    }
}

/// Checks that a listing may be reclaimed: the caller must be its owner or
/// the protocol authority, and no accepted deal may still be ongoing.  On
/// success, returns the identity owed the storage refund — the recorded
/// payer.  The record itself is reclaimed by the storage layer afterwards.
pub fn close_gig(gig: &Gig, config: &Config, caller: AccountId) -> (r: Result<
    AccountId,
    CustomError,
>)
    ensures
        r is Ok <==> (caller == gig.owner || caller == config.authority) && gig.pending_deals
            == 0,
        r is Ok ==> r == Ok::<AccountId, CustomError>(gig.payer),
        !(caller == gig.owner || caller == config.authority) ==> r == Err::<
            AccountId,
            CustomError,
        >(CustomError::Unauthorized),
        (caller == gig.owner || caller == config.authority) && gig.pending_deals != 0 ==> r
            == Err::<AccountId, CustomError>(CustomError::GigHasPendingDeals),
{
    if !(caller == gig.owner || caller == config.authority) {
        return Err(CustomError::Unauthorized);
    }
    if gig.pending_deals != 0 {
        return Err(CustomError::GigHasPendingDeals);
    }
    Ok(gig.payer)
}

impl Gig {
    /// Registers one newly accepted deal against this listing.
    pub fn increment_pending(&mut self)
        requires
            old(self).pending_deals < u8::MAX,
        ensures
            *final(self) == spec_inc_pending(*old(self)),
    {
        self.pending_deals = self.pending_deals + 1;
    }

    /// Removes one settled deal from this listing's ongoing count.  The
    /// count can never underflow: a deal is only ever settled after it was
    /// accepted, and acceptance is what incremented the count.
    pub fn decrement_pending(&mut self)
        requires
            old(self).pending_deals >= 1,
        ensures
            *final(self) == spec_dec_pending(*old(self)),
    {
        self.pending_deals = self.pending_deals - 1;
    }
}

} // verus!
