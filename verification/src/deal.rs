use vstd::prelude::*;

use crate::config::{AccountId, Config};
use crate::errors::CustomError;
use crate::fees::{
    lemma_settlement_reconciles, percentage_fee, spec_freelancer_pay, spec_referral_pay,
    spec_total_escrow, spec_treasury_pay, total_escrow,
};
use crate::gig::{spec_dec_pending, spec_inc_pending, Gig, GigState};

verus! {

/// Progress of an engagement.  Only three combinations are ever reachable:
/// created and awaiting acceptance, accepted and awaiting completion, and
/// completed.  A dispute flag lives on the deal itself, orthogonal to this
/// progression.
#[derive(Clone, Copy, Debug, PartialEq, Eq, Structural)]
pub enum DealState {
    Created,
    Accepted,
    Completed,
}

/// One paid engagement between a client and a listing's freelancer.
#[derive(Clone, Copy, Debug, PartialEq, Eq)]
pub struct Deal {
    /// The client who opened and funded the deal.
    pub client: AccountId,
    /// Copied from the listing's owner at creation, for immutability.
    pub freelancer: AccountId,
    /// Back-reference to the listing this deal was opened against.
    pub gig: AccountId,
    /// The agreed principal; at least the listing's asking amount.
    pub offer: u64,
    /// Absolute time by which the work must complete.
    pub deadline: i64,
    /// When the deal was created.
    pub time_created: i64,
    /// When the freelancer accepted; zero until then.
    pub time_accepted: i64,
    /// Optional third party owed a bounty when the deal completes.
    pub referrer: Option<AccountId>,
    pub state: DealState,
    /// Reserved dispute marker.  No transition here decides disputes; the
    /// flag never affects the main progression.
    pub disputed: bool,
}

/// The custodial balance funded at creation, owned by exactly one deal for
/// its whole lifetime and never shared.
#[derive(Debug)]
pub struct Escrow {
    pub balance: u64,
}

/// The request a client submits to open a deal.
#[derive(Clone, Copy, Debug, PartialEq, Eq)]
pub struct CreateDealParams {
    pub referrer: Option<AccountId>,
    pub offer: u64,
    pub deadline: i64,
}

/// The disbursement a completed deal owes: who is paid and how much.  The
/// three transfers are one atomic unit — either all are applied or none.
#[derive(Clone, Copy, Debug, PartialEq, Eq)]
pub struct Payout {
    pub freelancer: AccountId,
    pub freelancer_pay: u64,
    pub referrer: Option<AccountId>,
    pub referral_pay: u64,
    pub treasury: AccountId,
    pub treasury_pay: u64,
}

/// The deal record persisted by a successful creation at time `now`.
pub open spec fn spec_new_deal(
    gig: Gig,
    client: AccountId,
    params: CreateDealParams,
    now: i64,
) -> Deal {
    Deal {
        client,
        freelancer: gig.owner,
        gig: gig.id,
        offer: params.offer,
        deadline: params.deadline,
        time_created: now,
        time_accepted: 0,
        referrer: params.referrer,
        state: DealState::Created,
        disputed: false,
    }
}

/// The complete outcome of a creation request: either the error that
/// rejects it, or the persisted deal together with the escrowed amount and
/// the client's remaining balance.
pub open spec fn spec_create_deal(
    config: Config,
    gig: Gig,
    client: AccountId,
    params: CreateDealParams,
    now: i64,
    balance: u64,
) -> Result<(Deal, int, int), CustomError> {
    let total = spec_total_escrow(config, params.offer);
    if params.offer < gig.asking {
        Err(CustomError::InsufficientOffer)
    } else if params.deadline <= now + gig.min_completion_time {
        Err(CustomError::DeadlineTooShort)
    } else if balance < total {
        Err(CustomError::InsufficientFunds)
    } else {
        Ok((spec_new_deal(gig, client, params, now), total, balance - total))
    }
}

/// Acceptance is legal exactly when the caller owns the listing and the
/// deal still awaits acceptance.
pub open spec fn accept_allowed(deal: Deal, gig: Gig, caller: AccountId) -> bool {
    caller == gig.owner && deal.state == DealState::Created
}

/// `deal` once the freelancer has accepted it at time `now`.
pub open spec fn spec_accepted_deal(deal: Deal, now: i64) -> Deal {
    Deal { state: DealState::Accepted, time_accepted: now, ..deal }
}

/// Cancellation is legal exactly when the deal was never accepted and the
/// signer is the deal's client or the protocol authority.
pub open spec fn cancel_allowed(deal: Deal, config: Config, signer: AccountId) -> bool {
    deal.state == DealState::Created && (signer == deal.client || signer == config.authority)
}

/// Completion is legal exactly when the deal has been accepted (and not
/// yet settled) and the signer is the deal's client or the protocol
/// authority.
pub open spec fn complete_allowed(deal: Deal, config: Config, signer: AccountId) -> bool {
    deal.state == DealState::Accepted && (signer == deal.client || signer == config.authority)
}

/// `deal` once it has settled.  The record is kept for audit history.
pub open spec fn spec_completed_deal(deal: Deal) -> Deal {
    Deal { state: DealState::Completed, ..deal }
}

/// Opens a deal for `client` against a published listing: validates the
/// offer against the asking amount and the deadline against the listing's
/// minimum completion time, then moves the offer plus the client fee from
/// the client's balance into a fresh escrow holding owned by the new deal.
/// Validation happens before any funds move; on an error nothing changes.
/// The listing's ongoing count is untouched — a created deal is only
/// counted once it is accepted.
pub fn create_deal(
    config: &Config,
    gig: &Gig,
    client: AccountId,
    params: CreateDealParams,
    now: i64,
    client_balance: &mut u64,
) -> (r: Result<(Deal, Escrow), CustomError>)
    requires
        config.wf(),
        gig.state == GigState::Published,
        config.client_fee_percentage as int * params.offer as int <= u64::MAX as int,
        spec_total_escrow(*config, params.offer) <= u64::MAX as int,
        i64::MIN as int <= now + gig.min_completion_time <= i64::MAX as int,
    ensures
        ({
            let sp = spec_create_deal(*config, *gig, client, params, now, *old(client_balance));
            match sp {
                Ok(t) => {
                    &&& r matches Ok(p)
                    &&& p.0 == t.0
                    &&& p.1.balance == t.1
                    &&& *final(client_balance) == t.2
                },
                Err(e) => {
                    &&& r matches Err(e2)
                    &&& e2 == e
                    &&& *final(client_balance) == *old(client_balance)
                },
            }
        }),
{
    if params.offer < gig.asking {
        return Err(CustomError::InsufficientOffer);
    }
    if params.deadline <= now + gig.min_completion_time {
        return Err(CustomError::DeadlineTooShort);
    }
    let total = total_escrow(config, params.offer);
    if *client_balance < total {
        return Err(CustomError::InsufficientFunds);
    }
    *client_balance = *client_balance - total;
    let deal = Deal {
        client,
        freelancer: gig.owner,
        gig: gig.id,
        offer: params.offer,
        deadline: params.deadline,
        time_created: now,
        time_accepted: 0,
        referrer: params.referrer,
        state: DealState::Created,
        disputed: false,
    };
    Ok((deal, Escrow { balance: total }))
}

/// Lets the listing's owner take on a deal that awaits acceptance: stamps
/// the acceptance time, moves the deal forward, and counts it among the
/// listing's ongoing deals.  On an error nothing changes.
pub fn accept_deal(gig: &mut Gig, deal: &mut Deal, caller: AccountId, now: i64) -> (r: Result<
    (),
    CustomError,
>)
    requires
        old(deal).gig == old(gig).id,
        old(gig).pending_deals < u8::MAX,
    ensures
        r is Ok <==> accept_allowed(*old(deal), *old(gig), caller),
        r is Ok ==> *final(deal) == spec_accepted_deal(*old(deal), now) && *final(gig)
            == spec_inc_pending(*old(gig)),
        caller != old(gig).owner ==> r == Err::<(), CustomError>(CustomError::Unauthorized),
        caller == old(gig).owner && old(deal).state != DealState::Created ==> r == Err::<
            (),
            CustomError,
        >(CustomError::InvalidDealState),
        r is Err ==> *final(deal) == *old(deal) && *final(gig) == *old(gig),
{
    if caller != gig.owner {
        return Err(CustomError::Unauthorized);
    }
    if deal.state != DealState::Created {
        return Err(CustomError::InvalidDealState);
    }
    deal.state = DealState::Accepted;
    deal.time_accepted = now;
    gig.increment_pending();
    Ok(())
}

/// Cancels a deal that was never accepted: the whole escrowed balance —
/// offer and client fee alike — flows back to the client, and the holding
/// is zeroed so the storage layer can reclaim it together with the deal
/// record.  Only the client or the protocol authority may cancel, and a
/// deal that was ever accepted cannot be.  The listing's ongoing count is
/// untouched: an unaccepted deal was never counted.  On an error nothing
/// changes.
pub fn close_deal(
    config: &Config,
    deal: &Deal,
    escrow: &mut Escrow,
    signer: AccountId,
    client_balance: &mut u64,
) -> (r: Result<(), CustomError>)
    requires
        *old(client_balance) + old(escrow).balance <= u64::MAX,
    ensures
        r is Ok <==> cancel_allowed(*deal, *config, signer),
        r is Ok ==> final(escrow).balance == 0 && *final(client_balance) == *old(client_balance)
            + old(escrow).balance,
        deal.state != DealState::Created ==> r == Err::<(), CustomError>(
            CustomError::InvalidDealState,
        ),
        deal.state == DealState::Created && !(signer == deal.client || signer
            == config.authority) ==> r == Err::<(), CustomError>(CustomError::Unauthorized),
        r is Err ==> *final(escrow) == *old(escrow) && *final(client_balance) == *old(
            client_balance,
        ),
{
    if deal.state != DealState::Created {
        return Err(CustomError::InvalidDealState);
    }
    if !(signer == deal.client || signer == config.authority) {
        return Err(CustomError::Unauthorized);
    }
    *client_balance = *client_balance + escrow.balance;
    escrow.balance = 0;
    Ok(())
}

/// Settles an accepted deal: computes the freelancer's fee and the
/// referral bounty from the agreed offer (not the escrowed total), pays
/// the freelancer the
/// remainder of the offer, and hands the treasury everything else the
/// escrow still holds — both fee components and every rounding remainder —
/// so that the three payouts always add up to the escrowed balance
/// exactly.  The deal moves to its terminal state (the record is kept for
/// audit history), the listing's ongoing count drops by one, and the
/// emptied holding can be reclaimed.  Only the deal's client or the
/// protocol authority may settle.  On an error nothing changes.
pub fn complete_deal(
    config: &Config,
    gig: &mut Gig,
    deal: &mut Deal,
    escrow: &mut Escrow,
    signer: AccountId,
) -> (r: Result<Payout, CustomError>)
    requires
        config.wf(),
        old(deal).gig == old(gig).id,
        old(deal).state == DealState::Accepted ==> old(gig).pending_deals >= 1,
        config.freelancer_fee_percentage as int * old(deal).offer as int <= u64::MAX as int,
        config.referral_fee_percentage as int * old(deal).offer as int <= u64::MAX as int,
        old(escrow).balance >= old(deal).offer,
    ensures
        r is Ok <==> complete_allowed(*old(deal), *config, signer),
        old(deal).state != DealState::Accepted ==> r == Err::<Payout, CustomError>(
            CustomError::InvalidDealState,
        ),
        old(deal).state == DealState::Accepted && !(signer == old(deal).client || signer
            == config.authority) ==> r == Err::<Payout, CustomError>(CustomError::Unauthorized),
        r is Err ==> *final(deal) == *old(deal) && *final(gig) == *old(gig) && *final(escrow)
            == *old(escrow),
        r is Ok ==> (r matches Ok(p) && {
            let referred = old(deal).referrer is Some;
            &&& p.freelancer == old(deal).freelancer
            &&& p.referrer == old(deal).referrer
            &&& p.treasury == config.treasury
            &&& p.freelancer_pay == spec_freelancer_pay(*config, old(deal).offer, referred)
            &&& p.referral_pay == spec_referral_pay(*config, old(deal).offer, referred)
            &&& p.treasury_pay == spec_treasury_pay(
                *config,
                old(deal).offer,
                referred,
                old(escrow).balance,
            )
            &&& p.freelancer_pay + p.referral_pay + p.treasury_pay == old(escrow).balance
            &&& *final(deal) == spec_completed_deal(*old(deal))
            &&& *final(gig) == spec_dec_pending(*old(gig))
            &&& final(escrow).balance == 0
        }),
{
    if deal.state != DealState::Accepted {
        return Err(CustomError::InvalidDealState);
    }
    if !(signer == deal.client || signer == config.authority) {
        return Err(CustomError::Unauthorized);
    }
    proof {
        lemma_settlement_reconciles(
            *config,
            deal.offer,
            deal.referrer is Some,
            escrow.balance,
        );
    }
    let freelancer_fee = percentage_fee(config.freelancer_fee_percentage, deal.offer);
    let referral_pay = if deal.referrer.is_some() {
        percentage_fee(config.referral_fee_percentage, deal.offer)
    } else {
        0
    };
    let freelancer_pay = deal.offer - freelancer_fee - referral_pay;
    let treasury_pay = escrow.balance - freelancer_pay - referral_pay;
    let payout = Payout {
        freelancer: deal.freelancer,
        freelancer_pay,
        referrer: deal.referrer,
        referral_pay,
        treasury: config.treasury,
        treasury_pay,
    };
    escrow.balance = 0;
    deal.state = DealState::Completed;
    gig.decrement_pending();
    Ok(payout)
}

/// Acceptance is one-shot: once a deal has been accepted, no caller — not
/// even the listing's owner, and whatever has since happened to the
/// listing — may accept it again.  By `accept_deal`'s contract the second
/// attempt is rejected with the wrong-state error.
pub proof fn lemma_accept_deal_once(
    deal: Deal,
    gig: Gig,
    caller: AccountId,
    now: i64,
    gig2: Gig,
    caller2: AccountId,
)
    requires
        accept_allowed(deal, gig, caller),
    ensures
        !accept_allowed(spec_accepted_deal(deal, now), gig2, caller2),
{
}

/// Cancellation is legal only while a deal still awaits acceptance: once
/// accepted — and all the more once completed — no signer, client or
/// authority, may cancel it.  By `close_deal`'s contract such an attempt
/// is rejected with the wrong-state error.
pub proof fn lemma_no_cancel_after_accept(deal: Deal, config: Config, now: i64, signer: AccountId)
    ensures
        !cancel_allowed(spec_accepted_deal(deal, now), config, signer),
        !cancel_allowed(spec_completed_deal(spec_accepted_deal(deal, now)), config, signer),
{
}

/// Cancelling before acceptance is a full round trip for the client: a
/// successful creation escrows exactly what it deducts, so refunding the
/// whole escrow — as `close_deal` does — restores the balance held before
/// creation, to the last unit.
pub proof fn lemma_cancel_round_trip(
    config: Config,
    gig: Gig,
    client: AccountId,
    params: CreateDealParams,
    now: i64,
    balance: u64,
)
    requires
        spec_create_deal(config, gig, client, params, now, balance) is Ok,
    ensures
        ({
            let t = spec_create_deal(config, gig, client, params, now, balance)->Ok_0;
            t.2 + t.1 == balance
        }),
{
}

} // verus!
