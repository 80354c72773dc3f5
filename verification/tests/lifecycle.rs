use deezjobs::config::Config;
use deezjobs::deal::{
    accept_deal, close_deal, complete_deal, create_deal, CreateDealParams, Deal, DealState,
    Escrow,
};
use deezjobs::errors::CustomError;
use deezjobs::gig::{close_gig, create_gig, CreateGigParams, Gig, GigState};

const AUTHORITY: u64 = 1;
const TREASURY: u64 = 2;
const FREELANCER: u64 = 11;
const PAYER: u64 = 12;
const CLIENT: u64 = 21;
const REFERRER: u64 = 31;
const GIG_ID: u64 = 7;

fn test_config() -> Config {
    Config {
        authority: AUTHORITY,
        treasury: TREASURY,
        client_fee_percentage: 500,
        client_fee_min: 10,
        freelancer_fee_percentage: 200,
        referral_fee_percentage: 100,
    }
}

fn test_gig(asking: u64) -> Gig {
    create_gig(
        GIG_ID,
        FREELANCER,
        PAYER,
        None,
        CreateGigParams { category: 1, skills: 0, asking, min_completion_time: 100 },
    )
}

fn funded_deal(
    config: &Config,
    gig: &Gig,
    referrer: Option<u64>,
    balance: &mut u64,
) -> (Deal, Escrow) {
    create_deal(
        config,
        gig,
        CLIENT,
        CreateDealParams { referrer, offer: 1000, deadline: 2000 },
        5,
        balance,
    )
    .unwrap()
}

#[test]
fn create_deal_escrows_offer_plus_fee() {
    let config = test_config();
    let gig = test_gig(1000);
    let mut balance: u64 = 5000;
    let (deal, escrow) = funded_deal(&config, &gig, Some(REFERRER), &mut balance);
    // client_fee = max(floor(500 * 1000 / 10000), 10) = 50
    assert_eq!(escrow.balance, 1050);
    assert_eq!(balance, 5000 - 1050);
    assert_eq!(deal.state, DealState::Created);
    assert_eq!(deal.client, CLIENT);
    assert_eq!(deal.freelancer, FREELANCER);
    assert_eq!(deal.gig, GIG_ID);
    assert_eq!(deal.offer, 1000);
    assert_eq!(deal.time_created, 5);
    assert_eq!(deal.time_accepted, 0);
    assert_eq!(deal.referrer, Some(REFERRER));
}

#[test]
fn completion_with_referrer_splits_exactly() {
    let config = test_config();
    let mut gig = test_gig(1000);
    let mut balance: u64 = 5000;
    let (mut deal, mut escrow) = funded_deal(&config, &gig, Some(REFERRER), &mut balance);

    accept_deal(&mut gig, &mut deal, FREELANCER, 9).unwrap();
    assert_eq!(deal.state, DealState::Accepted);
    assert_eq!(deal.time_accepted, 9);
    assert_eq!(gig.pending_deals, 1);

    let payout = complete_deal(&config, &mut gig, &mut deal, &mut escrow, CLIENT).unwrap();
    assert_eq!(payout.freelancer, FREELANCER);
    assert_eq!(payout.freelancer_pay, 970);
    assert_eq!(payout.referrer, Some(REFERRER));
    assert_eq!(payout.referral_pay, 10);
    assert_eq!(payout.treasury, TREASURY);
    assert_eq!(payout.treasury_pay, 70);
    assert_eq!(payout.freelancer_pay + payout.referral_pay + payout.treasury_pay, 1050);
    assert_eq!(escrow.balance, 0);
    assert_eq!(deal.state, DealState::Completed);
    assert_eq!(gig.pending_deals, 0);
}

#[test]
fn completion_without_referrer_pays_freelancer_the_bounty_share() {
    let config = test_config();
    let mut gig = test_gig(1000);
    let mut balance: u64 = 5000;
    let (mut deal, mut escrow) = funded_deal(&config, &gig, None, &mut balance);

    accept_deal(&mut gig, &mut deal, FREELANCER, 9).unwrap();
    let payout = complete_deal(&config, &mut gig, &mut deal, &mut escrow, CLIENT).unwrap();
    assert_eq!(payout.freelancer_pay, 980);
    assert_eq!(payout.referral_pay, 0);
    assert_eq!(payout.treasury_pay, 70);
    assert_eq!(payout.freelancer_pay + payout.referral_pay + payout.treasury_pay, 1050);
}

#[test]
fn cancellation_restores_the_client_balance() {
    let config = test_config();
    let gig = test_gig(1000);
    let mut balance: u64 = 5000;
    let (deal, mut escrow) = funded_deal(&config, &gig, None, &mut balance);
    assert_eq!(balance, 3950);

    close_deal(&config, &deal, &mut escrow, CLIENT, &mut balance).unwrap();
    assert_eq!(balance, 5000);
    assert_eq!(escrow.balance, 0);
}

#[test]
fn insufficient_offer_is_rejected_before_any_escrow() {
    let config = test_config();
    let gig = test_gig(150);
    let mut balance: u64 = 5000;
    let r = create_deal(
        &config,
        &gig,
        CLIENT,
        CreateDealParams { referrer: None, offer: 100, deadline: 2000 },
        5,
        &mut balance,
    );
    assert_eq!(r.unwrap_err(), CustomError::InsufficientOffer);
    assert_eq!(balance, 5000);
}

#[test]
fn deadline_must_strictly_clear_the_minimum_completion_time() {
    let config = test_config();
    let gig = test_gig(1000);
    let mut balance: u64 = 5000;
    // now + min_completion_time == 105; a deadline of exactly 105 is too short.
    let r = create_deal(
        &config,
        &gig,
        CLIENT,
        CreateDealParams { referrer: None, offer: 1000, deadline: 105 },
        5,
        &mut balance,
    );
    assert_eq!(r.unwrap_err(), CustomError::DeadlineTooShort);
    assert_eq!(balance, 5000);

    let r = create_deal(
        &config,
        &gig,
        CLIENT,
        CreateDealParams { referrer: None, offer: 1000, deadline: 106 },
        5,
        &mut balance,
    );
    assert!(r.is_ok());
}

#[test]
fn insufficient_balance_is_rejected_unchanged() {
    let config = test_config();
    let gig = test_gig(1000);
    let mut balance: u64 = 1049;
    let r = create_deal(
        &config,
        &gig,
        CLIENT,
        CreateDealParams { referrer: None, offer: 1000, deadline: 2000 },
        5,
        &mut balance,
    );
    assert_eq!(r.unwrap_err(), CustomError::InsufficientFunds);
    assert_eq!(balance, 1049);
}

#[test]
fn accepting_twice_fails_with_invalid_state() {
    let config = test_config();
    let mut gig = test_gig(1000);
    let mut balance: u64 = 5000;
    let (mut deal, _escrow) = funded_deal(&config, &gig, None, &mut balance);

    accept_deal(&mut gig, &mut deal, FREELANCER, 9).unwrap();
    let second = accept_deal(&mut gig, &mut deal, FREELANCER, 10);
    assert_eq!(second.unwrap_err(), CustomError::InvalidDealState);
    assert_eq!(gig.pending_deals, 1);
    assert_eq!(deal.time_accepted, 9);
}

#[test]
fn cancelling_after_acceptance_fails_with_invalid_state() {
    let config = test_config();
    let mut gig = test_gig(1000);
    let mut balance: u64 = 5000;
    let (mut deal, mut escrow) = funded_deal(&config, &gig, None, &mut balance);

    accept_deal(&mut gig, &mut deal, FREELANCER, 9).unwrap();
    let r = close_deal(&config, &deal, &mut escrow, CLIENT, &mut balance);
    assert_eq!(r.unwrap_err(), CustomError::InvalidDealState);
    assert_eq!(escrow.balance, 1050);
    assert_eq!(balance, 3950);
}

#[test]
fn completing_twice_fails_with_invalid_state() {
    let config = test_config();
    let mut gig = test_gig(1000);
    let mut balance: u64 = 5000;
    let (mut deal, mut escrow) = funded_deal(&config, &gig, None, &mut balance);

    accept_deal(&mut gig, &mut deal, FREELANCER, 9).unwrap();
    complete_deal(&config, &mut gig, &mut deal, &mut escrow, CLIENT).unwrap();
    let again = complete_deal(&config, &mut gig, &mut deal, &mut escrow, CLIENT);
    assert_eq!(again.unwrap_err(), CustomError::InvalidDealState);
    assert_eq!(gig.pending_deals, 0);
}

#[test]
fn completing_an_unaccepted_deal_fails_with_invalid_state() {
    let config = test_config();
    let mut gig = test_gig(1000);
    let mut balance: u64 = 5000;
    let (mut deal, mut escrow) = funded_deal(&config, &gig, None, &mut balance);

    let r = complete_deal(&config, &mut gig, &mut deal, &mut escrow, CLIENT);
    assert_eq!(r.unwrap_err(), CustomError::InvalidDealState);
    assert_eq!(deal.state, DealState::Created);
    assert_eq!(escrow.balance, 1050);
}

#[test]
fn gig_with_ongoing_deal_cannot_be_closed() {
    let config = test_config();
    let mut gig = test_gig(1000);
    let mut balance: u64 = 5000;
    let (mut deal, mut escrow) = funded_deal(&config, &gig, None, &mut balance);

    // A created-but-unaccepted deal does not block closure.
    assert!(close_gig(&gig, &config, FREELANCER).is_ok());

    accept_deal(&mut gig, &mut deal, FREELANCER, 9).unwrap();
    let r = close_gig(&gig, &config, FREELANCER);
    assert_eq!(r.unwrap_err(), CustomError::GigHasPendingDeals);

    complete_deal(&config, &mut gig, &mut deal, &mut escrow, CLIENT).unwrap();
    assert_eq!(gig.pending_deals, 0);
    assert_eq!(close_gig(&gig, &config, FREELANCER).unwrap(), PAYER);
}

#[test]
fn a_published_gig_starts_with_no_pending_deals() {
    let gig = test_gig(1000);
    assert_eq!(gig.state, GigState::Published);
    assert_eq!(gig.pending_deals, 0);
    assert_eq!(gig.owner, FREELANCER);
    assert_eq!(gig.payer, PAYER);
    assert_eq!(gig.asking, 1000);
    assert_eq!(gig.min_completion_time, 100);
    assert_eq!(gig.mint, None);
}

#[test]
fn offer_equal_to_asking_is_accepted() {
    let config = test_config();
    let gig = test_gig(1000);
    let mut balance: u64 = 5000;
    let r = create_deal(
        &config,
        &gig,
        CLIENT,
        CreateDealParams { referrer: None, offer: 1000, deadline: 2000 },
        5,
        &mut balance,
    );
    assert!(r.is_ok());
}
