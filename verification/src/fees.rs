use vstd::prelude::*;

use vstd::arithmetic::div_mod::{
    lemma_div_pos_is_pos, lemma_fundamental_div_mod, lemma_mod_division_less_than_divisor,
    lemma_multiply_divide_le,
};
use vstd::arithmetic::mul::{lemma_mul_inequality, lemma_mul_nonnegative};

use crate::config::{Config, FEE_SCALE};

verus! {

/// The percentage fee at rate `pct` (in units of 1/10000) on `amount`, with
/// the fractional remainder rounded down.
pub open spec fn spec_percentage_fee(pct: u16, amount: u64) -> int {
    (pct * amount) / (FEE_SCALE as int)
}

/// The fee charged to the client when a deal over `offer` is created: the
/// percentage fee, but never less than the configured floor.
pub open spec fn spec_client_fee(config: Config, offer: u64) -> int {
    let pct_fee = spec_percentage_fee(config.client_fee_percentage, offer);
    if pct_fee < config.client_fee_min {
        config.client_fee_min as int
    } else {
        pct_fee
    }
}

/// The amount a client must escrow to open a deal: the offer itself plus the
/// client fee.
pub open spec fn spec_total_escrow(config: Config, offer: u64) -> int {
    offer + spec_client_fee(config, offer)
}

/// Computes the percentage fee on `amount` at rate `pct`.
pub fn percentage_fee(pct: u16, amount: u64) -> (r: u64)
    requires
        pct as int * amount as int <= u64::MAX as int,
    ensures
        r == spec_percentage_fee(pct, amount),
{
    (pct as u64) * amount / FEE_SCALE
}

/// Computes the client fee for a deal over `offer`.
pub fn client_fee(config: &Config, offer: u64) -> (r: u64)
    requires
        config.client_fee_percentage as int * offer as int <= u64::MAX as int,
    ensures
        r == spec_client_fee(*config, offer),
{
    let pct_fee = percentage_fee(config.client_fee_percentage, offer);
    if pct_fee < config.client_fee_min {
        config.client_fee_min
    } else {
        pct_fee
    }
}

/// Computes the total amount the client must escrow for a deal over `offer`.
pub fn total_escrow(config: &Config, offer: u64) -> (r: u64)
    requires
        config.client_fee_percentage as int * offer as int <= u64::MAX as int,
        spec_total_escrow(*config, offer) <= u64::MAX as int,
    ensures
        r == spec_total_escrow(*config, offer),
{
    offer + client_fee(config, offer)
}

/// The fee withheld from the freelancer when a deal over `offer` completes.
pub open spec fn spec_freelancer_fee(config: Config, offer: u64) -> int {
    spec_percentage_fee(config.freelancer_fee_percentage, offer)
}

/// The referral bounty paid when a deal over `offer` completes: a
/// percentage of the offer if a referrer was recorded, nothing otherwise.
pub open spec fn spec_referral_pay(config: Config, offer: u64, referred: bool) -> int {
    if referred {
        spec_percentage_fee(config.referral_fee_percentage, offer)
    } else {
        0
    }
}

/// What the freelancer takes home: the offer less their fee and the
/// referral bounty.
pub open spec fn spec_freelancer_pay(config: Config, offer: u64, referred: bool) -> int {
    offer - spec_freelancer_fee(config, offer) - spec_referral_pay(config, offer, referred)
}

/// What the treasury collects: whatever of the escrowed balance the other
/// two payouts leave behind.  Defining it as the residual — never by an
/// independent formula — is what guarantees the three payouts reconcile
/// exactly against the escrow despite rounding in the other two.
pub open spec fn spec_treasury_pay(
    config: Config,
    offer: u64,
    referred: bool,
    escrow_balance: u64,
) -> int {
    escrow_balance - spec_freelancer_pay(config, offer, referred) - spec_referral_pay(
        config,
        offer,
        referred,
    )
}

/// A fee at a rate of at most 100.00% never exceeds the amount it is taken
/// from, and is never negative.
pub proof fn lemma_percentage_fee_bounds(pct: u16, amount: u64)
    requires
        pct <= FEE_SCALE,
    ensures
        0 <= spec_percentage_fee(pct, amount) <= amount,
{
    let d = FEE_SCALE as int;
    lemma_mul_nonnegative(pct as int, amount as int);
    lemma_div_pos_is_pos(pct * amount, d);
    lemma_mul_inequality(pct as int, d, amount as int);
    lemma_multiply_divide_le(pct * amount, d, amount as int);
}

/// Two fees taken from the same amount, at rates that together stay at or
/// under 100.00%, never add up to more than the amount: rounding each fee
/// down separately only helps.
pub proof fn lemma_combined_fee_bounds(p1: u16, p2: u16, amount: u64)
    requires
        p1 + p2 <= FEE_SCALE,
    ensures
        0 <= spec_percentage_fee(p1, amount) + spec_percentage_fee(p2, amount) <= amount,
{
    let d = FEE_SCALE as int;
    let a = p1 * amount;
    let b = p2 * amount;
    let fa = a / d;
    let fb = b / d;
    lemma_percentage_fee_bounds(p1, amount);
    lemma_percentage_fee_bounds(p2, amount);
    lemma_fundamental_div_mod(a, d);
    lemma_fundamental_div_mod(b, d);
    lemma_mod_division_less_than_divisor(a, d);
    lemma_mod_division_less_than_divisor(b, d);
    assert(a + b == (p1 + p2) * amount) by (nonlinear_arith)
        requires
            a == p1 * amount,
            b == p2 * amount,
    ;
    lemma_mul_inequality(p1 + p2, d, amount as int);
    assert(fa + fb <= amount) by (nonlinear_arith)
        requires
            d == 10000,
            a == d * fa + a % d,
            b == d * fb + b % d,
            a % d >= 0,
            b % d >= 0,
            a + b <= d * amount,
    ;
}

/// The settlement of a completed deal is exact and all-or-nothing: for
/// every combination of well-formed fee rates, with or without a referrer,
/// the three payouts are each non-negative and together add up to the
/// escrowed balance to the last unit — the treasury absorbs both fee
/// components and every rounding remainder.
pub proof fn lemma_settlement_reconciles(
    config: Config,
    offer: u64,
    referred: bool,
    escrow_balance: u64,
)
    requires
        config.wf(),
        escrow_balance >= offer,
    ensures
        spec_freelancer_pay(config, offer, referred) + spec_referral_pay(config, offer, referred)
            + spec_treasury_pay(config, offer, referred, escrow_balance) == escrow_balance,
        0 <= spec_freelancer_fee(config, offer) <= offer,
        0 <= spec_referral_pay(config, offer, referred) <= offer,
        0 <= spec_freelancer_pay(config, offer, referred) <= offer,
        spec_freelancer_pay(config, offer, referred) + spec_referral_pay(config, offer, referred)
            <= offer,
        0 <= spec_treasury_pay(config, offer, referred, escrow_balance) <= escrow_balance,
{
    lemma_percentage_fee_bounds(config.freelancer_fee_percentage, offer);
    lemma_percentage_fee_bounds(config.referral_fee_percentage, offer);
    lemma_combined_fee_bounds(
        config.freelancer_fee_percentage,
        config.referral_fee_percentage,
        offer,
    );
}

/// The escrowed total always covers the offer, and the client fee never
/// falls below the configured floor.
pub proof fn lemma_total_escrow_bounds(config: Config, offer: u64)
    requires
        config.wf(),
    ensures
        spec_client_fee(config, offer) >= config.client_fee_min,
        spec_client_fee(config, offer) >= 0,
        spec_total_escrow(config, offer) >= offer,
{
    lemma_percentage_fee_bounds(config.client_fee_percentage, offer);
}

} // verus!
