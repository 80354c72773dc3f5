use vstd::prelude::*;

use crate::errors::CustomError;

verus! {

/// A verified caller or account identity, as handed in by the out-of-scope
/// authorization layer.  The engine only ever compares identities for
/// equality, so a plain numeric key suffices.
pub type AccountId = u64;

/// Percentages carry two implied decimal places: `10000` means 100.00%.
pub const FEE_SCALE: u64 = 10000;

/// Protocol-wide settings, created once by the administrative authority and
/// read-only to every other component.
#[derive(Clone, Copy, Debug, PartialEq, Eq, Structural)]
pub struct Config {
    /// Super authority: may act as a tie-breaker signer on deal transitions.
    pub authority: AccountId,
    /// Account that receives all collected protocol fees.
    pub treasury: AccountId,
    /// Fee rate charged to the client on every deal, in units of 1/10000.
    pub client_fee_percentage: u16,
    /// Floor for the client fee, in the settlement currency's smallest unit.
    pub client_fee_min: u64,
    /// Fee rate charged to the freelancer on completion, in units of 1/10000.
    pub freelancer_fee_percentage: u16,
    /// Referral bounty rate paid on completion, in units of 1/10000.
    pub referral_fee_percentage: u16,
}

impl Config {
    /// The fee parameters the administrative authority promises to keep:
    /// each rate is at most 100.00%, and the freelancer and referral rates
    /// combined never exceed 100.00%, so the two completion fees together
    /// can never exceed the offer they are taken from.
    pub open spec fn wf(self) -> bool {
        &&& self.client_fee_percentage <= FEE_SCALE
        &&& self.freelancer_fee_percentage + self.referral_fee_percentage <= FEE_SCALE
    }
}

/// The fee parameters handed to `ConfigStore::initialize`.
#[derive(Clone, Copy, Debug, PartialEq, Eq, Structural)]
pub struct InitializeParams {
    pub client_fee_percentage: u16,
    pub client_fee_min: u64,
    pub freelancer_fee_percentage: u16,
    pub referral_fee_percentage: u16,
}

impl InitializeParams {
    /// Same bounds as `Config::wf`, stated on the raw parameters.
    pub open spec fn wf(self) -> bool {
        &&& self.client_fee_percentage <= FEE_SCALE
        &&& self.freelancer_fee_percentage + self.referral_fee_percentage <= FEE_SCALE
    }
}

/// Holds the configuration singleton.  `admin` is the protocol's designated
/// administrative authority, fixed by the deployment.
pub struct ConfigStore {
    pub admin: AccountId,
    pub config: Option<Config>,
}

impl ConfigStore {
    /// A fresh store for a deployment administered by `admin`; no
    /// configuration exists yet.
    pub fn new(admin: AccountId) -> (s: ConfigStore)
        ensures
            s.admin == admin,
            s.config is None,
    {
        ConfigStore { admin, config: None }
    }

    /// Creates the configuration singleton.  Only the administrative
    /// authority may call this, and only once: the caller becomes the
    /// recorded authority and `treasury` the fee destination.
    pub fn initialize(
        &mut self,
        caller: AccountId,
        treasury: AccountId,
        params: InitializeParams,
    ) -> (r: Result<(), CustomError>)
        requires
            params.wf(),
        ensures
            r is Ok <==> caller == old(self).admin && old(self).config is None,
            caller != old(self).admin ==> r == Err::<(), CustomError>(CustomError::Unauthorized),
            caller == old(self).admin && old(self).config is Some ==> r == Err::<(), CustomError>(
                CustomError::AlreadyInitialized,
            ),
            r is Err ==> *final(self) == *old(self),
            final(self).admin == old(self).admin,
            r is Ok ==> (final(self).config matches Some(c) && c == (Config {
                authority: caller,
                treasury,
                client_fee_percentage: params.client_fee_percentage,
                client_fee_min: params.client_fee_min,
                freelancer_fee_percentage: params.freelancer_fee_percentage,
                referral_fee_percentage: params.referral_fee_percentage,
            })),
            r is Ok ==> (final(self).config matches Some(c) && c.wf()),
    {
        if caller != self.admin {
            return Err(CustomError::Unauthorized);
        }
        if self.config.is_some() {
            return Err(CustomError::AlreadyInitialized);
        }
        self.config = Some(
            Config {
                authority: caller,
                treasury,
                client_fee_percentage: params.client_fee_percentage,
                client_fee_min: params.client_fee_min,
                freelancer_fee_percentage: params.freelancer_fee_percentage,
                referral_fee_percentage: params.referral_fee_percentage,
            },
        );
        Ok(())
    }
}

} // verus!
