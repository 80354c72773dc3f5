use vstd::prelude::*;

verus! {

/// Everything that can go wrong in a marketplace operation.
///
/// Validation errors (`InsufficientOffer`, `DeadlineTooShort`,
/// `InvalidDealState`, `GigHasPendingDeals`) are caller-correctable;
/// `Unauthorized` is a failed identity check; `InsufficientFunds` means the
/// payer's balance cannot cover the required escrow; `AlreadyInitialized`
/// rejects a second protocol configuration.
#[derive(Clone, Copy, Debug, PartialEq, Eq, Structural)]
pub enum CustomError {
    InsufficientOffer,
    DeadlineTooShort,
    InvalidDealState,
    GigHasPendingDeals,
    Unauthorized,
    InsufficientFunds,
    AlreadyInitialized,
}

} // verus!
