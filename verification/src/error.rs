//! The closed set of failure codes that the vault operations return.

use vstd::prelude::*;

verus! {

/// Everything that can go wrong in a vault operation. A failed operation
/// applies no effect: the caller gets one of these codes and every account
/// involved keeps the balance and data it had before the call.
#[derive(Clone, Copy, Debug, PartialEq, Eq, Structural)]
pub enum VaultError {
    /// Create was attempted while a metadata record already sits at the
    /// derived address (an address collision).
    VaultAlreadyExists,
    /// A zero amount was supplied to Deposit or Withdraw.
    InvalidAmount,
    /// A supplied account does not match re-derivation from the stored bumps;
    /// checked before any transfer is attempted.
    InvalidVaultAddress,
    /// The source account cannot cover the requested amount plus any required
    /// reserve.
    InsufficientFunds,
}

} // verus!
