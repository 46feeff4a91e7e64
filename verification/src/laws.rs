//! Laws of the vault state machine, proved once and for all over the spec
//! functions that the operations' contracts are stated in.
//!
//! One law is deliberately not here: that a successful Create leaves a
//! context whose stored bumps re-derive exactly the addresses it used. That
//! fact rests on what the derivation wrappers learn at the call site, so it
//! stands as the final `ensures` clause of [`crate::vault::Initialize::initialize`].

use vstd::prelude::*;

use crate::error::VaultError;
use crate::vault::{
    close_post, close_result, deposit_post, deposit_result, withdraw_post, withdraw_result, Close,
    VaultAction,
};

verus! {

/// Depositing a positive amount into a valid open vault and then withdrawing
/// the same amount both succeed and leave the user's balance and the vault's
/// balance exactly where they started — in fact the whole context is back to
/// its initial value.
pub proof fn lemma_deposit_withdraw_round_trip(pre: VaultAction, amount: u64)
    requires
        pre.derivation_ok(),
        amount > 0,
        amount + pre.user.reserve <= pre.user.balance,
        pre.user.balance + pre.vault.balance <= u64::MAX,
    ensures
        deposit_result(pre, amount) is Ok,
        withdraw_result(deposit_post(pre, amount), amount) is Ok,
        withdraw_post(deposit_post(pre, amount), amount).user.balance == pre.user.balance,
        withdraw_post(deposit_post(pre, amount), amount).vault.balance == pre.vault.balance,
        withdraw_post(deposit_post(pre, amount), amount) == pre,
{
    let mid = deposit_post(pre, amount);
    assert(mid.derivation_ok());
    assert(withdraw_post(mid, amount) =~= pre);
}

/// Withdraw fails with `InsufficientFunds`, and with nothing else, whenever
/// the requested amount exceeds the vault's current balance; that a failed
/// call leaves every balance untouched is part of the `ensures` of
/// [`crate::vault::VaultAction::withdraw`] itself.
pub proof fn lemma_withdraw_insufficient_funds(pre: VaultAction, amount: u64)
    requires
        pre.derivation_ok(),
        amount > pre.vault.balance,
    ensures
        withdraw_result(pre, amount) == Err::<(), VaultError>(VaultError::InsufficientFunds),
{
}

/// Close on a valid open vault always succeeds, hands the vault's entire
/// balance plus the record's rent reserve to the user, empties the vault and
/// removes the record — after which a second Close must fail, because no
/// record is left for re-derivation to validate against.
pub proof fn lemma_close_pays_out_and_is_final(pre: Close)
    requires
        pre.derivation_ok(),
        pre.user.balance + pre.vault.balance + pre.vault_state.rent <= u64::MAX,
    ensures
        close_result(pre) is Ok,
        close_post(pre).user.balance == pre.user.balance + pre.vault.balance
            + pre.vault_state.rent,
        close_post(pre).vault.balance == 0,
        close_post(pre).vault_state.record is None,
        close_result(close_post(pre)) == Err::<(), VaultError>(VaultError::InvalidVaultAddress),
{
}

} // verus!
