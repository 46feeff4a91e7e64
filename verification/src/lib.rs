//! A custodial value vault on an account-based ledger.
//!
//! Each user owns one deterministic fund sub-account ("vault") holding native
//! currency units, plus a small metadata record storing the two bump bytes
//! that re-derive both derived addresses. The operations are Create, Deposit,
//! Withdraw and Close; every one re-derives the expected addresses from
//! seeds, checks them against the supplied accounts, checks the balance
//! conditions, and only then moves funds. Address derivation itself is the
//! ledger runtime's, reached through a small set of trusted declarations in
//! [`pda`]; everything the program decides from the derivation results is
//! verified here.

use vstd::prelude::*;

pub mod accounts;
pub mod address;
pub mod error;
pub mod laws;
pub mod pda;
pub mod state;
pub mod vault;

use crate::error::VaultError;
use crate::pda::rederivation_ok;
use crate::vault::{
    close_post, close_result, deposit_post, deposit_result, initialize_post, initialize_result,
    withdraw_post, withdraw_result, Close, Initialize, VaultAction,
};

verus! {

/// Create a vault for the calling user: allocate the metadata record, fund
/// the vault with its minimum persistent balance, and store the two fresh
/// bumps.
pub fn initialize(ctx: &mut Initialize) -> (r: Result<(), VaultError>)
    requires
        old(ctx).inv(),
        old(ctx).record_rent + old(ctx).rent_exempt + old(ctx).user.reserve <= u64::MAX,
        old(ctx).vault.balance + old(ctx).rent_exempt <= u64::MAX,
        old(ctx).vault_state.rent + old(ctx).record_rent <= u64::MAX,
    ensures
        r == initialize_result(*old(ctx)),
        r is Ok ==> *final(ctx) == initialize_post(*old(ctx)),
        r is Err ==> *final(ctx) == *old(ctx),
        r is Ok ==> rederivation_ok(
            final(ctx).user.address@,
            final(ctx).vault_state.address@,
            final(ctx).vault.address@,
            final(ctx).vault_state.record,
            final(ctx).program_id@,
        ),
{
    ctx.initialize()
}

/// Move `amount` native units from the user's own account into the vault.
pub fn deposit(ctx: &mut VaultAction, amount: u64) -> (r: Result<(), VaultError>)
    requires
        old(ctx).inv(),
        old(ctx).user.balance + old(ctx).vault.balance <= u64::MAX,
    ensures
        r == deposit_result(*old(ctx), amount),
        r is Ok ==> *final(ctx) == deposit_post(*old(ctx), amount),
        r is Err ==> *final(ctx) == *old(ctx),
{
    ctx.deposit(amount)
}

/// Move `amount` native units from the vault back to the user.
pub fn withdraw(ctx: &mut VaultAction, amount: u64) -> (r: Result<(), VaultError>)
    requires
        old(ctx).inv(),
        old(ctx).user.balance + old(ctx).vault.balance <= u64::MAX,
    ensures
        r == withdraw_result(*old(ctx), amount),
        r is Ok ==> *final(ctx) == withdraw_post(*old(ctx), amount),
        r is Err ==> *final(ctx) == *old(ctx),
{
    ctx.withdraw(amount)
}

/// Empty the vault into the user's account, refund the record's rent, and
/// remove the record.
pub fn close(ctx: &mut Close) -> (r: Result<(), VaultError>)
    requires
        old(ctx).inv(),
        old(ctx).user.balance + old(ctx).vault.balance + old(ctx).vault_state.rent <= u64::MAX,
    ensures
        r == close_result(*old(ctx)),
        r is Ok ==> *final(ctx) == close_post(*old(ctx)),
        r is Err ==> *final(ctx) == *old(ctx),
{
    ctx.close()
}

} // verus!
