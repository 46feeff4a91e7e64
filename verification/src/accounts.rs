//! Plain-value views of the ledger accounts an operation touches.
//!
//! The runtime resolves account references and hands each operation the
//! balances and record data below; the operation returns either an error (and
//! changes nothing) or the new values, which the runtime writes back
//! atomically.

use vstd::prelude::*;

use crate::address::Address;
use crate::state::VaultState;

verus! {

/// The calling user's own account: the direct signer, source of deposits and
/// destination of withdrawals. `reserve` is the minimum balance the ledger
/// requires the account to keep for itself; a transfer out of the account may
/// not take the balance below it.
#[derive(Clone, Debug)]
pub struct UserAccount {
    pub address: Address,
    pub balance: u64,
    pub reserve: u64,
}

/// The account holding the metadata record. `record` is the deserialized
/// payload — present exactly while the user's vault is open — and `rent` is
/// the balance the account holds as its own rent reserve, refunded to the
/// user when the record is closed.
#[derive(Clone, Debug)]
pub struct StateAccount {
    pub address: Address,
    pub record: Option<VaultState>,
    pub rent: u64,
}

/// The fund sub-account ("vault"). It carries no data of its own, only a
/// balance of native units.
#[derive(Clone, Debug)]
pub struct VaultAccount {
    pub address: Address,
    pub balance: u64,
}

} // verus!
