//! The vault state machine: Create, Deposit, Withdraw, Close.
//!
//! Each operation context mirrors the set of accounts the runtime hands the
//! program for that operation. A method checks the re-derivation, authority
//! and balance conditions in a fixed order and, only when every check passes,
//! applies the balance moves; on any error the context is left exactly as it
//! was, matching the runtime's atomic rollback. The spec functions beside
//! each method pin down both the returned code and the whole post-state.

use vstd::prelude::*;

use crate::accounts::{StateAccount, UserAccount, VaultAccount};
use crate::address::{spec_state_seeds, spec_vault_seeds, state_tag, vault_tag, Address};
use crate::address::addr_eq;
use crate::error::VaultError;
use crate::pda::{check_rederivation, find_pda, rederivation_ok, try_find_pda};
use crate::state::VaultState;

verus! {

/// Accounts for Create: the user pays for the new metadata record and funds
/// the vault with its minimum persistent balance. `rent_exempt` is the
/// minimum balance the ledger demands of the zero-data vault account, and
/// `record_rent` the rent the new record account must hold; the runtime
/// computes both from account sizes.
#[derive(Clone, Debug)]
pub struct Initialize {
    pub user: UserAccount,
    pub vault_state: StateAccount,
    pub vault: VaultAccount,
    pub program_id: Address,
    pub rent_exempt: u64,
    pub record_rent: u64,
}

/// Accounts for Deposit and Withdraw on an open vault.
#[derive(Clone, Debug)]
pub struct VaultAction {
    pub user: UserAccount,
    pub vault_state: StateAccount,
    pub vault: VaultAccount,
    pub program_id: Address,
}

/// Accounts for Close: empties the vault and removes the metadata record,
/// refunding its rent to the user.
#[derive(Clone, Debug)]
pub struct Close {
    pub user: UserAccount,
    pub vault_state: StateAccount,
    pub vault: VaultAccount,
    pub program_id: Address,
}

impl Initialize {
    /// Every supplied address is a proper 32-byte address.
    pub open spec fn inv(self) -> bool {
        &&& self.user.address.wf()
        &&& self.vault_state.address.wf()
        &&& self.vault.address.wf()
        &&& self.program_id.wf()
    }
}

impl VaultAction {
    /// Every supplied address is a proper 32-byte address.
    pub open spec fn inv(self) -> bool {
        &&& self.user.address.wf()
        &&& self.vault_state.address.wf()
        &&& self.vault.address.wf()
        &&& self.program_id.wf()
    }

    /// The re-derivation check for this context's accounts.
    pub open spec fn derivation_ok(self) -> bool {
        rederivation_ok(
            self.user.address@,
            self.vault_state.address@,
            self.vault.address@,
            self.vault_state.record,
            self.program_id@,
        )
    }
}

impl Close {
    /// Every supplied address is a proper 32-byte address.
    pub open spec fn inv(self) -> bool {
        &&& self.user.address.wf()
        &&& self.vault_state.address.wf()
        &&& self.vault.address.wf()
        &&& self.program_id.wf()
    }

    /// The re-derivation check for this context's accounts.
    pub open spec fn derivation_ok(self) -> bool {
        rederivation_ok(
            self.user.address@,
            self.vault_state.address@,
            self.vault.address@,
            self.vault_state.record,
            self.program_id@,
        )
    }
}

/// The code Create returns, decided in the order the checks run: the two
/// freshly derived addresses must match the supplied accounts, no record may
/// exist yet, and the user must cover the record's rent plus the vault's
/// minimum balance while keeping its own reserve.
pub open spec fn initialize_result(pre: Initialize) -> Result<(), VaultError> {
    let fs = find_pda(spec_state_seeds(pre.user.address@), pre.program_id@);
    if fs is None {
        Err(VaultError::InvalidVaultAddress)
    } else if fs.unwrap().0 != pre.vault_state.address@ {
        Err(VaultError::InvalidVaultAddress)
    } else {
        let fv = find_pda(spec_vault_seeds(pre.vault_state.address@), pre.program_id@);
        if fv is None {
            Err(VaultError::InvalidVaultAddress)
        } else if fv.unwrap().0 != pre.vault.address@ {
            Err(VaultError::InvalidVaultAddress)
        } else if pre.vault_state.record is Some {
            Err(VaultError::VaultAlreadyExists)
        } else if pre.user.balance < pre.record_rent + pre.rent_exempt + pre.user.reserve {
            Err(VaultError::InsufficientFunds)
        } else {
            Ok(())
        }
    }
}

/// The context after a successful Create: the user has paid the record's
/// rent and the vault's minimum balance, and the fresh bumps are stored.
pub open spec fn initialize_post(pre: Initialize) -> Initialize {
    let fs = find_pda(spec_state_seeds(pre.user.address@), pre.program_id@).unwrap();
    let fv = find_pda(spec_vault_seeds(pre.vault_state.address@), pre.program_id@).unwrap();
    Initialize {
        user: UserAccount {
            balance: (pre.user.balance - pre.record_rent - pre.rent_exempt) as u64,
            ..pre.user
        },
        vault_state: StateAccount {
            record: Some(VaultState { vault_bump: fv.1, state_bump: fs.1 }),
            rent: (pre.vault_state.rent + pre.record_rent) as u64,
            ..pre.vault_state
        },
        vault: VaultAccount { balance: (pre.vault.balance + pre.rent_exempt) as u64, ..pre.vault },
        ..pre
    }
}

/// The code Deposit returns: the supplied accounts must re-derive from the
/// stored bumps, the amount must be positive, and the user must cover the
/// amount without dipping into its own reserve.
pub open spec fn deposit_result(pre: VaultAction, amount: u64) -> Result<(), VaultError> {
    if !pre.derivation_ok() {
        Err(VaultError::InvalidVaultAddress)
    } else if amount == 0 {
        Err(VaultError::InvalidAmount)
    } else if pre.user.balance < amount + pre.user.reserve {
        Err(VaultError::InsufficientFunds)
    } else {
        Ok(())
    }
}

/// The context after a successful Deposit: exactly `amount` moved from the
/// user to the vault, and nothing else changed.
pub open spec fn deposit_post(pre: VaultAction, amount: u64) -> VaultAction {
    VaultAction {
        user: UserAccount { balance: (pre.user.balance - amount) as u64, ..pre.user },
        vault: VaultAccount { balance: (pre.vault.balance + amount) as u64, ..pre.vault },
        ..pre
    }
}

/// The code Withdraw returns: the supplied accounts must re-derive from the
/// stored bumps, the amount must be positive, and the vault must hold at
/// least the amount.
pub open spec fn withdraw_result(pre: VaultAction, amount: u64) -> Result<(), VaultError> {
    if !pre.derivation_ok() {
        Err(VaultError::InvalidVaultAddress)
    } else if amount == 0 {
        Err(VaultError::InvalidAmount)
    } else if pre.vault.balance < amount {
        Err(VaultError::InsufficientFunds)
    } else {
        Ok(())
    }
}

/// The context after a successful Withdraw: exactly `amount` moved from the
/// vault back to the user, and nothing else changed.
pub open spec fn withdraw_post(pre: VaultAction, amount: u64) -> VaultAction {
    VaultAction {
        user: UserAccount { balance: (pre.user.balance + amount) as u64, ..pre.user },
        vault: VaultAccount { balance: (pre.vault.balance - amount) as u64, ..pre.vault },
        ..pre
    }
}

/// The code Close returns: nothing can fail beyond the shared re-derivation
/// check.
pub open spec fn close_result(pre: Close) -> Result<(), VaultError> {
    if !pre.derivation_ok() {
        Err(VaultError::InvalidVaultAddress)
    } else {
        Ok(())
    }
}

/// The context after a successful Close: the vault's entire balance and the
/// record's rent reserve went to the user, and the record is gone.
pub open spec fn close_post(pre: Close) -> Close {
    Close {
        user: UserAccount {
            balance: (pre.user.balance + pre.vault.balance + pre.vault_state.rent) as u64,
            ..pre.user
        },
        vault_state: StateAccount { record: None, rent: 0, ..pre.vault_state },
        vault: VaultAccount { balance: 0, ..pre.vault },
        ..pre
    }
}

impl Initialize {
    /// Create: derive both addresses afresh, check them against the supplied
    /// accounts, refuse an existing record, then fund the record and the
    /// vault from the user. On success the two fresh bumps are stored, and
    /// re-deriving with them reproduces exactly the addresses used here —
    /// that is the final `ensures` clause.
    pub fn initialize(&mut self) -> (r: Result<(), VaultError>)
        requires
            old(self).inv(),
            old(self).record_rent + old(self).rent_exempt + old(self).user.reserve <= u64::MAX,
            old(self).vault.balance + old(self).rent_exempt <= u64::MAX,
            old(self).vault_state.rent + old(self).record_rent <= u64::MAX,
        ensures
            r == initialize_result(*old(self)),
            r is Ok ==> *final(self) == initialize_post(*old(self)),
            r is Err ==> *final(self) == *old(self),
            final(self).inv(),
            r is Ok ==> rederivation_ok(
                final(self).user.address@,
                final(self).vault_state.address@,
                final(self).vault.address@,
                final(self).vault_state.record,
                final(self).program_id@,
            ),
    {
        let tag_s = state_tag();
        proof {
            assert(seq![tag_s@, self.user.address.bytes@] =~= spec_state_seeds(
                self.user.address@,
            ));
        }
        match try_find_pda(&tag_s, &self.user.address.bytes, &self.program_id) {
            None => Err(VaultError::InvalidVaultAddress),
            Some((state_addr, state_bump)) => {
                if !addr_eq(&state_addr, &self.vault_state.address) {
                    Err(VaultError::InvalidVaultAddress)
                } else {
                    let tag_v = vault_tag();
                    proof {
                        assert(seq![tag_v@, self.vault_state.address.bytes@] =~= spec_vault_seeds(
                            self.vault_state.address@,
                        ));
                    }
                    match try_find_pda(&tag_v, &self.vault_state.address.bytes, &self.program_id) {
                        None => Err(VaultError::InvalidVaultAddress),
                        Some((vault_addr, vault_bump)) => {
                            if !addr_eq(&vault_addr, &self.vault.address) {
                                Err(VaultError::InvalidVaultAddress)
                            } else if self.vault_state.record.is_some() {
                                Err(VaultError::VaultAlreadyExists)
                            } else {
                                let funding = self.record_rent + self.rent_exempt;
                                if self.user.balance < funding + self.user.reserve {
                                    Err(VaultError::InsufficientFunds)
                                } else {
                                    self.user.balance = self.user.balance - funding;
                                    self.vault.balance = self.vault.balance + self.rent_exempt;
                                    self.vault_state.rent = self.vault_state.rent
                                        + self.record_rent;
                                    self.vault_state.record = Some(
                                        VaultState { vault_bump, state_bump },
                                    );
                                    proof {
                                        assert(seq![
                                            tag_s@,
                                            old(self).user.address.bytes@,
                                            seq![state_bump],
                                        ] =~= spec_state_seeds(old(self).user.address@).push(
                                            seq![state_bump],
                                        ));
                                        assert(seq![
                                            tag_v@,
                                            old(self).vault_state.address.bytes@,
                                            seq![vault_bump],
                                        ] =~= spec_vault_seeds(
                                            old(self).vault_state.address@,
                                        ).push(seq![vault_bump]));
                                    }
                                    Ok(())
                                }
                            }
                        },
                    }
                }
            },
        }
    }
}

impl VaultAction {
    /// Deposit: after the shared checks, move `amount` from the user's own
    /// account into the vault by a plain funded transfer (the user is the
    /// direct signer, so no delegated authorization is involved).
    pub fn deposit(&mut self, amount: u64) -> (r: Result<(), VaultError>)
        requires
            old(self).inv(),
            old(self).user.balance + old(self).vault.balance <= u64::MAX,
        ensures
            r == deposit_result(*old(self), amount),
            r is Ok ==> *final(self) == deposit_post(*old(self), amount),
            r is Err ==> *final(self) == *old(self),
            final(self).inv(),
    {
        let ok = check_rederivation(
            &self.user.address,
            &self.vault_state.address,
            &self.vault.address,
            self.vault_state.record,
            &self.program_id,
        );
        if !ok {
            Err(VaultError::InvalidVaultAddress)
        } else if amount == 0 {
            Err(VaultError::InvalidAmount)
        } else if self.user.balance < amount || self.user.balance - amount < self.user.reserve {
            Err(VaultError::InsufficientFunds)
        } else {
            self.user.balance = self.user.balance - amount;
            self.vault.balance = self.vault.balance + amount;
            Ok(())
        }
    }

    /// Withdraw: after the shared checks, move `amount` from the vault back
    /// to the user through the delegated transfer protocol — the transfer is
    /// authorized by the exact seeds and the stored vault bump (never the
    /// state bump), which the re-derivation check has just validated against
    /// the supplied vault address.
    pub fn withdraw(&mut self, amount: u64) -> (r: Result<(), VaultError>)
        requires
            old(self).inv(),
            old(self).user.balance + old(self).vault.balance <= u64::MAX,
        ensures
            r == withdraw_result(*old(self), amount),
            r is Ok ==> *final(self) == withdraw_post(*old(self), amount),
            r is Err ==> *final(self) == *old(self),
            final(self).inv(),
    {
        let ok = check_rederivation(
            &self.user.address,
            &self.vault_state.address,
            &self.vault.address,
            self.vault_state.record,
            &self.program_id,
        );
        if !ok {
            Err(VaultError::InvalidVaultAddress)
        } else if amount == 0 {
            Err(VaultError::InvalidAmount)
        } else if self.vault.balance < amount {
            Err(VaultError::InsufficientFunds)
        } else {
            self.vault.balance = self.vault.balance - amount;
            self.user.balance = self.user.balance + amount;
            Ok(())
        }
    }
}

impl Close {
    /// Close: after the shared re-derivation check, move the vault's entire
    /// balance to the user through the delegated transfer protocol (again
    /// authorized by the stored vault bump), refund the record's rent, and
    /// remove the record. With the record gone, no later call can validate
    /// against it.
    pub fn close(&mut self) -> (r: Result<(), VaultError>)
        requires
            old(self).inv(),
            old(self).user.balance + old(self).vault.balance + old(self).vault_state.rent
                <= u64::MAX,
        ensures
            r == close_result(*old(self)),
            r is Ok ==> *final(self) == close_post(*old(self)),
            r is Err ==> *final(self) == *old(self),
            final(self).inv(),
    {
        let ok = check_rederivation(
            &self.user.address,
            &self.vault_state.address,
            &self.vault.address,
            self.vault_state.record,
            &self.program_id,
        );
        if !ok {
            Err(VaultError::InvalidVaultAddress)
        } else {
            self.user.balance = self.user.balance + self.vault.balance;
            self.user.balance = self.user.balance + self.vault_state.rent;
            self.vault.balance = 0;
            self.vault_state.rent = 0;
            self.vault_state.record = None;
            Ok(())
        }
    }
}

} // verus!
