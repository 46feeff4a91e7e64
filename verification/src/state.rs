//! The persistent metadata record kept for each open vault.

use vstd::prelude::*;

verus! {

/// The metadata record, one per user. It stores nothing but the two
/// discriminator bytes ("bumps") needed to re-derive, on every later call,
/// the record's own address and the fund sub-account's address. The bumps
/// are written once at creation and never change while the record exists.
#[derive(Clone, Copy, Debug, PartialEq, Eq, Structural)]
pub struct VaultState {
    /// Bump that re-derives the fund sub-account ("vault") address; it is the
    /// sole credential used to authorize outbound transfers from the vault.
    pub vault_bump: u8,
    /// Bump that re-derives the metadata record's own address.
    pub state_bump: u8,
}

} // verus!
