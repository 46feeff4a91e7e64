//! Deterministic sub-account ("program derived address") derivation.
//!
//! The runtime derives a sub-account address from a list of seed byte
//! strings, a discriminator byte ("bump") and the program's identity. The
//! computation is a pure function of those inputs (a SHA-256 digest plus a
//! curve check), so its results are given names here — `find_pda` and
//! `created_pda` — and the two trusted wrappers state what the outside
//! functions return in terms of those names. Everything the program decides
//! from the results is verified against them.

use vstd::prelude::*;

use crate::address::{addr_eq, spec_state_seeds, spec_vault_seeds, state_tag, vault_tag, Address};
use crate::state::VaultState;
use anchor_lang::solana_program::pubkey::Pubkey;

verus! {

/// What `Pubkey::try_find_program_address` returns: the derived address and
/// the bump it settled on, or nothing when no bump yields a valid address.
pub uninterp spec fn find_pda(seeds: Seq<Seq<u8>>, program: Seq<u8>) -> Option<(Seq<u8>, u8)>;

/// What `Pubkey::create_program_address` returns: the address derived from
/// the seeds (the caller appends the bump as the last, one-byte seed), or
/// nothing when the seeds are rejected or the digest lands on the curve.
pub uninterp spec fn created_pda(seeds: Seq<Seq<u8>>, program: Seq<u8>) -> Option<Seq<u8>>;

/// Relies on `Pubkey::try_find_program_address`: a pure computation of the
/// seeds and program id; when it returns an address and bump, re-deriving
/// through `Pubkey::create_program_address` with that bump appended yields
/// exactly the same address (its documented contract, and how its body finds
/// the bump in the first place).
#[verifier::external_body]
pub(crate) fn try_find_pda(seed_a: &Vec<u8>, seed_b: &Vec<u8>, program: &Address) -> (r: Option<
    (Address, u8),
>)
    requires
        program.wf(),
    ensures
        (r is Some) == (find_pda(seq![seed_a@, seed_b@], program@) is Some),
        r matches Some(p) ==> {
            &&& find_pda(seq![seed_a@, seed_b@], program@) == Some((p.0@, p.1))
            &&& p.0.wf()
            &&& created_pda(seq![seed_a@, seed_b@, seq![p.1]], program@) == Some(p.0@)
        },
{
    let mut arr = [0u8; 32];
    arr.copy_from_slice(&program.bytes);
    let pk = Pubkey::new_from_array(arr);
    match Pubkey::try_find_program_address(&[seed_a.as_slice(), seed_b.as_slice()], &pk) {
        Some((addr, bump)) => Some((Address { bytes: addr.to_bytes().to_vec() }, bump)),
        None => None,
    }
}

/// Relies on `Pubkey::create_program_address`: a pure computation of the
/// seeds and program id, failing exactly when a seed is over-long, there are
/// too many seeds, or the derived bytes land on the ed25519 curve.
#[verifier::external_body]
fn create_pda(seed_a: &Vec<u8>, seed_b: &Vec<u8>, bump: u8, program: &Address) -> (r: Option<
    Address,
>)
    requires
        program.wf(),
    ensures
        (r is Some) == (created_pda(seq![seed_a@, seed_b@, seq![bump]], program@) is Some),
        r matches Some(a) ==> {
            &&& created_pda(seq![seed_a@, seed_b@, seq![bump]], program@) == Some(a@)
            &&& a.wf()
        },
{
    let mut arr = [0u8; 32];
    arr.copy_from_slice(&program.bytes);
    let pk = Pubkey::new_from_array(arr);
    match Pubkey::create_program_address(
        &[seed_a.as_slice(), seed_b.as_slice(), &[bump]],
        &pk,
    ) {
        Ok(addr) => Some(Address { bytes: addr.to_bytes().to_vec() }),
        Err(_) => None,
    }
}

/// Both supplied addresses re-derive, from the bumps stored in `record`,
/// to exactly the supplied metadata-record and vault addresses. A missing
/// record can validate nothing, so it never passes.
pub open spec fn rederivation_ok(
    user: Seq<u8>,
    state_addr: Seq<u8>,
    vault_addr: Seq<u8>,
    record: Option<VaultState>,
    program: Seq<u8>,
) -> bool {
    match record {
        Some(vs) => {
            &&& created_pda(spec_state_seeds(user).push(seq![vs.state_bump]), program) == Some(
                state_addr,
            )
            &&& created_pda(spec_vault_seeds(state_addr).push(seq![vs.vault_bump]), program)
                == Some(vault_addr)
        },
        None => false,
    }
}

/// Runs the re-derivation check: derives the metadata-record address from the
/// stored state bump and the vault address from the stored vault bump, and
/// compares each against the supplied account address.
pub fn check_rederivation(
    user: &Address,
    state: &Address,
    vault: &Address,
    record: Option<VaultState>,
    program: &Address,
) -> (r: bool)
    requires
        program.wf(),
    ensures
        r == rederivation_ok(user@, state@, vault@, record, program@),
{
    match record {
        None => false,
        Some(vs) => {
            let tag_s = state_tag();
            proof {
                assert(seq![tag_s@, user.bytes@, seq![vs.state_bump]] =~= spec_state_seeds(
                    user@,
                ).push(seq![vs.state_bump]));
            }
            match create_pda(&tag_s, &user.bytes, vs.state_bump, program) {
                None => false,
                Some(expect_state) => {
                    if addr_eq(&expect_state, state) {
                        let tag_v = vault_tag();
                        proof {
                            assert(seq![tag_v@, state.bytes@, seq![vs.vault_bump]]
                                =~= spec_vault_seeds(state@).push(seq![vs.vault_bump]));
                        }
                        match create_pda(&tag_v, &state.bytes, vs.vault_bump, program) {
                            None => false,
                            Some(expect_vault) => addr_eq(&expect_vault, vault),
                        }
                    } else {
                        false
                    }
                },
            }
        },
    }
}

} // verus!
