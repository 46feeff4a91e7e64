use anchor_lang::solana_program::pubkey::Pubkey;
use anchor_vault::accounts::{StateAccount, UserAccount, VaultAccount};
use anchor_vault::address::Address;
use anchor_vault::error::VaultError;
use anchor_vault::state::VaultState;
use anchor_vault::vault::{Close, Initialize, VaultAction};
use anchor_vault::{close, deposit, initialize, withdraw};

const LAMPORTS_PER_SOL: u64 = 1_000_000_000;
const RENT_EXEMPT: u64 = 890_880;
const RECORD_RENT: u64 = 946_560;

fn addr(pk: &Pubkey) -> Address {
    Address {
        bytes: pk.to_bytes().to_vec(),
    }
}

fn user_key() -> Pubkey {
    Pubkey::new_from_array([0x01; 32])
}

fn program_key() -> Pubkey {
    Pubkey::new_from_array([0x07; 32])
}

fn pdas(user: &Pubkey, program: &Pubkey) -> (Pubkey, u8, Pubkey, u8) {
    let (state_pda, state_bump) =
        Pubkey::find_program_address(&[b"state", user.as_ref()], program);
    let (vault_pda, vault_bump) =
        Pubkey::find_program_address(&[b"vault", state_pda.as_ref()], program);
    (state_pda, state_bump, vault_pda, vault_bump)
}

/// A fresh Create context for a user funded with `funding` lamports.
fn init_ctx(funding: u64) -> Initialize {
    let user = user_key();
    let program = program_key();
    let (state_pda, _, vault_pda, _) = pdas(&user, &program);
    Initialize {
        user: UserAccount {
            address: addr(&user),
            balance: funding,
            reserve: 0,
        },
        vault_state: StateAccount {
            address: addr(&state_pda),
            record: None,
            rent: 0,
        },
        vault: VaultAccount {
            address: addr(&vault_pda),
            balance: 0,
        },
        program_id: addr(&program),
        rent_exempt: RENT_EXEMPT,
        record_rent: RECORD_RENT,
    }
}

/// An action context for an already-open vault holding `vault_balance`,
/// with the true bumps stored in the record.
fn open_ctx(user_balance: u64, vault_balance: u64) -> VaultAction {
    let user = user_key();
    let program = program_key();
    let (state_pda, state_bump, vault_pda, vault_bump) = pdas(&user, &program);
    VaultAction {
        user: UserAccount {
            address: addr(&user),
            balance: user_balance,
            reserve: 0,
        },
        vault_state: StateAccount {
            address: addr(&state_pda),
            record: Some(VaultState {
                vault_bump,
                state_bump,
            }),
            rent: RECORD_RENT,
        },
        vault: VaultAccount {
            address: addr(&vault_pda),
            balance: vault_balance,
        },
        program_id: addr(&program),
    }
}

fn close_ctx(user_balance: u64, vault_balance: u64) -> Close {
    let a = open_ctx(user_balance, vault_balance);
    Close {
        user: a.user,
        vault_state: a.vault_state,
        vault: a.vault,
        program_id: a.program_id,
    }
}

#[test]
fn test_deposit() {
    let mut init = init_ctx(2 * LAMPORTS_PER_SOL);
    assert_eq!(initialize(&mut init), Ok(()));

    let mut action = VaultAction {
        user: init.user.clone(),
        vault_state: init.vault_state.clone(),
        vault: init.vault.clone(),
        program_id: init.program_id.clone(),
    };
    let user_before = action.user.balance;
    let vault_before = action.vault.balance;

    let deposit_amount: u64 = 500_000_000;
    assert_eq!(deposit(&mut action, deposit_amount), Ok(()));
    assert_eq!(action.vault.balance, vault_before + deposit_amount);
    assert_eq!(action.user.balance, user_before - deposit_amount);
}

#[test]
fn test_withdraw() {
    let mut action = open_ctx(1 * LAMPORTS_PER_SOL, 500_000_000);
    let withdraw_amount: u64 = 500_000_000;
    assert_eq!(withdraw(&mut action, withdraw_amount), Ok(()));
    assert_eq!(action.vault.balance, 0);
    assert_eq!(action.user.balance, 1 * LAMPORTS_PER_SOL + withdraw_amount);
}

#[test]
fn test_create_funds_minimum_reserve() {
    let mut init = init_ctx(2 * LAMPORTS_PER_SOL);
    assert_eq!(initialize(&mut init), Ok(()));

    // The vault now holds exactly the minimum reserve, paid by the user
    // along with the record's rent.
    assert_eq!(init.vault.balance, RENT_EXEMPT);
    assert_eq!(
        init.user.balance,
        2 * LAMPORTS_PER_SOL - RENT_EXEMPT - RECORD_RENT
    );

    // The stored bumps are exactly the freshly derived ones.
    let (_, state_bump, _, vault_bump) = pdas(&user_key(), &program_key());
    let record = init.vault_state.record.expect("record must be stored");
    assert_eq!(record.state_bump, state_bump);
    assert_eq!(record.vault_bump, vault_bump);
}

#[test]
fn test_rederivation_after_create() {
    let mut init = init_ctx(2 * LAMPORTS_PER_SOL);
    assert_eq!(initialize(&mut init), Ok(()));

    // Re-derivation from the stored bumps accepts exactly the addresses
    // Create used: a withdrawal straight after creation passes the address
    // check and fails only on the balance condition when over-asked.
    let mut action = VaultAction {
        user: init.user.clone(),
        vault_state: init.vault_state.clone(),
        vault: init.vault.clone(),
        program_id: init.program_id.clone(),
    };
    assert_eq!(withdraw(&mut action, RENT_EXEMPT), Ok(()));
    assert_eq!(action.vault.balance, 0);
}

#[test]
fn test_create_rejects_existing_record() {
    let mut init = init_ctx(2 * LAMPORTS_PER_SOL);
    init.vault_state.record = Some(VaultState {
        vault_bump: 1,
        state_bump: 2,
    });
    init.vault_state.rent = RECORD_RENT;
    let before = init.clone();
    assert_eq!(initialize(&mut init), Err(VaultError::VaultAlreadyExists));
    assert_eq!(init.user.balance, before.user.balance);
    assert_eq!(init.vault.balance, before.vault.balance);
}

#[test]
fn test_create_insufficient_funding() {
    // Not enough to cover the record's rent plus the vault's minimum.
    let mut init = init_ctx(RENT_EXEMPT);
    assert_eq!(initialize(&mut init), Err(VaultError::InsufficientFunds));
    assert_eq!(init.user.balance, RENT_EXEMPT);
    assert_eq!(init.vault.balance, 0);
}

#[test]
fn test_create_rejects_wrong_state_address() {
    let mut init = init_ctx(2 * LAMPORTS_PER_SOL);
    // Hand in the user's own address where the derived record address
    // belongs; the re-derivation comparison must catch it.
    init.vault_state.address = addr(&user_key());
    assert_eq!(initialize(&mut init), Err(VaultError::InvalidVaultAddress));
    assert!(init.vault_state.record.is_none());
}

#[test]
fn test_deposit_round_trip_restores_balances() {
    let mut action = open_ctx(LAMPORTS_PER_SOL, RENT_EXEMPT);
    let amount: u64 = 500_000_000;
    assert_eq!(deposit(&mut action, amount), Ok(()));
    assert_eq!(withdraw(&mut action, amount), Ok(()));
    assert_eq!(action.user.balance, LAMPORTS_PER_SOL);
    assert_eq!(action.vault.balance, RENT_EXEMPT);
}

#[test]
fn test_deposit_zero_amount_rejected() {
    let mut action = open_ctx(LAMPORTS_PER_SOL, RENT_EXEMPT);
    assert_eq!(deposit(&mut action, 0), Err(VaultError::InvalidAmount));
    assert_eq!(action.user.balance, LAMPORTS_PER_SOL);
    assert_eq!(action.vault.balance, RENT_EXEMPT);
}

#[test]
fn test_withdraw_zero_amount_rejected() {
    let mut action = open_ctx(LAMPORTS_PER_SOL, RENT_EXEMPT);
    assert_eq!(withdraw(&mut action, 0), Err(VaultError::InvalidAmount));
    assert_eq!(action.vault.balance, RENT_EXEMPT);
}

#[test]
fn test_deposit_protects_user_reserve() {
    let mut action = open_ctx(LAMPORTS_PER_SOL, RENT_EXEMPT);
    action.user.reserve = 900_000_000;
    assert_eq!(
        deposit(&mut action, 500_000_000),
        Err(VaultError::InsufficientFunds)
    );
    assert_eq!(action.user.balance, LAMPORTS_PER_SOL);
    assert_eq!(action.vault.balance, RENT_EXEMPT);
}

#[test]
fn test_withdraw_empties_vault_then_fails() {
    let mut action = open_ctx(LAMPORTS_PER_SOL, 500_000_000);
    assert_eq!(withdraw(&mut action, 500_000_000), Ok(()));
    assert_eq!(action.vault.balance, 0);

    // The vault is now empty: withdrawing even one unit must fail, and the
    // failed call must leave every balance as it was.
    let user_after = action.user.balance;
    assert_eq!(
        withdraw(&mut action, 1),
        Err(VaultError::InsufficientFunds)
    );
    assert_eq!(action.vault.balance, 0);
    assert_eq!(action.user.balance, user_after);
}

#[test]
fn test_withdraw_wrong_bump_rejected() {
    let mut action = open_ctx(LAMPORTS_PER_SOL, 500_000_000);
    // Store a deliberately wrong vault bump: re-derivation lands on a
    // different address (or none), so the transfer must be refused before
    // any balance moves.
    let record = action.vault_state.record.unwrap();
    action.vault_state.record = Some(VaultState {
        vault_bump: record.state_bump,
        state_bump: record.state_bump,
    });
    assert_eq!(
        withdraw(&mut action, 500_000_000),
        Err(VaultError::InvalidVaultAddress)
    );
    assert_eq!(action.user.balance, LAMPORTS_PER_SOL);
    assert_eq!(action.vault.balance, 500_000_000);
}

#[test]
fn test_withdraw_missing_record_rejected() {
    let mut action = open_ctx(LAMPORTS_PER_SOL, 500_000_000);
    action.vault_state.record = None;
    assert_eq!(
        withdraw(&mut action, 500_000_000),
        Err(VaultError::InvalidVaultAddress)
    );
    assert_eq!(action.vault.balance, 500_000_000);
}

#[test]
fn test_close_pays_out_everything() {
    let mut ctx = close_ctx(LAMPORTS_PER_SOL, 500_000_000);
    assert_eq!(close(&mut ctx), Ok(()));
    assert_eq!(ctx.vault.balance, 0);
    assert_eq!(
        ctx.user.balance,
        LAMPORTS_PER_SOL + 500_000_000 + RECORD_RENT
    );
    assert!(ctx.vault_state.record.is_none());
    assert_eq!(ctx.vault_state.rent, 0);
}

#[test]
fn test_second_close_fails() {
    let mut ctx = close_ctx(LAMPORTS_PER_SOL, 500_000_000);
    assert_eq!(close(&mut ctx), Ok(()));
    let user_after = ctx.user.balance;
    assert_eq!(close(&mut ctx), Err(VaultError::InvalidVaultAddress));
    assert_eq!(ctx.user.balance, user_after);
    assert_eq!(ctx.vault.balance, 0);
}
