use vault::derivation::derive_address;
use vault::ledger::{state_tag_bytes, vault_tag_bytes, Ledger, StoredRecord, VaultError, VaultState};

const PROGRAM_ID: [u8; 32] = [7u8; 32];

fn program_id() -> Vec<u8> {
    PROGRAM_ID.to_vec()
}

fn owner_id() -> Vec<u8> {
    let mut owner = vec![0u8; 32];
    owner[0] = 42;
    owner
}

/// Derive the state and vault addresses and their bumps for an owner.
fn derive_accounts(owner: &Vec<u8>) -> ((Vec<u8>, u8), (Vec<u8>, u8)) {
    let state = derive_address(&state_tag_bytes(), owner, &program_id()).unwrap();
    let vault = derive_address(&vault_tag_bytes(), &state.0, &program_id()).unwrap();
    (state, vault)
}

fn active_ledger(owner_balance: u64, rent: u64) -> (Ledger, Vec<u8>, Vec<u8>) {
    let owner = owner_id();
    let (state, vault) = derive_accounts(&owner);
    let mut ledger = Ledger::new(program_id(), owner, owner_balance);
    assert_eq!(ledger.initialize(&state.0, &vault.0, rent), Ok(()));
    (ledger, state.0, vault.0)
}

#[test]
fn derivation_is_deterministic() {
    let owner = owner_id();
    let first = derive_address(&state_tag_bytes(), &owner, &program_id()).unwrap();
    let second = derive_address(&state_tag_bytes(), &owner, &program_id()).unwrap();
    assert_eq!(first.0, second.0);
    assert_eq!(first.1, second.1);
    assert_eq!(first.0.len(), 32);
    // The derived address is a hash, not the seed handed back.
    assert_ne!(first.0, owner);
}

#[test]
fn derivation_differs_by_namespace() {
    let owner = owner_id();
    let state = derive_address(&state_tag_bytes(), &owner, &program_id()).unwrap();
    let vault = derive_address(&vault_tag_bytes(), &owner, &program_id()).unwrap();
    assert_ne!(state.0, vault.0);
}

#[test]
fn derivation_exhausted_on_overlong_seed() {
    // A seed longer than the derivation scheme accepts makes every bump
    // candidate fail, which exhausts the search.
    let seed = vec![1u8; 33];
    let result = derive_address(&state_tag_bytes(), &seed, &program_id());
    assert_eq!(result, Err(VaultError::DerivationExhausted));
}

#[test]
fn initialize_writes_bumps_and_takes_rent() {
    let owner = owner_id();
    let (state, vault) = derive_accounts(&owner);
    let mut ledger = Ledger::new(program_id(), owner, 1_000_000);
    assert_eq!(ledger.initialize(&state.0, &vault.0, 890_880), Ok(()));
    assert_eq!(ledger.owner_balance, 1_000_000 - 890_880);
    assert_eq!(ledger.vault_balance, 0);
    let record = ledger.record.unwrap();
    assert_eq!(record.rent, 890_880);
    assert_eq!(record.state.state_bump, state.1);
    assert_eq!(record.state.vault_bump, vault.1);
}

#[test]
fn initialize_twice_fails() {
    let (mut ledger, state, vault) = active_ledger(1_000, 10);
    assert_eq!(ledger.initialize(&state, &vault, 10), Err(VaultError::AlreadyInitialized));
    assert_eq!(ledger.owner_balance, 990);
}

#[test]
fn initialize_insufficient_rent() {
    let owner = owner_id();
    let (state, vault) = derive_accounts(&owner);
    let mut ledger = Ledger::new(program_id(), owner, 5);
    assert_eq!(ledger.initialize(&state.0, &vault.0, 6), Err(VaultError::InsufficientFunds));
    assert_eq!(ledger.owner_balance, 5);
    assert!(ledger.record.is_none());
}

#[test]
fn initialize_wrong_state_address() {
    let owner = owner_id();
    let (_, vault) = derive_accounts(&owner);
    let wrong = vec![9u8; 32];
    let mut ledger = Ledger::new(program_id(), owner, 1_000);
    assert_eq!(ledger.initialize(&wrong, &vault.0, 10), Err(VaultError::BumpMismatch));
    assert!(ledger.record.is_none());
}

#[test]
fn deposit_moves_exactly_amount() {
    let (mut ledger, state, vault) = active_ledger(10_000, 100);
    let owner_before = ledger.owner_balance;
    let vault_before = ledger.vault_balance;
    assert_eq!(ledger.deposit(&state, &vault, 1_234), Ok(()));
    assert_eq!(ledger.vault_balance, vault_before + 1_234);
    assert_eq!(ledger.owner_balance, owner_before - 1_234);
    // Total external + vault balance is conserved.
    assert_eq!(
        ledger.owner_balance + ledger.vault_balance,
        owner_before + vault_before
    );
}

#[test]
fn deposit_insufficient_funds() {
    let (mut ledger, state, vault) = active_ledger(100, 10);
    assert_eq!(ledger.deposit(&state, &vault, 91), Err(VaultError::InsufficientFunds));
    assert_eq!(ledger.owner_balance, 90);
    assert_eq!(ledger.vault_balance, 0);
}

#[test]
fn deposit_without_vault_fails() {
    let owner = owner_id();
    let (state, vault) = derive_accounts(&owner);
    let mut ledger = Ledger::new(program_id(), owner, 100);
    assert_eq!(ledger.deposit(&state.0, &vault.0, 5), Err(VaultError::VaultNotFound));
}

#[test]
fn withdraw_more_than_balance_fails() {
    let (mut ledger, state, vault) = active_ledger(10_000, 100);
    assert_eq!(ledger.deposit(&state, &vault, 500), Ok(()));
    assert_eq!(ledger.withdraw(&state, &vault, 501), Err(VaultError::InsufficientFunds));
    assert_eq!(ledger.vault_balance, 500);
    assert_eq!(ledger.owner_balance, 10_000 - 100 - 500);
}

#[test]
fn deposit_withdraw_close_sweeps_remainder() {
    let (mut ledger, state, vault) = active_ledger(10_000, 100);
    assert_eq!(ledger.deposit(&state, &vault, 1_000), Ok(()));
    assert_eq!(ledger.withdraw(&state, &vault, 400), Ok(()));
    assert_eq!(ledger.vault_balance, 600);
    let owner_before_close = ledger.owner_balance;
    assert_eq!(ledger.close(&state, &vault), Ok(()));
    // Close sweeps the remaining 600 plus the rent deposit, not a chosen amount.
    assert_eq!(ledger.owner_balance, owner_before_close + 600 + 100);
    assert_eq!(ledger.vault_balance, 0);
    assert!(ledger.record.is_none());
    // The record is gone: a later withdraw finds no vault.
    assert_eq!(ledger.withdraw(&state, &vault, 1), Err(VaultError::VaultNotFound));
}

#[test]
fn reinitialize_after_close() {
    let (mut ledger, state, vault) = active_ledger(10_000, 100);
    assert_eq!(ledger.close(&state, &vault), Ok(()));
    assert_eq!(ledger.initialize(&state, &vault, 100), Ok(()));
    let record = ledger.record.unwrap();
    assert_eq!(record.rent, 100);
}

#[test]
fn wrong_vault_address_rejected_everywhere() {
    let (mut ledger, state, _) = active_ledger(10_000, 100);
    let wrong = vec![9u8; 32];
    assert_eq!(ledger.deposit(&state, &wrong, 5), Err(VaultError::BumpMismatch));
    assert_eq!(ledger.withdraw(&state, &wrong, 5), Err(VaultError::BumpMismatch));
    assert_eq!(ledger.close(&state, &wrong), Err(VaultError::BumpMismatch));
    // Rejection does not depend on the amount being payable.
    assert_eq!(ledger.deposit(&state, &wrong, u64::MAX), Err(VaultError::BumpMismatch));
    assert_eq!(ledger.owner_balance, 9_900);
    assert_eq!(ledger.vault_balance, 0);
}

#[test]
fn wrong_state_address_rejected_everywhere() {
    let (mut ledger, _, vault) = active_ledger(10_000, 100);
    let wrong = vec![9u8; 32];
    assert_eq!(ledger.deposit(&wrong, &vault, 5), Err(VaultError::BumpMismatch));
    assert_eq!(ledger.withdraw(&wrong, &vault, 5), Err(VaultError::BumpMismatch));
    assert_eq!(ledger.close(&wrong, &vault), Err(VaultError::BumpMismatch));
}

#[test]
fn zero_amount_is_a_noop_success() {
    let (mut ledger, state, vault) = active_ledger(10_000, 100);
    assert_eq!(ledger.deposit(&state, &vault, 500), Ok(()));
    let owner_before = ledger.owner_balance;
    assert_eq!(ledger.deposit(&state, &vault, 0), Ok(()));
    assert_eq!(ledger.withdraw(&state, &vault, 0), Ok(()));
    assert_eq!(ledger.owner_balance, owner_before);
    assert_eq!(ledger.vault_balance, 500);
}

#[test]
fn zero_amount_still_checks_accounts() {
    let (mut ledger, state, _) = active_ledger(10_000, 100);
    let wrong = vec![9u8; 32];
    assert_eq!(ledger.deposit(&state, &wrong, 0), Err(VaultError::BumpMismatch));
    assert_eq!(ledger.withdraw(&state, &wrong, 0), Err(VaultError::BumpMismatch));
}

/// A ledger whose balances were set directly, for exercising the overflow
/// checks that no sequence of operations starting from a fresh ledger can
/// reach (the conserved total never exceeds the starting balance).
fn overfull_ledger(owner_balance: u64, vault_balance: u64, rent: u64) -> (Ledger, Vec<u8>, Vec<u8>) {
    let owner = owner_id();
    let (state, vault) = derive_accounts(&owner);
    let ledger = Ledger {
        program_id: program_id(),
        owner,
        owner_balance,
        record: Some(StoredRecord {
            state: VaultState { vault_bump: vault.1, state_bump: state.1 },
            rent,
        }),
        vault_balance,
    };
    (ledger, state.0, vault.0)
}

#[test]
fn deposit_overflow_is_checked() {
    let (mut ledger, state, vault) = overfull_ledger(10, u64::MAX, 0);
    assert_eq!(ledger.deposit(&state, &vault, 1), Err(VaultError::ArithmeticOverflow));
    assert_eq!(ledger.owner_balance, 10);
    assert_eq!(ledger.vault_balance, u64::MAX);
}

#[test]
fn withdraw_overflow_is_checked() {
    let (mut ledger, state, vault) = overfull_ledger(u64::MAX, 10, 0);
    assert_eq!(ledger.withdraw(&state, &vault, 1), Err(VaultError::ArithmeticOverflow));
    assert_eq!(ledger.owner_balance, u64::MAX);
    assert_eq!(ledger.vault_balance, 10);
}

#[test]
fn close_overflow_is_checked() {
    let (mut ledger, state, vault) = overfull_ledger(u64::MAX, 1, 0);
    assert_eq!(ledger.close(&state, &vault), Err(VaultError::ArithmeticOverflow));
    assert!(ledger.record.is_some());
}

#[test]
fn vault_state_round_trips_through_bytes() {
    let state = VaultState { vault_bump: 254, state_bump: 251 };
    let bytes = state.to_bytes();
    assert_eq!(bytes, vec![254, 251]);
    assert_eq!(VaultState::from_bytes(&bytes), Some(state));
    assert_eq!(VaultState::from_bytes(&vec![1, 2, 3]), None);
    assert_eq!(VaultState::from_bytes(&vec![]), None);
}

#[test]
fn bytes_eq_compares_contents() {
    assert!(vault::bytes_eq(&vec![1, 2, 3], &vec![1, 2, 3]));
    assert!(!vault::bytes_eq(&vec![1, 2, 3], &vec![1, 2, 4]));
    assert!(!vault::bytes_eq(&vec![1, 2, 3], &vec![1, 2]));
    assert!(vault::bytes_eq(&vec![], &vec![]));
}
