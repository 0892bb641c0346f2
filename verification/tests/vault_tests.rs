use std::str::FromStr;

use anchor_lang::prelude::{Pubkey, Rent};
use anchor_lang::solana_program::hash::hash;

use solana_vault::account::{keys_eq, system_program_id, AccountView};
use solana_vault::actions::{Action, PdaSeeds};
use solana_vault::error::VaultError;
use solana_vault::instructions::{check_seeds, find_address, Close, Initialize, Payment};
use solana_vault::pda::{seeds, seeds_with_bump, SeedTag};
use solana_vault::state::{discriminator, VaultState, INIT_SPACE, SPACE};
use solana_vault::vault::{close, create_state_account, deposit, id, initialize, withdraw};

const LAMPORTS_PER_SOL: u64 = 1_000_000_000;
const USER: [u8; 32] = [0x01; 32];

fn program_id() -> [u8; 32] {
    id()
}

fn state_pda() -> ([u8; 32], u8) {
    find_address(&program_id(), SeedTag::State, &USER).unwrap()
}

fn vault_pda() -> ([u8; 32], u8) {
    find_address(&program_id(), SeedTag::Vault, &state_pda().0).unwrap()
}

fn account(key: [u8; 32], lamports: u64, owner: [u8; 32], data: Vec<u8>, is_signer: bool, is_writable: bool) -> AccountView {
    AccountView { key, owner, lamports, data, is_signer, is_writable, executable: false }
}

fn system_program_account() -> AccountView {
    AccountView {
        key: system_program_id(),
        owner: [0x05; 32],
        lamports: 1,
        data: vec![],
        is_signer: false,
        is_writable: false,
        executable: true,
    }
}

fn rent(len: usize) -> u64 {
    Rent::default().minimum_balance(len)
}

/// The accounts of a transaction, as the runtime would hold them.
struct Ledger {
    accounts: Vec<AccountView>,
}

impl Ledger {
    fn get(&self, key: &[u8; 32]) -> &AccountView {
        self.accounts.iter().find(|a| &a.key == key).unwrap()
    }

    fn get_mut(&mut self, key: &[u8; 32]) -> &mut AccountView {
        self.accounts.iter_mut().find(|a| &a.key == key).unwrap()
    }

    fn signs_for(&self, key: &[u8; 32], seeds: &Option<PdaSeeds>) -> bool {
        match seeds {
            None => self.get(key).is_signer,
            Some(s) => {
                let v = s.to_vec();
                let refs: Vec<&[u8]> = v.iter().map(|x| x.as_slice()).collect();
                Pubkey::create_program_address(&refs, &Pubkey::new_from_array(program_id()))
                    .map(|k| k.to_bytes() == *key)
                    .unwrap_or(false)
            }
        }
    }

    fn run(&mut self, actions: &[Action]) -> Result<(), String> {
        for a in actions {
            match *a {
                Action::CreateAccount { from, to, lamports, space, owner, seeds } => {
                    if !self.signs_for(&to, &Some(seeds)) || self.get(&to).lamports != 0 {
                        return Err("create_account refused".to_string());
                    }
                    self.transfer(&from, &to, lamports)?;
                    let t = self.get_mut(&to);
                    t.data = vec![0; space as usize];
                    t.owner = owner;
                }
                Action::Transfer { from, to, amount, signer } => {
                    if !self.signs_for(&from, &signer) {
                        return Err("missing signature".to_string());
                    }
                    if !self.get(&from).data.is_empty() {
                        return Err("transfer from an account with data".to_string());
                    }
                    self.transfer(&from, &to, amount)?;
                }
                Action::Allocate { account, space, seeds } => {
                    if !self.signs_for(&account, &Some(seeds)) {
                        return Err("missing signature".to_string());
                    }
                    let a = self.get(&account);
                    if !a.data.is_empty() || a.owner != system_program_id() {
                        return Err("allocate: account already in use".to_string());
                    }
                    self.get_mut(&account).data = vec![0; space as usize];
                }
                Action::Assign { account, owner, seeds } => {
                    if !self.signs_for(&account, &Some(seeds)) {
                        return Err("missing signature".to_string());
                    }
                    let a = self.get(&account);
                    if a.owner != owner && a.owner != system_program_id() {
                        return Err("assign: account not owned by the system program".to_string());
                    }
                    self.get_mut(&account).owner = owner;
                }
                Action::WriteState { account, state } => {
                    let bytes = state.try_serialize();
                    let a = self.get_mut(&account);
                    a.data[..bytes.len()].copy_from_slice(&bytes);
                }
                Action::Close { account, destination } => {
                    let l = self.get(&account).lamports;
                    self.get_mut(&destination).lamports += l;
                    let a = self.get_mut(&account);
                    a.lamports = 0;
                    a.owner = system_program_id();
                    a.data = vec![];
                }
            }
        }
        Ok(())
    }

    fn transfer(&mut self, from: &[u8; 32], to: &[u8; 32], amount: u64) -> Result<(), String> {
        if self.get(from).lamports < amount {
            return Err("insufficient lamports".to_string());
        }
        self.get_mut(from).lamports -= amount;
        self.get_mut(to).lamports += amount;
        Ok(())
    }

    fn views(&self) -> (AccountView, AccountView, AccountView, AccountView) {
        (
            self.get(&USER).clone(),
            self.get(&state_pda().0).clone(),
            self.get(&vault_pda().0).clone(),
            self.get(&system_program_id()).clone(),
        )
    }
}

fn fresh_ledger(user_lamports: u64) -> Ledger {
    Ledger {
        accounts: vec![
            account(USER, user_lamports, system_program_id(), vec![], true, true),
            account(state_pda().0, 0, system_program_id(), vec![], false, true),
            account(vault_pda().0, 0, system_program_id(), vec![], false, true),
            system_program_account(),
        ],
    }
}

fn run_initialize(ledger: &mut Ledger) -> Result<(), String> {
    let (u, s, v, p) = ledger.views();
    let (state_bump, creation) = create_state_account(&program_id(), &u, &s, &v, &p, rent(SPACE))
        .map_err(|e| format!("{:?}", e))?;
    ledger.run(&creation)?;
    let (u, s, v, _) = ledger.views();
    let plan = initialize(&program_id(), state_bump, &u, &s, &v, rent(s.data.len()), rent(v.data.len()))
        .map_err(|e| format!("{:?}", e))?;
    ledger.run(&plan)
}

#[test]
fn test_deposit() {
    let mut ledger = fresh_ledger(2 * LAMPORTS_PER_SOL);
    run_initialize(&mut ledger).unwrap();

    let deposit_amount: u64 = 500_000_000;
    let (u, s, v, p) = ledger.views();
    let plan = deposit(&program_id(), &u, &s, &v, &p, deposit_amount).unwrap();
    assert_eq!(
        plan,
        vec![Action::Transfer { from: USER, to: vault_pda().0, amount: deposit_amount, signer: None }]
    );
    ledger.run(&plan).unwrap();
    assert_eq!(ledger.get(&vault_pda().0).lamports, rent(0) + deposit_amount);
    assert_eq!(ledger.get(&USER).lamports, 2 * LAMPORTS_PER_SOL - rent(SPACE) - rent(0) - deposit_amount);
}

#[test]
fn test_withdraw() {
    let (state_key, state_bump) = state_pda();
    let (vault_key, vault_bump) = vault_pda();
    let initial_state = VaultState { vault_bump, state_bump };
    let mut ledger = Ledger {
        accounts: vec![
            account(USER, 1 * LAMPORTS_PER_SOL, system_program_id(), vec![], true, true),
            account(state_key, rent(8 + INIT_SPACE), program_id(), initial_state.try_serialize(), true, true),
            account(vault_key, 500_000_000, system_program_id(), vec![], false, true),
            system_program_account(),
        ],
    };

    let withdraw_amount = 500_000_000;
    let (u, s, v, p) = ledger.views();
    let plan = withdraw(&program_id(), &u, &s, &v, &p, withdraw_amount).unwrap();
    ledger.run(&plan).unwrap();
    assert_eq!(ledger.get(&vault_key).lamports, 0);
    assert_eq!(ledger.get(&USER).lamports, LAMPORTS_PER_SOL + withdraw_amount);
}

#[test]
fn test_close() {
    let mut ledger = fresh_ledger(2 * LAMPORTS_PER_SOL);
    run_initialize(&mut ledger).unwrap();
    ledger.get_mut(&vault_pda().0).lamports = 500_000_000;

    let (u, s, v, p) = ledger.views();
    let plan = close(&program_id(), &u, &s, &v, &p).unwrap();
    ledger.run(&plan).unwrap();
    assert_eq!(ledger.get(&vault_pda().0).lamports, 0);
    assert_eq!(ledger.get(&state_pda().0).lamports, 0);
    assert_eq!(ledger.get(&state_pda().0).owner, system_program_id());
    assert_eq!(
        ledger.get(&USER).lamports,
        2 * LAMPORTS_PER_SOL - rent(SPACE) - rent(0) + 500_000_000 + rent(SPACE)
    );
}

#[test]
fn program_id_is_the_declared_address() {
    let declared = Pubkey::from_str("Hot4S2HDwRYp4YVw1cEUqMcHkvRDWfPfAqLxGG7ndZbN").unwrap();
    assert_eq!(id(), declared.to_bytes());
}

#[test]
fn discriminator_is_the_account_name_hash() {
    let h = hash(b"account:VaultState").to_bytes();
    assert_eq!(discriminator()[..], h[..8]);
    assert_eq!(SPACE, 8 + INIT_SPACE);
}

#[test]
fn state_round_trips_through_account_data() {
    let s = VaultState { vault_bump: 254, state_bump: 7 };
    let data = s.try_serialize();
    assert_eq!(data.len(), 10);
    assert_eq!(data[8], 254);
    assert_eq!(data[9], 7);
    assert_eq!(VaultState::try_deserialize(&data), Ok(s));
    let mut longer = data.clone();
    longer.extend_from_slice(&[1, 2, 3]);
    assert_eq!(VaultState::try_deserialize(&longer), Ok(s));
}

#[test]
fn state_data_errors() {
    let data = VaultState { vault_bump: 1, state_bump: 2 }.try_serialize();
    assert_eq!(VaultState::try_deserialize(&data[..5]), Err(VaultError::AccountDiscriminatorNotFound));
    assert_eq!(VaultState::try_deserialize(&data[..9]), Err(VaultError::AccountDidNotDeserialize));
    let mut wrong = data.clone();
    wrong[0] ^= 1;
    assert_eq!(VaultState::try_deserialize(&wrong), Err(VaultError::AccountDiscriminatorMismatch));
    assert_eq!(VaultState::try_deserialize_unchecked(&wrong), Ok(VaultState { vault_bump: 1, state_bump: 2 }));
}

#[test]
fn error_codes_are_anchors() {
    assert_eq!(VaultError::ConstraintMut.code(), Some(2000));
    assert_eq!(VaultError::ConstraintRentExempt.code(), Some(2005));
    assert_eq!(VaultError::ConstraintSeeds.code(), Some(2006));
    assert_eq!(VaultError::ConstraintClose.code(), Some(2011));
    assert_eq!(VaultError::AccountDiscriminatorNotFound.code(), Some(3001));
    assert_eq!(VaultError::AccountOwnedByWrongProgram.code(), Some(3007));
    assert_eq!(VaultError::AccountNotSigner.code(), Some(3010));
    assert_eq!(VaultError::AccountNotInitialized.code(), Some(3012));
    assert_eq!(VaultError::TryingToInitPayerAsProgramAccount.code(), Some(4101));
    assert_eq!(VaultError::NoViableBumpSeed.code(), None);
}

#[test]
fn seed_schemes() {
    let s = seeds(SeedTag::State, &USER);
    assert_eq!(s, vec![b"state".to_vec(), USER.to_vec()]);
    let v = seeds_with_bump(SeedTag::Vault, &USER, 9);
    assert_eq!(v, vec![b"vault".to_vec(), USER.to_vec(), vec![9]]);
    assert!(keys_eq(&USER, &[1; 32]));
    assert!(!keys_eq(&USER, &system_program_id()));
}

#[test]
fn found_addresses_agree_with_solana() {
    let pid = Pubkey::new_from_array(program_id());
    let (state_key, state_bump) = state_pda();
    let (expected, expected_bump) = Pubkey::find_program_address(&[b"state", &USER], &pid);
    assert_eq!(state_key, expected.to_bytes());
    assert_eq!(state_bump, expected_bump);
    assert_ne!(state_key, USER);
    let (vault_key, vault_bump) = vault_pda();
    let (expected, expected_bump) = Pubkey::find_program_address(&[b"vault", &state_key], &pid);
    assert_eq!(vault_key, expected.to_bytes());
    assert_eq!(vault_bump, expected_bump);
    assert!(check_seeds(&program_id(), SeedTag::State, &USER, state_bump, &state_key));
    assert!(check_seeds(&program_id(), SeedTag::Vault, &state_key, vault_bump, &vault_key));
    assert!(!check_seeds(&program_id(), SeedTag::Vault, &state_key, vault_bump, &state_key));
    assert!(!check_seeds(&program_id(), SeedTag::State, &state_key, state_bump, &state_key));
}

#[test]
fn initialize_plans_creation_funding_and_state() {
    let mut ledger = fresh_ledger(2 * LAMPORTS_PER_SOL);
    let (u, s, v, p) = ledger.views();
    let (state_key, state_bump) = state_pda();
    let (vault_key, vault_bump) = vault_pda();
    let (bump, creation) = create_state_account(&program_id(), &u, &s, &v, &p, 960_480).unwrap();
    assert_eq!(bump, state_bump);
    assert_eq!(
        creation,
        vec![Action::CreateAccount {
            from: USER,
            to: state_key,
            lamports: 960_480,
            space: 10,
            owner: program_id(),
            seeds: PdaSeeds { tag: SeedTag::State, base: USER, bump: state_bump },
        }]
    );
    ledger.run(&creation).unwrap();
    let (u, s, v, _) = ledger.views();
    let plan = initialize(&program_id(), bump, &u, &s, &v, 960_480, 890_880).unwrap();
    assert_eq!(
        plan,
        vec![
            Action::Transfer { from: USER, to: vault_key, amount: 890_880, signer: None },
            Action::WriteState { account: state_key, state: VaultState { vault_bump, state_bump } },
        ]
    );
    assert_eq!(rent(SPACE), 960_480);
    assert_eq!(rent(0), 890_880);
}

#[test]
fn initialize_tops_up_a_funded_state_account() {
    let mut ledger = fresh_ledger(2 * LAMPORTS_PER_SOL);
    ledger.get_mut(&state_pda().0).lamports = 1_000;
    let (u, s, v, p) = ledger.views();
    let (state_key, state_bump) = state_pda();
    let seeds = PdaSeeds { tag: SeedTag::State, base: USER, bump: state_bump };
    let (_, plan) = create_state_account(&program_id(), &u, &s, &v, &p, 960_480).unwrap();
    assert_eq!(
        plan,
        vec![
            Action::Transfer { from: USER, to: state_key, amount: 959_480, signer: None },
            Action::Allocate { account: state_key, space: 10, seeds },
            Action::Assign { account: state_key, owner: program_id(), seeds },
        ]
    );
    ledger.run(&plan).unwrap();
    assert_eq!(ledger.get(&state_key).lamports, 960_480);
    assert_eq!(ledger.get(&state_key).owner, program_id());
    let (u, s, v, _) = ledger.views();
    assert_eq!(initialize(&program_id(), state_bump, &u, &s, &v, 960_480, 890_880).unwrap().len(), 2);
}

#[test]
fn initialize_refusals() {
    let mut ledger = fresh_ledger(2 * LAMPORTS_PER_SOL);
    let (u, s, v, p) = ledger.views();
    let pid = program_id();

    let mut unsigned = u.clone();
    unsigned.is_signer = false;
    assert_eq!(create_state_account(&pid, &unsigned, &s, &v, &p, 1), Err(VaultError::AccountNotSigner));

    let mut owned_vault = v.clone();
    owned_vault.owner = pid;
    assert_eq!(create_state_account(&pid, &u, &s, &owned_vault, &p, 1), Err(VaultError::AccountNotSystemOwned));

    let mut not_system = p.clone();
    not_system.key = [7; 32];
    assert_eq!(create_state_account(&pid, &u, &s, &v, &not_system, 1), Err(VaultError::InvalidProgramId));

    let mut not_executable = p.clone();
    not_executable.executable = false;
    assert_eq!(create_state_account(&pid, &u, &s, &v, &not_executable, 1), Err(VaultError::InvalidProgramExecutable));

    let mut wrong_state = s.clone();
    wrong_state.key = [9; 32];
    assert_eq!(create_state_account(&pid, &u, &wrong_state, &v, &p, 1), Err(VaultError::ConstraintSeeds));

    // Writable flags are checked only once the state account exists.
    let mut read_only_user = u.clone();
    read_only_user.is_writable = false;
    let (bump, creation) = create_state_account(&pid, &read_only_user, &s, &v, &p, rent(SPACE)).unwrap();

    let (u0, s0, v0, _) = ledger.views();
    assert_eq!(initialize(&pid, bump, &u0, &s0, &v0, 1, 1), Err(VaultError::AccountNotInitialized));

    ledger.run(&creation).unwrap();
    let (u, s, v, _) = ledger.views();

    let mut read_only_state = s.clone();
    read_only_state.is_writable = false;
    assert_eq!(initialize(&pid, bump, &u, &read_only_state, &v, 1, 1), Err(VaultError::ConstraintMut));

    assert_eq!(initialize(&pid, bump, &u, &s, &v, rent(SPACE) + 1, 1), Err(VaultError::ConstraintRentExempt));

    assert_eq!(initialize(&pid, bump, &read_only_user, &s, &v, rent(SPACE), 1), Err(VaultError::ConstraintMut));

    let mut foreign_state = s.clone();
    foreign_state.owner = [3; 32];
    assert_eq!(initialize(&pid, bump, &u, &foreign_state, &v, 1, 1), Err(VaultError::AccountOwnedByWrongProgram));

    let mut short_state = s.clone();
    short_state.data.truncate(9);
    assert_eq!(initialize(&pid, bump, &u, &short_state, &v, 1, 1), Err(VaultError::AccountDidNotDeserialize));

    let mut wrong_vault = v.clone();
    wrong_vault.key = [9; 32];
    assert_eq!(initialize(&pid, bump, &u, &s, &wrong_vault, 1, 1), Err(VaultError::ConstraintSeeds));

    let mut read_only_vault = v.clone();
    read_only_vault.is_writable = false;
    assert_eq!(initialize(&pid, bump, &u, &s, &read_only_vault, 1, 1), Err(VaultError::ConstraintMut));

    assert_eq!(initialize(&pid, bump.wrapping_sub(1), &u, &s, &v, rent(SPACE), 1), Err(VaultError::ConstraintSeeds));

    assert!(initialize(&pid, bump, &u, &s, &v, rent(SPACE), 1).is_ok());
}

#[test]
fn initialize_again_on_a_live_vault_fails() {
    let mut ledger = fresh_ledger(2 * LAMPORTS_PER_SOL);
    run_initialize(&mut ledger).unwrap();
    let (u, s, v, p) = ledger.views();
    let (_, plan) = create_state_account(&program_id(), &u, &s, &v, &p, rent(SPACE)).unwrap();
    assert!(matches!(plan[0], Action::Allocate { .. }));
    assert!(ledger.run(&plan).is_err());
}

#[test]
fn vault_can_be_initialized_again_after_close() {
    let mut ledger = fresh_ledger(3 * LAMPORTS_PER_SOL);
    run_initialize(&mut ledger).unwrap();
    let first = ledger.get(&state_pda().0).data.clone();
    let (u, s, v, p) = ledger.views();
    ledger.run(&close(&program_id(), &u, &s, &v, &p).unwrap()).unwrap();
    let (u, s, v, p) = ledger.views();
    assert_eq!(deposit(&program_id(), &u, &s, &v, &p, 1), Err(VaultError::AccountNotInitialized));
    run_initialize(&mut ledger).unwrap();
    assert_eq!(ledger.get(&state_pda().0).data, first);
    assert_eq!(ledger.get(&state_pda().0).owner, program_id());
}

#[test]
fn payment_refusals() {
    let mut ledger = fresh_ledger(2 * LAMPORTS_PER_SOL);
    let pid = program_id();
    let (u, s, v, p) = ledger.views();
    assert_eq!(deposit(&pid, &u, &s, &v, &p, 5), Err(VaultError::AccountNotInitialized));
    run_initialize(&mut ledger).unwrap();
    let (u, s, v, p) = ledger.views();

    let mut foreign = s.clone();
    foreign.owner = [3; 32];
    assert_eq!(withdraw(&pid, &u, &foreign, &v, &p, 5), Err(VaultError::AccountOwnedByWrongProgram));

    let mut other_user = u.clone();
    other_user.key = [2; 32];
    assert_eq!(withdraw(&pid, &other_user, &s, &v, &p, 5), Err(VaultError::ConstraintSeeds));

    let mut read_only_user = u.clone();
    read_only_user.is_writable = false;
    assert_eq!(deposit(&pid, &read_only_user, &s, &v, &p, 5), Err(VaultError::ConstraintMut));

    let mut other_vault = v.clone();
    other_vault.key = [4; 32];
    assert_eq!(close(&pid, &u, &s, &other_vault, &p), Err(VaultError::ConstraintSeeds));

    let mut tampered = s.clone();
    tampered.data[9] = tampered.data[9].wrapping_sub(1);
    assert_eq!(deposit(&pid, &u, &tampered, &v, &p, 5), Err(VaultError::ConstraintSeeds));

    assert!(Payment::try_accounts(&pid, &u, &s, &v, &p).is_ok());
    assert_eq!(Close::try_accounts(&pid, &u, &s, &v, &p).unwrap().vault_lamports, v.lamports);
}

#[test]
fn deposit_then_withdraw_restores_balances() {
    let mut ledger = fresh_ledger(2 * LAMPORTS_PER_SOL);
    run_initialize(&mut ledger).unwrap();
    let before: Vec<u64> = ledger.accounts.iter().map(|a| a.lamports).collect();
    let (u, s, v, p) = ledger.views();
    let d = deposit(&program_id(), &u, &s, &v, &p, 123_456).unwrap();
    ledger.run(&d).unwrap();
    let (u, s, v, p) = ledger.views();
    let w = withdraw(&program_id(), &u, &s, &v, &p, 123_456).unwrap();
    ledger.run(&w).unwrap();
    let after: Vec<u64> = ledger.accounts.iter().map(|a| a.lamports).collect();
    assert_eq!(before, after);
}

#[test]
fn withdraw_signs_with_the_vault_seeds() {
    let mut ledger = fresh_ledger(2 * LAMPORTS_PER_SOL);
    run_initialize(&mut ledger).unwrap();
    let (u, s, v, p) = ledger.views();
    let plan = withdraw(&program_id(), &u, &s, &v, &p, 1).unwrap();
    match plan[0] {
        Action::Transfer { from, signer: Some(seeds), .. } => {
            assert_eq!(from, vault_pda().0);
            assert_eq!(seeds, PdaSeeds { tag: SeedTag::Vault, base: state_pda().0, bump: vault_pda().1 });
            assert!(ledger.signs_for(&from, &Some(seeds)));
        }
        _ => panic!("withdraw must be a signed transfer"),
    }
    let too_much = withdraw(&program_id(), &u, &s, &v, &p, v.lamports + 1).unwrap();
    assert!(ledger.run(&too_much).is_err());
}

#[test]
fn instructions_conserve_lamports() {
    let mut ledger = fresh_ledger(3 * LAMPORTS_PER_SOL);
    let total = |l: &Ledger| -> u64 { l.accounts.iter().map(|a| a.lamports).sum() };
    let start = total(&ledger);
    run_initialize(&mut ledger).unwrap();
    assert_eq!(total(&ledger), start);
    let (u, s, v, p) = ledger.views();
    ledger.run(&deposit(&program_id(), &u, &s, &v, &p, 77).unwrap()).unwrap();
    assert_eq!(total(&ledger), start);
    let (u, s, v, p) = ledger.views();
    ledger.run(&close(&program_id(), &u, &s, &v, &p).unwrap()).unwrap();
    assert_eq!(total(&ledger), start);
    assert_eq!(ledger.get(&USER).lamports, 3 * LAMPORTS_PER_SOL);
}

#[test]
fn handlers_of_checked_accounts() {
    let mut ledger = fresh_ledger(2 * LAMPORTS_PER_SOL);
    let (u, s, v, p) = ledger.views();
    let (state_bump, creation) = Initialize::create_state(&program_id(), &u, &s, &v, &p, 960_480).unwrap();
    assert_eq!(creation.len(), 1);
    ledger.run(&creation).unwrap();
    let (u, s, v, _) = ledger.views();
    let (accounts, bumps) = Initialize::try_accounts(&program_id(), state_bump, &u, &s, &v, 960_480).unwrap();
    assert_eq!(bumps.vault_state, state_pda().1);
    assert_eq!(bumps.vault, vault_pda().1);
    let (fund, state) = accounts.initialize(&bumps, 42);
    assert_eq!(fund, Action::Transfer { from: USER, to: vault_pda().0, amount: 42, signer: None });
    assert_eq!(state, VaultState { vault_bump: vault_pda().1, state_bump: state_pda().1 });
    let (u, s, v, _) = ledger.views();
    let plan = initialize(&program_id(), state_bump, &u, &s, &v, 960_480, rent(0)).unwrap();
    ledger.run(&plan).unwrap();
    let (u, s, v, p) = ledger.views();
    let payment = Payment::try_accounts(&program_id(), &u, &s, &v, &p).unwrap();
    assert_eq!(payment.deposit(5), Action::Transfer { from: USER, to: vault_pda().0, amount: 5, signer: None });
    let closing = Close::try_accounts(&program_id(), &u, &s, &v, &p).unwrap();
    match closing.close() {
        Action::Transfer { from, to, amount, signer: Some(_) } => {
            assert_eq!((from, to, amount), (vault_pda().0, USER, v.lamports));
        }
        _ => panic!("close must empty the vault with a signed transfer"),
    }
}
