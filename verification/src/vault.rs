//! The vault program's instructions: each checks its accounts and, if they
//! pass, lists what the runtime is to do.

use vstd::prelude::*;
use crate::account::AccountView;
use crate::actions::{Action, PdaSeeds, plan_view};
use crate::error::VaultError;
use crate::instructions::{
    Close, Initialize, Payment, spec_close_accounts, spec_initialize_accounts, spec_user_accounts,
    spec_create_state, create_state_view, created_state_readable,
};
use crate::pda::SeedTag;
use crate::state::VaultState;

verus! {

/// The address at which the vault program lives,
/// Hot4S2HDwRYp4YVw1cEUqMcHkvRDWfPfAqLxGG7ndZbN.
pub open spec fn spec_id() -> Seq<u8> {
    seq![
        249u8, 189u8, 112u8, 217u8, 114u8, 148u8, 174u8, 80u8, 138u8, 59u8, 22u8, 84u8, 206u8, 169u8, 194u8, 203u8,
        188u8, 117u8, 236u8, 141u8, 208u8, 163u8, 61u8, 244u8, 194u8, 66u8, 119u8, 12u8, 97u8, 191u8, 175u8, 185u8,
    ]
}

/// The address at which the vault program lives.
pub fn id() -> (r: [u8; 32])
    ensures
        r@ == spec_id(),
{
    let r: [u8; 32] = [
        249u8, 189u8, 112u8, 217u8, 114u8, 148u8, 174u8, 80u8, 138u8, 59u8, 22u8, 84u8, 206u8, 169u8, 194u8, 203u8,
        188u8, 117u8, 236u8, 141u8, 208u8, 163u8, 61u8, 244u8, 194u8, 66u8, 119u8, 12u8, 97u8, 191u8, 175u8, 185u8,
    ];
    assert(r@ =~= spec_id());
    r
}

/// What the first part of `initialize` does: check the accounts anchor
/// checks before the state account exists, and create it.
pub open spec fn spec_create_state_account(
    program_id: [u8; 32],
    signer: AccountView,
    vault_state: AccountView,
    vault: AccountView,
    system_program: AccountView,
    state_rent: u64,
) -> Result<(u8, Seq<Action>), VaultError> {
    spec_create_state(program_id, signer, vault_state, vault, system_program, state_rent)
}

/// The first part of `initialize`: the state account's bump and the actions
/// that create the state account at its address. `state_rent` is the rent
/// exemption of `SPACE` bytes. Once they are performed, `initialize` takes the
/// accounts as they then are.
pub fn create_state_account(
    program_id: &[u8; 32],
    signer: &AccountView,
    vault_state: &AccountView,
    vault: &AccountView,
    system_program: &AccountView,
    state_rent: u64,
) -> (r: Result<(u8, Vec<Action>), VaultError>)
    ensures
        create_state_view(r) == spec_create_state_account(*program_id, *signer, *vault_state, *vault, *system_program, state_rent),
{
    Initialize::create_state(program_id, signer, vault_state, vault, system_program, state_rent)
}

/// What the rest of `initialize` does, on the accounts as they are once the
/// state account exists: fund the vault with `vault_rent` from the user and
/// record both bumps in the state account.
pub open spec fn spec_initialize(
    program_id: [u8; 32],
    state_bump: u8,
    signer: AccountView,
    vault_state: AccountView,
    vault: AccountView,
    state_rent: u64,
    vault_rent: u64,
) -> Result<Seq<Action>, VaultError> {
    match spec_initialize_accounts(program_id, state_bump, signer, vault_state, vault, state_rent) {
        Err(e) => Err(e),
        Ok((accounts, bumps)) => Ok(seq![
            accounts.spec_fund_action(vault_rent),
            Action::WriteState { account: accounts.vault_state, state: bumps.state() },
        ]),
    }
}

/// The rest of `initialize`, once the actions of `create_state_account` are
/// performed: `state_bump` is the bump it returned, `state_rent` the rent
/// exemption of the state account's data length, and `vault_rent` that of
/// the vault's.
pub fn initialize(
    program_id: &[u8; 32],
    state_bump: u8,
    signer: &AccountView,
    vault_state: &AccountView,
    vault: &AccountView,
    state_rent: u64,
    vault_rent: u64,
) -> (r: Result<Vec<Action>, VaultError>)
    requires
        created_state_readable(program_id@, *vault_state),
    ensures
        plan_view(r) == spec_initialize(*program_id, state_bump, *signer, *vault_state, *vault, state_rent, vault_rent),
{
    let (accounts, bumps) = match Initialize::try_accounts(program_id, state_bump, signer, vault_state, vault, state_rent) {
        Err(e) => { return Err(e); },
        Ok(checked) => checked,
    };
    let (fund, state) = accounts.initialize(&bumps, vault_rent);
    let mut actions: Vec<Action> = Vec::new();
    actions.push(fund);
    actions.push(Action::WriteState { account: accounts.vault_state, state: state });
    assert(actions@ =~= seq![
        accounts.spec_fund_action(vault_rent),
        Action::WriteState { account: accounts.vault_state, state: bumps.state() },
    ]);
    Ok(actions)
}

/// What `deposit` does: move `amount` lamports from the user to the vault.
pub open spec fn spec_deposit(
    program_id: [u8; 32],
    signer: AccountView,
    vault_state: AccountView,
    vault: AccountView,
    system_program: AccountView,
    amount: u64,
) -> Result<Seq<Action>, VaultError> {
    match spec_user_accounts(program_id, signer, vault_state, vault, system_program, false) {
        Err(e) => Err(e),
        Ok(p) => Ok(seq![Action::Transfer { from: p.signer, to: p.vault, amount: amount, signer: None }]),
    }
}

/// Moves `amount` lamports from the user into the user's vault.
pub fn deposit(
    program_id: &[u8; 32],
    signer: &AccountView,
    vault_state: &AccountView,
    vault: &AccountView,
    system_program: &AccountView,
    amount: u64,
) -> (r: Result<Vec<Action>, VaultError>)
    ensures
        plan_view(r) == spec_deposit(*program_id, *signer, *vault_state, *vault, *system_program, amount),
{
    let accounts = match Payment::try_accounts(program_id, signer, vault_state, vault, system_program) {
        Err(e) => { return Err(e); },
        Ok(p) => p,
    };
    let mut actions: Vec<Action> = Vec::new();
    actions.push(accounts.deposit(amount));
    assert(actions@ =~= seq![Action::Transfer { from: accounts.signer, to: accounts.vault, amount: amount, signer: None }]);
    Ok(actions)
}

/// The seeds with which the program signs for the vault of a state account.
pub open spec fn vault_signer(vault_state: [u8; 32], state: VaultState) -> PdaSeeds {
    PdaSeeds { tag: SeedTag::Vault, base: vault_state, bump: state.vault_bump }
}

/// What `withdraw` does: move `amount` lamports from the vault to the user,
/// the program signing for the vault.
pub open spec fn spec_withdraw(
    program_id: [u8; 32],
    signer: AccountView,
    vault_state: AccountView,
    vault: AccountView,
    system_program: AccountView,
    amount: u64,
) -> Result<Seq<Action>, VaultError> {
    match spec_user_accounts(program_id, signer, vault_state, vault, system_program, false) {
        Err(e) => Err(e),
        Ok(p) => Ok(seq![Action::Transfer { from: p.vault, to: p.signer, amount: amount, signer: Some(vault_signer(p.vault_state, p.state)) }]),
    }
}

/// Moves `amount` lamports from the user's vault back to the user.
pub fn withdraw(
    program_id: &[u8; 32],
    signer: &AccountView,
    vault_state: &AccountView,
    vault: &AccountView,
    system_program: &AccountView,
    amount: u64,
) -> (r: Result<Vec<Action>, VaultError>)
    ensures
        plan_view(r) == spec_withdraw(*program_id, *signer, *vault_state, *vault, *system_program, amount),
{
    let accounts = match Payment::try_accounts(program_id, signer, vault_state, vault, system_program) {
        Err(e) => { return Err(e); },
        Ok(p) => p,
    };
    let mut actions: Vec<Action> = Vec::new();
    actions.push(accounts.withdraw(amount));
    assert(actions@ =~= seq![Action::Transfer { from: accounts.vault, to: accounts.signer, amount: amount, signer: Some(vault_signer(accounts.vault_state, accounts.state)) }]);
    Ok(actions)
}

/// What `close` does: move every lamport of the vault to the user, the
/// program signing for the vault, then close the state account into the user.
pub open spec fn spec_close(
    program_id: [u8; 32],
    signer: AccountView,
    vault_state: AccountView,
    vault: AccountView,
    system_program: AccountView,
) -> Result<Seq<Action>, VaultError> {
    match spec_close_accounts(program_id, signer, vault_state, vault, system_program) {
        Err(e) => Err(e),
        Ok(c) => Ok(seq![
            Action::Transfer { from: c.vault, to: c.signer, amount: c.vault_lamports, signer: Some(vault_signer(c.vault_state, c.state)) },
            Action::Close { account: c.vault_state, destination: c.signer },
        ]),
    }
}

/// Empties the user's vault into the user and closes the state account.
pub fn close(
    program_id: &[u8; 32],
    signer: &AccountView,
    vault_state: &AccountView,
    vault: &AccountView,
    system_program: &AccountView,
) -> (r: Result<Vec<Action>, VaultError>)
    ensures
        plan_view(r) == spec_close(*program_id, *signer, *vault_state, *vault, *system_program),
{
    let accounts = match Close::try_accounts(program_id, signer, vault_state, vault, system_program) {
        Err(e) => { return Err(e); },
        Ok(c) => c,
    };
    let mut actions: Vec<Action> = Vec::new();
    actions.push(accounts.close());
    actions.push(Action::Close { account: accounts.vault_state, destination: accounts.signer });
    assert(actions@ =~= seq![
        Action::Transfer { from: accounts.vault, to: accounts.signer, amount: accounts.vault_lamports, signer: Some(vault_signer(accounts.vault_state, accounts.state)) },
        Action::Close { account: accounts.vault_state, destination: accounts.signer },
    ]);
    Ok(actions)
}

} // verus!
