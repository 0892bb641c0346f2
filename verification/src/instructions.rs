//! The accounts of each vault instruction, the checks that admit them, in
//! the order anchor makes them, and the instruction handlers.

use vstd::prelude::*;
use crate::account::{AccountView, keys_eq, spec_system_program_id, system_program_id};
use crate::actions::{Action, PdaSeeds};
use crate::error::VaultError;
use crate::pda::{
    SeedTag, spec_create, spec_find, spec_seeds, with_bump, seeds, seeds_with_bump,
    create_program_address, try_find_program_address, lemma_scheme_within_limits,
};
use crate::state::{VaultState, SPACE, spec_deserialize, spec_deserialize_unchecked};

verus! {

/// `key` is the address that the scheme `tag` derives from `base` with
/// `bump` under `program_id`.
pub open spec fn seeds_ok(program_id: Seq<u8>, tag: SeedTag, base: Seq<u8>, bump: u8, key: Seq<u8>) -> bool {
    spec_create(with_bump(spec_seeds(tag, base), bump), program_id) matches Ok(k) && k == key
}

/// Checks that `key` is the address that `tag`, `base` and `bump` derive.
pub fn check_seeds(program_id: &[u8; 32], tag: SeedTag, base: &[u8; 32], bump: u8, key: &[u8; 32]) -> (r: bool)
    ensures
        r == seeds_ok(program_id@, tag, base@, bump, key@),
{
    let s = seeds_with_bump(tag, base, bump);
    proof { lemma_scheme_within_limits(tag, base@, bump); }
    match create_program_address(&s, program_id) {
        Ok(k) => keys_eq(&k, key),
        Err(_) => false,
    }
}

/// The canonical address and bump of the scheme `tag` for `base`.
pub fn find_address(program_id: &[u8; 32], tag: SeedTag, base: &[u8; 32]) -> (r: Option<([u8; 32], u8)>)
    ensures
        match r {
            Some((k, b)) => spec_find(spec_seeds(tag, base@), program_id@) == Some((k@, b)),
            None => spec_find(spec_seeds(tag, base@), program_id@) is None,
        },
{
    let s = seeds(tag, base);
    proof { lemma_scheme_within_limits(tag, base@, 0); }
    try_find_program_address(&s, program_id)
}

/// The error of anchor's `Program<System>` check, if any.
pub open spec fn spec_system_program_error(a: AccountView) -> Option<VaultError> {
    if a.key@ != spec_system_program_id() {
        Some(VaultError::InvalidProgramId)
    } else if !a.executable {
        Some(VaultError::InvalidProgramExecutable)
    } else {
        None
    }
}

fn system_program_error(a: &AccountView) -> (r: Option<VaultError>)
    ensures
        r == spec_system_program_error(*a),
{
    let sys = system_program_id();
    if !keys_eq(&a.key, &sys) {
        Some(VaultError::InvalidProgramId)
    } else if !a.executable {
        Some(VaultError::InvalidProgramExecutable)
    } else {
        None
    }
}

/// The vault state that anchor's `Account<VaultState>` reads from `a`.
pub open spec fn spec_account_state(program_id: Seq<u8>, a: AccountView) -> Result<VaultState, VaultError> {
    if a.owner@ == spec_system_program_id() && a.lamports == 0 {
        Err(VaultError::AccountNotInitialized)
    } else if a.owner@ != program_id {
        Err(VaultError::AccountOwnedByWrongProgram)
    } else {
        spec_deserialize(a.data@)
    }
}

fn account_state(program_id: &[u8; 32], a: &AccountView) -> (r: Result<VaultState, VaultError>)
    ensures
        r == spec_account_state(program_id@, *a),
{
    let sys = system_program_id();
    if keys_eq(&a.owner, &sys) && a.lamports == 0 {
        Err(VaultError::AccountNotInitialized)
    } else if !keys_eq(&a.owner, program_id) {
        Err(VaultError::AccountOwnedByWrongProgram)
    } else {
        VaultState::try_deserialize(a.data.as_slice())
    }
}

/// The bumps anchor finds while checking `Initialize`.
#[derive(Clone, Copy, Debug, PartialEq, Eq)]
pub struct InitializeBumps {
    pub vault_state: u8,
    pub vault: u8,
}

impl InitializeBumps {
    /// The state that records these bumps.
    pub open spec fn state(self) -> VaultState {
        VaultState { vault_bump: self.vault, state_bump: self.vault_state }
    }
}

/// The accounts of `initialize`: the user, who pays; the state account to
/// create; the user's vault.
#[derive(Clone, Copy, Debug, PartialEq, Eq)]
pub struct Initialize {
    pub signer: [u8; 32],
    pub vault_state: [u8; 32],
    pub vault: [u8; 32],
}

/// How anchor brings the state account into being: with `create_account`
/// when it holds no lamports, else by topping it up to `state_rent` (at
/// least 1), then `allocate` and `assign`.
pub open spec fn spec_creation(program_id: [u8; 32], signer: [u8; 32], vault_state: AccountView, state_rent: u64, bump: u8) -> Seq<Action> {
    let seeds = PdaSeeds { tag: SeedTag::State, base: signer, bump: bump };
    if vault_state.lamports == 0 {
        seq![Action::CreateAccount { from: signer, to: vault_state.key, lamports: state_rent, space: SPACE as u64, owner: program_id, seeds: seeds }]
    } else {
        let floor: u64 = if state_rent == 0 { 1 } else { state_rent };
        let top_up = if floor > vault_state.lamports {
            seq![Action::Transfer { from: signer, to: vault_state.key, amount: (floor - vault_state.lamports) as u64, signer: None }]
        } else {
            Seq::empty()
        };
        top_up + seq![
            Action::Allocate { account: vault_state.key, space: SPACE as u64, seeds: seeds },
            Action::Assign { account: vault_state.key, owner: program_id, seeds: seeds },
        ]
    }
}


/// The first half of anchor's checks of `Initialize`, in its order, up to
/// the creation of the state account: the state bump found and the actions
/// that create it. `state_rent` is the rent exemption of `SPACE` bytes.
pub open spec fn spec_create_state(
    program_id: [u8; 32],
    signer: AccountView,
    vault_state: AccountView,
    vault: AccountView,
    system_program: AccountView,
    state_rent: u64,
) -> Result<(u8, Seq<Action>), VaultError> {
    if !signer.is_signer {
        Err(VaultError::AccountNotSigner)
    } else if vault.owner@ != spec_system_program_id() {
        Err(VaultError::AccountNotSystemOwned)
    } else if spec_system_program_error(system_program) is Some {
        Err(spec_system_program_error(system_program).unwrap())
    } else {
        match spec_find(spec_seeds(SeedTag::State, signer.key@), program_id@) {
            None => Err(VaultError::NoViableBumpSeed),
            Some((state_pda, state_bump)) => {
                if vault_state.key@ != state_pda {
                    Err(VaultError::ConstraintSeeds)
                } else if vault_state.lamports != 0 && signer.key@ == vault_state.key@ {
                    Err(VaultError::TryingToInitPayerAsProgramAccount)
                } else {
                    Ok((state_bump, spec_creation(program_id, signer.key, vault_state, state_rent, state_bump)))
                }
            },
        }
    }
}

/// The state bump with the actions taken as a sequence.
pub open spec fn create_state_view(r: Result<(u8, Vec<Action>), VaultError>) -> Result<(u8, Seq<Action>), VaultError> {
    match r {
        Ok((bump, actions)) => Ok((bump, actions@)),
        Err(e) => Err(e),
    }
}

/// What anchor's `Account::try_from_unchecked` reads from the created state
/// account: the discriminator is not checked.
pub open spec fn spec_account_state_unchecked(program_id: Seq<u8>, a: AccountView) -> Result<VaultState, VaultError> {
    if a.owner@ == spec_system_program_id() && a.lamports == 0 {
        Err(VaultError::AccountNotInitialized)
    } else if a.owner@ != program_id {
        Err(VaultError::AccountOwnedByWrongProgram)
    } else {
        spec_deserialize_unchecked(a.data@)
    }
}

/// Anchor reads the created state account past its first 8 bytes; it panics
/// where the account passes the owner checks and holds fewer.
pub open spec fn created_state_readable(program_id: Seq<u8>, a: AccountView) -> bool {
    (a.owner@ == program_id && !(a.owner@ == spec_system_program_id() && a.lamports == 0)) ==> a.data@.len() >= 8
}

/// The second half of anchor's checks of `Initialize`, in its order, made
/// once the state account exists: `state_bump` is the bump the first half
/// found and `state_rent` the rent exemption of the state account's data
/// length. The first check, that the state account is still the canonical
/// address of the user with that bump, repeats one of the first half, so
/// that this half alone records only canonical bumps.
pub open spec fn spec_initialize_accounts(
    program_id: [u8; 32],
    state_bump: u8,
    signer: AccountView,
    vault_state: AccountView,
    vault: AccountView,
    state_rent: u64,
) -> Result<(Initialize, InitializeBumps), VaultError> {
    match spec_find(spec_seeds(SeedTag::State, signer.key@), program_id@) {
        None => Err(VaultError::NoViableBumpSeed),
        Some((state_pda, canonical_bump)) => {
            if vault_state.key@ != state_pda || state_bump != canonical_bump {
                Err(VaultError::ConstraintSeeds)
            } else {
                spec_created_accounts(program_id, state_bump, signer, vault_state, vault, state_rent)
            }
        },
    }
}

/// The checks of `Initialize` that anchor makes on the created account.
pub open spec fn spec_created_accounts(
    program_id: [u8; 32],
    state_bump: u8,
    signer: AccountView,
    vault_state: AccountView,
    vault: AccountView,
    state_rent: u64,
) -> Result<(Initialize, InitializeBumps), VaultError> {
    match spec_account_state_unchecked(program_id@, vault_state) {
        Err(e) => Err(e),
        Ok(_) => {
            if !vault_state.is_writable {
                Err(VaultError::ConstraintMut)
            } else if vault_state.lamports < state_rent {
                Err(VaultError::ConstraintRentExempt)
            } else if !signer.is_writable {
                Err(VaultError::ConstraintMut)
            } else {
                match spec_find(spec_seeds(SeedTag::Vault, vault_state.key@), program_id@) {
                    None => Err(VaultError::NoViableBumpSeed),
                    Some((vault_pda, vault_bump)) => {
                        if vault.key@ != vault_pda {
                            Err(VaultError::ConstraintSeeds)
                        } else if !vault.is_writable {
                            Err(VaultError::ConstraintMut)
                        } else {
                            Ok((
                                Initialize { signer: signer.key, vault_state: vault_state.key, vault: vault.key },
                                InitializeBumps { vault_state: state_bump, vault: vault_bump },
                            ))
                        }
                    },
                }
            }
        },
    }
}

fn creation(program_id: &[u8; 32], signer: &[u8; 32], vault_state: &AccountView, state_rent: u64, bump: u8) -> (r: Vec<Action>)
    ensures
        r@ == spec_creation(*program_id, *signer, *vault_state, state_rent, bump),
{
    let seeds = PdaSeeds { tag: SeedTag::State, base: *signer, bump: bump };
    let mut r: Vec<Action> = Vec::new();
    if vault_state.lamports == 0 {
        r.push(Action::CreateAccount {
            from: *signer,
            to: vault_state.key,
            lamports: state_rent,
            space: SPACE as u64,
            owner: *program_id,
            seeds: seeds,
        });
    } else {
        let floor: u64 = if state_rent == 0 { 1 } else { state_rent };
        if floor > vault_state.lamports {
            r.push(Action::Transfer { from: *signer, to: vault_state.key, amount: floor - vault_state.lamports, signer: None });
        }
        r.push(Action::Allocate { account: vault_state.key, space: SPACE as u64, seeds: seeds });
        r.push(Action::Assign { account: vault_state.key, owner: *program_id, seeds: seeds });
    }
    assert(r@ =~= spec_creation(*program_id, *signer, *vault_state, state_rent, bump));
    r
}

fn account_state_unchecked(program_id: &[u8; 32], a: &AccountView) -> (r: Result<VaultState, VaultError>)
    requires
        created_state_readable(program_id@, *a),
    ensures
        r == spec_account_state_unchecked(program_id@, *a),
{
    let sys = system_program_id();
    if keys_eq(&a.owner, &sys) && a.lamports == 0 {
        Err(VaultError::AccountNotInitialized)
    } else if !keys_eq(&a.owner, program_id) {
        Err(VaultError::AccountOwnedByWrongProgram)
    } else {
        VaultState::try_deserialize_unchecked(a.data.as_slice())
    }
}

impl Initialize {
    /// Makes anchor's checks of `initialize` that come before the state
    /// account exists, and says how to create it: the bump of the state
    /// account and the actions.
    pub fn create_state(
        program_id: &[u8; 32],
        signer: &AccountView,
        vault_state: &AccountView,
        vault: &AccountView,
        system_program: &AccountView,
        state_rent: u64,
    ) -> (r: Result<(u8, Vec<Action>), VaultError>)
        ensures
            create_state_view(r) == spec_create_state(*program_id, *signer, *vault_state, *vault, *system_program, state_rent),
    {
        if !signer.is_signer {
            return Err(VaultError::AccountNotSigner);
        }
        let sys = system_program_id();
        if !keys_eq(&vault.owner, &sys) {
            return Err(VaultError::AccountNotSystemOwned);
        }
        match system_program_error(system_program) {
            Some(e) => { return Err(e); },
            None => {},
        }
        let (state_pda, state_bump) = match find_address(program_id, SeedTag::State, &signer.key) {
            None => { return Err(VaultError::NoViableBumpSeed); },
            Some(found) => found,
        };
        if !keys_eq(&vault_state.key, &state_pda) {
            return Err(VaultError::ConstraintSeeds);
        }
        if vault_state.lamports != 0 && keys_eq(&signer.key, &vault_state.key) {
            return Err(VaultError::TryingToInitPayerAsProgramAccount);
        }
        let actions = creation(program_id, &signer.key, vault_state, state_rent, state_bump);
        Ok((state_bump, actions))
    }

    /// Makes anchor's checks of `initialize` that follow the creation of the
    /// state account, on the accounts as they are after it.
    pub fn try_accounts(
        program_id: &[u8; 32],
        state_bump: u8,
        signer: &AccountView,
        vault_state: &AccountView,
        vault: &AccountView,
        state_rent: u64,
    ) -> (r: Result<(Initialize, InitializeBumps), VaultError>)
        requires
            created_state_readable(program_id@, *vault_state),
        ensures
            r == spec_initialize_accounts(*program_id, state_bump, *signer, *vault_state, *vault, state_rent),
    {
        match find_address(program_id, SeedTag::State, &signer.key) {
            None => { return Err(VaultError::NoViableBumpSeed); },
            Some((state_pda, canonical_bump)) => {
                if !keys_eq(&vault_state.key, &state_pda) || state_bump != canonical_bump {
                    return Err(VaultError::ConstraintSeeds);
                }
            },
        }
        match account_state_unchecked(program_id, vault_state) {
            Err(e) => { return Err(e); },
            Ok(_) => {},
        }
        if !vault_state.is_writable {
            return Err(VaultError::ConstraintMut);
        }
        if vault_state.lamports < state_rent {
            return Err(VaultError::ConstraintRentExempt);
        }
        if !signer.is_writable {
            return Err(VaultError::ConstraintMut);
        }
        let (vault_pda, vault_bump) = match find_address(program_id, SeedTag::Vault, &vault_state.key) {
            None => { return Err(VaultError::NoViableBumpSeed); },
            Some(found) => found,
        };
        if !keys_eq(&vault.key, &vault_pda) {
            return Err(VaultError::ConstraintSeeds);
        }
        if !vault.is_writable {
            return Err(VaultError::ConstraintMut);
        }
        Ok((
            Initialize { signer: signer.key, vault_state: vault_state.key, vault: vault.key },
            InitializeBumps { vault_state: state_bump, vault: vault_bump },
        ))
    }

    /// The transfer with which `initialize` funds the vault.
    pub open spec fn spec_fund_action(self, rent_exempt: u64) -> Action {
        Action::Transfer { from: self.signer, to: self.vault, amount: rent_exempt, signer: None }
    }

    /// Funds the vault with its rent exemption, paid by the user, and records
    /// the two bumps.
    pub fn initialize(&self, bumps: &InitializeBumps, rent_exempt: u64) -> (r: (Action, VaultState))
        ensures
            r.0 == self.spec_fund_action(rent_exempt),
            r.1 == bumps.state(),
    {
        (
            Action::Transfer { from: self.signer, to: self.vault, amount: rent_exempt, signer: None },
            VaultState { vault_bump: bumps.vault, state_bump: bumps.vault_state },
        )
    }
}



/// The accounts of `deposit` and `withdraw`: the user, the user's state
/// account with the state it holds, and the user's vault.
#[derive(Clone, Copy, Debug, PartialEq, Eq)]
pub struct Payment {
    pub signer: [u8; 32],
    pub vault_state: [u8; 32],
    pub vault: [u8; 32],
    pub state: VaultState,
}

/// Anchor's checks of the accounts that `deposit`, `withdraw` and `close`
/// share, in its order; `closing` adds the check that the state account is
/// not closed into itself.
pub open spec fn spec_user_accounts(
    program_id: [u8; 32],
    signer: AccountView,
    vault_state: AccountView,
    vault: AccountView,
    system_program: AccountView,
    closing: bool,
) -> Result<Payment, VaultError> {
    if !signer.is_signer {
        Err(VaultError::AccountNotSigner)
    } else {
        match spec_account_state(program_id@, vault_state) {
            Err(e) => Err(e),
            Ok(state) => {
                if vault.owner@ != spec_system_program_id() {
                    Err(VaultError::AccountNotSystemOwned)
                } else if spec_system_program_error(system_program) is Some {
                    Err(spec_system_program_error(system_program).unwrap())
                } else if !signer.is_writable {
                    Err(VaultError::ConstraintMut)
                } else if !seeds_ok(program_id@, SeedTag::State, signer.key@, state.state_bump, vault_state.key@) {
                    Err(VaultError::ConstraintSeeds)
                } else if !vault_state.is_writable {
                    Err(VaultError::ConstraintMut)
                } else if closing && vault_state.key@ == signer.key@ {
                    Err(VaultError::ConstraintClose)
                } else if !seeds_ok(program_id@, SeedTag::Vault, vault_state.key@, state.vault_bump, vault.key@) {
                    Err(VaultError::ConstraintSeeds)
                } else if !vault.is_writable {
                    Err(VaultError::ConstraintMut)
                } else {
                    Ok(Payment { signer: signer.key, vault_state: vault_state.key, vault: vault.key, state: state })
                }
            },
        }
    }
}

fn user_accounts(
    program_id: &[u8; 32],
    signer: &AccountView,
    vault_state: &AccountView,
    vault: &AccountView,
    system_program: &AccountView,
    closing: bool,
) -> (r: Result<Payment, VaultError>)
    ensures
        r == spec_user_accounts(*program_id, *signer, *vault_state, *vault, *system_program, closing),
{
    if !signer.is_signer {
        return Err(VaultError::AccountNotSigner);
    }
    let state = match account_state(program_id, vault_state) {
        Err(e) => { return Err(e); },
        Ok(state) => state,
    };
    let sys = system_program_id();
    if !keys_eq(&vault.owner, &sys) {
        return Err(VaultError::AccountNotSystemOwned);
    }
    match system_program_error(system_program) {
        Some(e) => { return Err(e); },
        None => {},
    }
    if !signer.is_writable {
        return Err(VaultError::ConstraintMut);
    }
    if !check_seeds(program_id, SeedTag::State, &signer.key, state.state_bump, &vault_state.key) {
        return Err(VaultError::ConstraintSeeds);
    }
    if !vault_state.is_writable {
        return Err(VaultError::ConstraintMut);
    }
    if closing && keys_eq(&vault_state.key, &signer.key) {
        return Err(VaultError::ConstraintClose);
    }
    if !check_seeds(program_id, SeedTag::Vault, &vault_state.key, state.vault_bump, &vault.key) {
        return Err(VaultError::ConstraintSeeds);
    }
    if !vault.is_writable {
        return Err(VaultError::ConstraintMut);
    }
    Ok(Payment { signer: signer.key, vault_state: vault_state.key, vault: vault.key, state: state })
}

impl Payment {
    /// Checks the accounts of `deposit` and `withdraw` as anchor does.
    pub fn try_accounts(
        program_id: &[u8; 32],
        signer: &AccountView,
        vault_state: &AccountView,
        vault: &AccountView,
        system_program: &AccountView,
    ) -> (r: Result<Payment, VaultError>)
        ensures
            r == spec_user_accounts(*program_id, *signer, *vault_state, *vault, *system_program, false),
    {
        user_accounts(program_id, signer, vault_state, vault, system_program, false)
    }

    /// The seeds with which the program signs for the vault.
    pub open spec fn spec_vault_seeds(self) -> PdaSeeds {
        PdaSeeds { tag: SeedTag::Vault, base: self.vault_state, bump: self.state.vault_bump }
    }

    /// The transfer of `deposit`.
    pub open spec fn spec_deposit_action(self, amount: u64) -> Action {
        Action::Transfer { from: self.signer, to: self.vault, amount: amount, signer: None }
    }

    /// The transfer of `withdraw`.
    pub open spec fn spec_withdraw_action(self, amount: u64) -> Action {
        Action::Transfer { from: self.vault, to: self.signer, amount: amount, signer: Some(self.spec_vault_seeds()) }
    }

    /// Moves `amount` lamports from the user into the vault; the user signs.
    pub fn deposit(&self, amount: u64) -> (r: Action)
        ensures
            r == self.spec_deposit_action(amount),
    {
        Action::Transfer { from: self.signer, to: self.vault, amount: amount, signer: None }
    }

    /// Moves `amount` lamports from the vault back to the user; the program
    /// signs for the vault with `["vault", state account, vault bump]`.
    pub fn withdraw(&self, amount: u64) -> (r: Action)
        ensures
            r == self.spec_withdraw_action(amount),
    {
        let seeds = PdaSeeds { tag: SeedTag::Vault, base: self.vault_state, bump: self.state.vault_bump };
        Action::Transfer { from: self.vault, to: self.signer, amount: amount, signer: Some(seeds) }
    }
}

/// The accounts of `close`: those of `Payment`, and the lamports the vault
/// holds.
#[derive(Clone, Copy, Debug, PartialEq, Eq)]
pub struct Close {
    pub signer: [u8; 32],
    pub vault_state: [u8; 32],
    pub vault: [u8; 32],
    pub state: VaultState,
    pub vault_lamports: u64,
}

/// Anchor's checks of `Close`.
pub open spec fn spec_close_accounts(
    program_id: [u8; 32],
    signer: AccountView,
    vault_state: AccountView,
    vault: AccountView,
    system_program: AccountView,
) -> Result<Close, VaultError> {
    match spec_user_accounts(program_id, signer, vault_state, vault, system_program, true) {
        Ok(p) => Ok(Close { signer: p.signer, vault_state: p.vault_state, vault: p.vault, state: p.state, vault_lamports: vault.lamports }),
        Err(e) => Err(e),
    }
}

impl Close {
    /// Checks the accounts of `close` as anchor does.
    pub fn try_accounts(
        program_id: &[u8; 32],
        signer: &AccountView,
        vault_state: &AccountView,
        vault: &AccountView,
        system_program: &AccountView,
    ) -> (r: Result<Close, VaultError>)
        ensures
            r == spec_close_accounts(*program_id, *signer, *vault_state, *vault, *system_program),
    {
        match user_accounts(program_id, signer, vault_state, vault, system_program, true) {
            Ok(p) => Ok(Close { signer: p.signer, vault_state: p.vault_state, vault: p.vault, state: p.state, vault_lamports: vault.lamports }),
            Err(e) => Err(e),
        }
    }

    /// The seeds with which the program signs for the vault.
    pub open spec fn spec_vault_seeds(self) -> PdaSeeds {
        PdaSeeds { tag: SeedTag::Vault, base: self.vault_state, bump: self.state.vault_bump }
    }

    /// The transfer of `close`.
    pub open spec fn spec_close_action(self) -> Action {
        Action::Transfer { from: self.vault, to: self.signer, amount: self.vault_lamports, signer: Some(self.spec_vault_seeds()) }
    }

    /// Moves every lamport of the vault back to the user; the program signs
    /// for the vault.
    pub fn close(&self) -> (r: Action)
        ensures
            r == self.spec_close_action(),
    {
        let seeds = PdaSeeds { tag: SeedTag::Vault, base: self.vault_state, bump: self.state.vault_bump };
        Action::Transfer { from: self.vault, to: self.signer, amount: self.vault_lamports, signer: Some(seeds) }
    }
}

} // verus!
