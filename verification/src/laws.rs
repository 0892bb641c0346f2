//! What holds of the vault program across its instructions.

use vstd::prelude::*;
use crate::account::{AccountView, spec_system_program_id};
use crate::actions::{Action, AccountState, PdaSeeds, apply_actions, apply_action, run_actions, system_allows, zeros};
use crate::error::VaultError;
use crate::instructions::{
    Close, Initialize, InitializeBumps, Payment, seeds_ok, spec_create_state, spec_creation,
    spec_initialize_accounts, spec_user_accounts, spec_account_state, spec_account_state_unchecked,
};
use crate::pda::{PdaError, SeedTag, find_from, spec_create, spec_find, spec_seeds, with_bump};
use crate::state::{SPACE, VaultState, spec_deserialize, spec_serialize, spec_discriminator};
use crate::vault::{spec_create_state_account, spec_initialize, spec_deposit, spec_withdraw, spec_close, spec_id};

verus! {

/// Reading back the data written for a state gives that state.
pub proof fn lemma_state_round_trip(s: VaultState)
    ensures
        spec_deserialize(spec_serialize(s)) == Ok::<VaultState, VaultError>(s),
{
    let data = spec_serialize(s);
    assert(data.take(8) =~= spec_discriminator());
}

/// The canonical bump that the search finds derives the address it returns.
pub proof fn lemma_found_address_derives(seeds: Seq<Seq<u8>>, program_id: Seq<u8>, bump: nat)
    ensures
        find_from(seeds, program_id, bump) matches Some((k, b)) ==> spec_create(with_bump(seeds, b), program_id) == Ok::<Seq<u8>, PdaError>(k),
    decreases bump,
{
    if bump != 0 && bump <= 255 {
        match spec_create(with_bump(seeds, bump as u8), program_id) {
            Ok(k) => {},
            Err(PdaError::InvalidSeeds) => { lemma_found_address_derives(seeds, program_id, (bump - 1) as nat); },
            Err(_) => {},
        }
    }
}

pub(crate) proof fn lemma_apply_one(l: Map<Seq<u8>, AccountState>, a: Action)
    ensures
        apply_actions(l, seq![a]) == apply_action(l, a),
{
    assert(seq![a].drop_first() =~= Seq::<Action>::empty());
    assert(apply_actions(apply_action(l, a), Seq::<Action>::empty()) == apply_action(l, a));
}

proof fn lemma_apply_two(l: Map<Seq<u8>, AccountState>, a: Action, b: Action)
    ensures
        apply_actions(l, seq![a, b]) == apply_action(apply_action(l, a), b),
{
    assert(seq![a, b].drop_first() =~= seq![b]);
    lemma_apply_one(apply_action(l, a), b);
}

proof fn lemma_apply_three(l: Map<Seq<u8>, AccountState>, a: Action, b: Action, c: Action)
    ensures
        apply_actions(l, seq![a, b, c]) == apply_action(apply_action(apply_action(l, a), b), c),
{
    assert(seq![a, b, c].drop_first() =~= seq![b, c]);
    lemma_apply_two(apply_action(l, a), b, c);
}

/// The view and the runtime's record of an account agree.
pub open spec fn agrees(l: Map<Seq<u8>, AccountState>, a: AccountView) -> bool {
    &&& l.dom().contains(a.key@)
    &&& l[a.key@].lamports == a.lamports
    &&& l[a.key@].owner == a.owner@
    &&& l[a.key@].data == a.data@
}

/// The first part of `initialize` leaves the state account owned by the
/// program, with `SPACE` zero bytes.
pub proof fn lemma_create_state_creates(
    program_id: [u8; 32],
    signer: AccountView,
    vault_state: AccountView,
    vault: AccountView,
    system_program: AccountView,
    state_rent: u64,
    l: Map<Seq<u8>, AccountState>,
)
    requires
        spec_create_state_account(program_id, signer, vault_state, vault, system_program, state_rent) is Ok,
    ensures
        ({
            let after = apply_actions(l, spec_create_state_account(program_id, signer, vault_state, vault, system_program, state_rent).unwrap().1);
            &&& after[vault_state.key@].owner == program_id@
            &&& after[vault_state.key@].data == zeros(SPACE as nat)
        }),
{
    let (b, p) = spec_create_state(program_id, signer, vault_state, vault, system_program, state_rent).unwrap();
    if vault_state.lamports == 0 {
        lemma_apply_one(l, p[0]);
        assert(p =~= seq![p[0]]);
    } else if p.len() == 2 {
        assert(p =~= seq![p[0], p[1]]);
        lemma_apply_two(l, p[0], p[1]);
    } else {
        assert(p =~= seq![p[0], p[1], p[2]]);
        lemma_apply_three(l, p[0], p[1], p[2]);
    }
}

/// The rest of `initialize` leaves the created state account owned by the
/// program and holding the state it records, whose bumps are the canonical
/// ones of the user's two addresses.
pub proof fn lemma_initialize_writes_state(
    program_id: [u8; 32],
    state_bump: u8,
    signer: AccountView,
    vault_state: AccountView,
    vault: AccountView,
    state_rent: u64,
    vault_rent: u64,
    l: Map<Seq<u8>, AccountState>,
)
    requires
        spec_initialize(program_id, state_bump, signer, vault_state, vault, state_rent, vault_rent) is Ok,
        agrees(l, vault_state),
        vault_state.data@.len() == SPACE,
    ensures
        ({
            let after = apply_actions(l, spec_initialize(program_id, state_bump, signer, vault_state, vault, state_rent, vault_rent).unwrap());
            let st = spec_initialize_accounts(program_id, state_bump, signer, vault_state, vault, state_rent).unwrap().1.state();
            &&& after[vault_state.key@].owner == program_id@
            &&& after[vault_state.key@].data == spec_serialize(st)
            &&& spec_find(spec_seeds(SeedTag::State, signer.key@), program_id@) == Some((vault_state.key@, st.state_bump))
            &&& spec_find(spec_seeds(SeedTag::Vault, vault_state.key@), program_id@) == Some((vault.key@, st.vault_bump))
        }),
{
    let p = spec_initialize(program_id, state_bump, signer, vault_state, vault, state_rent, vault_rent).unwrap();
    assert(p =~= seq![p[0], p[1]]);
    lemma_apply_two(l, p[0], p[1]);
    let st = spec_initialize_accounts(program_id, state_bump, signer, vault_state, vault, state_rent).unwrap().1.state();
    assert(spec_serialize(st) + vault_state.data@.skip(SPACE as int) =~= spec_serialize(st));
}

/// After both parts of `initialize`, performed in turn, the state account
/// is owned by the program and holds exactly the recorded state, with the
/// canonical bumps.
pub proof fn lemma_initialize_sets_up_state(
    program_id: [u8; 32],
    signer: AccountView,
    vault_state: AccountView,
    vault: AccountView,
    system_program: AccountView,
    state_rent: u64,
    created_state: AccountView,
    created_rent: u64,
    vault_rent: u64,
    l: Map<Seq<u8>, AccountState>,
)
    requires
        spec_create_state_account(program_id, signer, vault_state, vault, system_program, state_rent) is Ok,
        created_state.key == vault_state.key,
        agrees(apply_actions(l, spec_create_state_account(program_id, signer, vault_state, vault, system_program, state_rent).unwrap().1), created_state),
        spec_initialize(
            program_id,
            spec_create_state_account(program_id, signer, vault_state, vault, system_program, state_rent).unwrap().0,
            signer, created_state, vault, created_rent, vault_rent,
        ) is Ok,
    ensures
        ({
            let (b, creation) = spec_create_state_account(program_id, signer, vault_state, vault, system_program, state_rent).unwrap();
            let l1 = apply_actions(l, creation);
            let after = apply_actions(l1, spec_initialize(program_id, b, signer, created_state, vault, created_rent, vault_rent).unwrap());
            let st = spec_initialize_accounts(program_id, b, signer, created_state, vault, created_rent).unwrap().1.state();
            &&& after[vault_state.key@].owner == program_id@
            &&& after[vault_state.key@].data == spec_serialize(st)
            &&& spec_find(spec_seeds(SeedTag::State, signer.key@), program_id@) == Some((vault_state.key@, st.state_bump))
            &&& spec_find(spec_seeds(SeedTag::Vault, vault_state.key@), program_id@) == Some((vault.key@, st.vault_bump))
        }),
{
    let (b, creation) = spec_create_state_account(program_id, signer, vault_state, vault, system_program, state_rent).unwrap();
    lemma_create_state_creates(program_id, signer, vault_state, vault, system_program, state_rent, l);
    let l1 = apply_actions(l, creation);
    lemma_initialize_writes_state(program_id, b, signer, created_state, vault, created_rent, vault_rent, l1);
}


/// The state that the second part of `initialize` records.
pub open spec fn initialized_state(
    program_id: [u8; 32],
    state_bump: u8,
    signer: AccountView,
    vault_state: AccountView,
    vault: AccountView,
    state_rent: u64,
) -> VaultState {
    spec_initialize_accounts(program_id, state_bump, signer, vault_state, vault, state_rent).unwrap().1.state()
}

/// A vault that `initialize` set up passes the checks of `deposit`,
/// `withdraw` and, when the user is not the state account, `close`, once
/// the state account holds the state that `initialize` wrote and belongs to
/// the program: the recorded bumps are those that derive the user's two
/// addresses.
pub proof fn lemma_initialized_vault_accepts_payments(
    program_id: [u8; 32],
    signer: AccountView,
    vault_state: AccountView,
    vault: AccountView,
    system_program: AccountView,
    state_rent: u64,
    created_state: AccountView,
    created_rent: u64,
    vault_rent: u64,
    state_after: AccountView,
    amount: u64,
)
    requires
        program_id@ != spec_system_program_id(),
        spec_create_state_account(program_id, signer, vault_state, vault, system_program, state_rent) is Ok,
        created_state.key == vault_state.key,
        spec_initialize(
            program_id,
            spec_create_state_account(program_id, signer, vault_state, vault, system_program, state_rent).unwrap().0,
            signer, created_state, vault, created_rent, vault_rent,
        ) is Ok,
        state_after.key == vault_state.key,
        state_after.owner@ == program_id@,
        state_after.is_writable,
        state_after.data@ == spec_serialize(initialized_state(
            program_id,
            spec_create_state_account(program_id, signer, vault_state, vault, system_program, state_rent).unwrap().0,
            signer, created_state, vault, created_rent,
        )),
    ensures
        spec_deposit(program_id, signer, state_after, vault, system_program, amount) is Ok,
        spec_withdraw(program_id, signer, state_after, vault, system_program, amount) is Ok,
        signer.key@ != vault_state.key@ ==> spec_close(program_id, signer, state_after, vault, system_program) is Ok,
{
    let b = spec_create_state(program_id, signer, vault_state, vault, system_program, state_rent).unwrap().0;
    let st = initialized_state(program_id, b, signer, created_state, vault, created_rent);
    lemma_state_round_trip(st);
    assert(spec_account_state(program_id@, state_after) == Ok::<VaultState, VaultError>(st));
    lemma_found_address_derives(spec_seeds(SeedTag::State, signer.key@), program_id@, 255);
    lemma_found_address_derives(spec_seeds(SeedTag::Vault, vault_state.key@), program_id@, 255);
    assert(seeds_ok(program_id@, SeedTag::State, signer.key@, st.state_bump, state_after.key@));
    assert(seeds_ok(program_id@, SeedTag::Vault, state_after.key@, st.vault_bump, vault.key@));
}

/// The vault program's address is not the system program's.
pub proof fn lemma_id_not_system()
    ensures
        spec_id() != spec_system_program_id(),
{
    assert(spec_id()[0] != spec_system_program_id()[0]);
}

/// The life of a vault can start again. After `initialize` set up a vault
/// and `close` emptied it, `initialize` on the emptied state account plans
/// to create it anew, and once created, records the same canonical bumps and
/// leaves the state account owned by the program holding that state.
pub proof fn lemma_initialize_after_close(
    program_id: [u8; 32],
    signer: AccountView,
    system_program: AccountView,
    state_bump: u8,
    first_state: AccountView,
    first_vault: AccountView,
    first_rent: u64,
    first_vault_rent: u64,
    closing_state: AccountView,
    vault: AccountView,
    l: Map<Seq<u8>, AccountState>,
    emptied_state: AccountView,
    state_rent: u64,
    created_state: AccountView,
    created_rent: u64,
    vault_rent: u64,
)
    requires
        program_id@ == spec_id(),
        spec_initialize(program_id, state_bump, signer, first_state, first_vault, first_rent, first_vault_rent) is Ok,
        closing_state.key == first_state.key,
        vault.key == first_vault.key,
        spec_close(program_id, signer, closing_state, vault, system_program) is Ok,
        emptied_state.key == first_state.key,
        agrees(apply_actions(l, spec_close(program_id, signer, closing_state, vault, system_program).unwrap()), emptied_state),
        created_state.key == first_state.key,
        created_state.is_writable == closing_state.is_writable,
        agrees(apply_actions(
            apply_actions(l, spec_close(program_id, signer, closing_state, vault, system_program).unwrap()),
            seq![Action::CreateAccount {
                from: signer.key,
                to: emptied_state.key,
                lamports: state_rent,
                space: SPACE as u64,
                owner: program_id,
                seeds: PdaSeeds { tag: SeedTag::State, base: signer.key, bump: state_bump },
            }],
        ), created_state),
        created_rent <= state_rent,
    ensures
        ({
            let st = initialized_state(program_id, state_bump, signer, first_state, first_vault, first_rent);
            let lc = apply_actions(l, spec_close(program_id, signer, closing_state, vault, system_program).unwrap());
            let create = Action::CreateAccount {
                from: signer.key,
                to: emptied_state.key,
                lamports: state_rent,
                space: SPACE as u64,
                owner: program_id,
                seeds: PdaSeeds { tag: SeedTag::State, base: signer.key, bump: state_bump },
            };
            let plan = seq![
                Action::Transfer { from: signer.key, to: vault.key, amount: vault_rent, signer: None },
                Action::WriteState { account: created_state.key, state: st },
            ];
            let after = apply_actions(apply_actions(lc, seq![create]), plan);
            &&& spec_create_state_account(program_id, signer, emptied_state, vault, system_program, state_rent)
                == Ok::<(u8, Seq<Action>), VaultError>((state_bump, seq![create]))
            &&& spec_initialize(program_id, state_bump, signer, created_state, vault, created_rent, vault_rent)
                == Ok::<Seq<Action>, VaultError>(plan)
            &&& after[created_state.key@].owner == program_id@
            &&& after[created_state.key@].data == spec_serialize(st)
        }),
{
    lemma_id_not_system();
    let st = initialized_state(program_id, state_bump, signer, first_state, first_vault, first_rent);
    let pc = spec_close(program_id, signer, closing_state, vault, system_program).unwrap();
    assert(pc =~= seq![pc[0], pc[1]]);
    lemma_apply_two(l, pc[0], pc[1]);
    let lc = apply_actions(l, pc);
    let create = Action::CreateAccount {
        from: signer.key,
        to: emptied_state.key,
        lamports: state_rent,
        space: SPACE as u64,
        owner: program_id,
        seeds: PdaSeeds { tag: SeedTag::State, base: signer.key, bump: state_bump },
    };
    lemma_apply_one(lc, create);
    assert(spec_creation(program_id, signer.key, emptied_state, state_rent, state_bump) =~= seq![create]);
    assert(created_state.data@ =~= zeros(SPACE as nat));
    assert(spec_account_state_unchecked(program_id@, created_state) is Ok);
    let p = spec_initialize(program_id, state_bump, signer, created_state, vault, created_rent, vault_rent).unwrap();
    lemma_initialize_writes_state(program_id, state_bump, signer, created_state, vault, created_rent, vault_rent, apply_actions(lc, seq![create]));
}

/// `withdraw` signs only for the vault it draws from: its signer seeds
/// derive exactly the vault's address.
pub proof fn lemma_withdraw_signs_for_vault(
    program_id: [u8; 32],
    signer: AccountView,
    vault_state: AccountView,
    vault: AccountView,
    system_program: AccountView,
    amount: u64,
)
    requires
        spec_withdraw(program_id, signer, vault_state, vault, system_program, amount) is Ok,
    ensures
        spec_withdraw(program_id, signer, vault_state, vault, system_program, amount).unwrap()[0] matches
            Action::Transfer { from, signer: Some(seeds), .. }
            && from@ == vault.key@
            && spec_create(seeds.spec_signer_seeds(), program_id@) == Ok::<Seq<u8>, PdaError>(vault.key@),
{
}

/// `close` signs only for the vault it empties.
pub proof fn lemma_close_signs_for_vault(
    program_id: [u8; 32],
    signer: AccountView,
    vault_state: AccountView,
    vault: AccountView,
    system_program: AccountView,
)
    requires
        spec_close(program_id, signer, vault_state, vault, system_program) is Ok,
    ensures
        spec_close(program_id, signer, vault_state, vault, system_program).unwrap()[0] matches
            Action::Transfer { from, signer: Some(seeds), .. }
            && from@ == vault.key@
            && spec_create(seeds.spec_signer_seeds(), program_id@) == Ok::<Seq<u8>, PdaError>(vault.key@),
{
}

/// The user's accounts are admitted only when the state account is the
/// address that `"state"` and the user's address derive, and the vault the
/// one that `"vault"` and the state account derive, with the recorded bumps.
pub proof fn lemma_only_derived_accounts_admitted(
    program_id: [u8; 32],
    signer: AccountView,
    vault_state: AccountView,
    vault: AccountView,
    system_program: AccountView,
    closing: bool,
)
    requires
        spec_user_accounts(program_id, signer, vault_state, vault, system_program, closing) is Ok,
    ensures
        ({
            let st = spec_user_accounts(program_id, signer, vault_state, vault, system_program, closing).unwrap().state;
            &&& signer.is_signer
            &&& seeds_ok(program_id@, SeedTag::State, signer.key@, st.state_bump, vault_state.key@)
            &&& seeds_ok(program_id@, SeedTag::Vault, vault_state.key@, st.vault_bump, vault.key@)
            &&& spec_deserialize(vault_state.data@) == Ok::<VaultState, VaultError>(st)
            &&& vault_state.owner@ == program_id@
        }),
{
}

/// Without a program-owned state account holding a vault state, `deposit`,
/// `withdraw` and `close` are refused: never initialized, or closed since.
pub proof fn lemma_uninitialized_state_refused(
    program_id: [u8; 32],
    signer: AccountView,
    vault_state: AccountView,
    vault: AccountView,
    system_program: AccountView,
    amount: u64,
)
    requires
        vault_state.owner@ != program_id@ || spec_deserialize(vault_state.data@) is Err,
    ensures
        spec_deposit(program_id, signer, vault_state, vault, system_program, amount) is Err,
        spec_withdraw(program_id, signer, vault_state, vault, system_program, amount) is Err,
        spec_close(program_id, signer, vault_state, vault, system_program) is Err,
{
}

/// Withdrawing what was deposited, with the same accounts, leaves every
/// account as it was.
pub proof fn lemma_deposit_then_withdraw_restores(
    program_id: [u8; 32],
    signer: AccountView,
    vault_state: AccountView,
    vault: AccountView,
    system_program: AccountView,
    amount: u64,
    l: Map<Seq<u8>, AccountState>,
)
    requires
        spec_deposit(program_id, signer, vault_state, vault, system_program, amount) is Ok,
        l.dom().contains(signer.key@),
        l.dom().contains(vault.key@),
    ensures
        spec_withdraw(program_id, signer, vault_state, vault, system_program, amount) is Ok,
        apply_actions(
            apply_actions(l, spec_deposit(program_id, signer, vault_state, vault, system_program, amount).unwrap()),
            spec_withdraw(program_id, signer, vault_state, vault, system_program, amount).unwrap(),
        ) == l,
{
    let d = spec_deposit(program_id, signer, vault_state, vault, system_program, amount).unwrap();
    let w = spec_withdraw(program_id, signer, vault_state, vault, system_program, amount).unwrap();
    lemma_apply_one(l, d[0]);
    assert(d =~= seq![d[0]]);
    let mid = apply_action(l, d[0]);
    lemma_apply_one(mid, w[0]);
    assert(w =~= seq![w[0]]);
    assert(apply_action(mid, w[0]) =~= l);
}

/// `close` leaves the vault with no lamports, gives the user everything the
/// vault and the state account held, and leaves the state account with no
/// lamports and no data, owned by the system program. Where the user is the
/// vault, the vault's lamports come back to it.
pub proof fn lemma_close_empties_vault(
    program_id: [u8; 32],
    signer: AccountView,
    vault_state: AccountView,
    vault: AccountView,
    system_program: AccountView,
    l: Map<Seq<u8>, AccountState>,
)
    requires
        spec_close(program_id, signer, vault_state, vault, system_program) is Ok,
        vault_state.key@ != vault.key@,
        l.dom().contains(signer.key@),
        l.dom().contains(vault.key@),
        l.dom().contains(vault_state.key@),
        l[vault.key@].lamports == vault.lamports,
    ensures
        ({
            let after = apply_actions(l, spec_close(program_id, signer, vault_state, vault, system_program).unwrap());
            &&& signer.key@ != vault.key@ ==> after[vault.key@].lamports == 0
            &&& signer.key@ != vault.key@ ==> after[signer.key@].lamports
                == l[signer.key@].lamports + l[vault.key@].lamports + l[vault_state.key@].lamports
            &&& after[vault_state.key@].lamports == 0
            &&& after[vault_state.key@].owner == spec_system_program_id()
            &&& after[vault_state.key@].data.len() == 0
            &&& forall|k: Seq<u8>| k != signer.key@ && k != vault.key@ && k != vault_state.key@ && l.dom().contains(k) ==> after[k] == l[k]
        }),
{
    let p = spec_close(program_id, signer, vault_state, vault, system_program).unwrap();
    assert(p =~= seq![p[0], p[1]]);
    lemma_apply_two(l, p[0], p[1]);
}

/// The lamports that the distinct accounts among `a`, `b`, `c` hold together.
pub open spec fn sum_distinct(l: Map<Seq<u8>, AccountState>, a: Seq<u8>, b: Seq<u8>, c: Seq<u8>) -> int {
    l[a].lamports + (if b != a { l[b].lamports } else { 0 }) + (if c != a && c != b { l[c].lamports } else { 0 })
}

/// The action touches only accounts among `a`, `b`, `c`, and closes no
/// account into itself.
pub open spec fn moves_within(act: Action, a: Seq<u8>, b: Seq<u8>, c: Seq<u8>) -> bool {
    let within = |k: Seq<u8>| k == a || k == b || k == c;
    match act {
        Action::CreateAccount { from, to, .. } => within(from@) && within(to@),
        Action::Transfer { from, to, .. } => within(from@) && within(to@),
        Action::Allocate { account, .. } => within(account@),
        Action::Assign { account, .. } => within(account@),
        Action::WriteState { account, .. } => within(account@),
        Action::Close { account, destination } => account@ != destination@ && within(account@) && within(destination@),
    }
}

/// `after` holds as many lamports as `l` over the accounts `a`, `b`, `c`,
/// and every other account is as it was.
pub open spec fn conserved(l: Map<Seq<u8>, AccountState>, after: Map<Seq<u8>, AccountState>, a: Seq<u8>, b: Seq<u8>, c: Seq<u8>) -> bool {
    &&& after.dom() =~= l.dom()
    &&& sum_distinct(after, a, b, c) == sum_distinct(l, a, b, c)
    &&& forall|k: Seq<u8>| k != a && k != b && k != c && l.dom().contains(k) ==> after[k] == l[k]
}

proof fn lemma_actions_conserve(l: Map<Seq<u8>, AccountState>, acts: Seq<Action>, a: Seq<u8>, b: Seq<u8>, c: Seq<u8>)
    requires
        l.dom().contains(a),
        l.dom().contains(b),
        l.dom().contains(c),
        forall|i: int| 0 <= i < acts.len() ==> moves_within(#[trigger] acts[i], a, b, c),
    ensures
        conserved(l, apply_actions(l, acts), a, b, c),
    decreases acts.len(),
{
    if acts.len() == 0 {
    } else {
        let mid = apply_action(l, acts[0]);
        assert(moves_within(acts[0], a, b, c));
        assert(conserved(l, mid, a, b, c));
        assert forall|i: int| 0 <= i < acts.drop_first().len() implies moves_within(#[trigger] acts.drop_first()[i], a, b, c) by {
            assert(acts.drop_first()[i] == acts[i + 1]);
        }
        lemma_actions_conserve(mid, acts.drop_first(), a, b, c);
    }
}

/// Every instruction conserves lamports: what the user, the state account
/// and the vault hold together is unchanged, and no other account changes.
pub proof fn lemma_instructions_conserve_lamports(
    program_id: [u8; 32],
    signer: AccountView,
    vault_state: AccountView,
    vault: AccountView,
    system_program: AccountView,
    state_bump: u8,
    state_rent: u64,
    vault_rent: u64,
    amount: u64,
    l: Map<Seq<u8>, AccountState>,
)
    requires
        l.dom().contains(signer.key@),
        l.dom().contains(vault_state.key@),
        l.dom().contains(vault.key@),
    ensures
        spec_create_state_account(program_id, signer, vault_state, vault, system_program, state_rent) matches Ok((_, p))
            ==> conserved(l, apply_actions(l, p), signer.key@, vault_state.key@, vault.key@),
        spec_initialize(program_id, state_bump, signer, vault_state, vault, state_rent, vault_rent) matches Ok(p)
            ==> conserved(l, apply_actions(l, p), signer.key@, vault_state.key@, vault.key@),
        spec_deposit(program_id, signer, vault_state, vault, system_program, amount) matches Ok(p)
            ==> conserved(l, apply_actions(l, p), signer.key@, vault_state.key@, vault.key@),
        spec_withdraw(program_id, signer, vault_state, vault, system_program, amount) matches Ok(p)
            ==> conserved(l, apply_actions(l, p), signer.key@, vault_state.key@, vault.key@),
        spec_close(program_id, signer, vault_state, vault, system_program) matches Ok(p)
            ==> conserved(l, apply_actions(l, p), signer.key@, vault_state.key@, vault.key@),
{
    let (s, t, v) = (signer.key@, vault_state.key@, vault.key@);
    if let Ok((_, p)) = spec_create_state_account(program_id, signer, vault_state, vault, system_program, state_rent) {
        assert forall|i: int| 0 <= i < p.len() implies moves_within(#[trigger] p[i], s, t, v) by {}
        lemma_actions_conserve(l, p, s, t, v);
    }
    if let Ok(p) = spec_initialize(program_id, state_bump, signer, vault_state, vault, state_rent, vault_rent) {
        assert forall|i: int| 0 <= i < p.len() implies moves_within(#[trigger] p[i], s, t, v) by {}
        lemma_actions_conserve(l, p, s, t, v);
    }
    if let Ok(p) = spec_deposit(program_id, signer, vault_state, vault, system_program, amount) {
        assert forall|i: int| 0 <= i < p.len() implies moves_within(#[trigger] p[i], s, t, v) by {}
        lemma_actions_conserve(l, p, s, t, v);
    }
    if let Ok(p) = spec_withdraw(program_id, signer, vault_state, vault, system_program, amount) {
        assert forall|i: int| 0 <= i < p.len() implies moves_within(#[trigger] p[i], s, t, v) by {}
        lemma_actions_conserve(l, p, s, t, v);
    }
    if let Ok(p) = spec_close(program_id, signer, vault_state, vault, system_program) {
        assert forall|i: int| 0 <= i < p.len() implies moves_within(#[trigger] p[i], s, t, v) by {}
        lemma_actions_conserve(l, p, s, t, v);
    }
}

/// The handlers of `deposit` and `withdraw` move lamports only between the
/// user and the vault, their sum unchanged, and touch no other account nor
/// the recorded state; withdrawing what was deposited restores every account.
pub proof fn lemma_payment_handlers(p: Payment, amount: u64, l: Map<Seq<u8>, AccountState>)
    requires
        l.dom().contains(p.signer@),
        l.dom().contains(p.vault@),
    ensures
        conserved(l, apply_action(l, p.spec_deposit_action(amount)), p.signer@, p.vault@, p.vault@),
        conserved(l, apply_action(l, p.spec_withdraw_action(amount)), p.signer@, p.vault@, p.vault@),
        apply_action(apply_action(l, p.spec_deposit_action(amount)), p.spec_withdraw_action(amount)) == l,
{
    assert(apply_action(apply_action(l, p.spec_deposit_action(amount)), p.spec_withdraw_action(amount)) =~= l);
}

/// The handler of `close` moves the vault's lamports to the user, their sum
/// unchanged, and touches no other account; the vault is then empty unless
/// the user is the vault, whose lamports then come back to it; and calling
/// the handler again on the vault as it is then changes nothing.
pub proof fn lemma_close_handler(c: Close, l: Map<Seq<u8>, AccountState>)
    requires
        l.dom().contains(c.signer@),
        l.dom().contains(c.vault@),
        l[c.vault@].lamports == c.vault_lamports,
    ensures
        ({
            let after = apply_action(l, c.spec_close_action());
            let again = Close { vault_lamports: after[c.vault@].lamports as u64, ..c };
            &&& conserved(l, after, c.signer@, c.vault@, c.vault@)
            &&& c.signer@ != c.vault@ ==> after[c.vault@].lamports == 0
            &&& c.signer@ == c.vault@ ==> after == l
            &&& apply_action(after, again.spec_close_action()) == after
        }),
{
    let after = apply_action(l, c.spec_close_action());
    assert(apply_action(after, (Close { vault_lamports: after[c.vault@].lamports as u64, ..c }).spec_close_action()) =~= after);
}

/// The handler of `initialize` moves its rent from the user to the vault,
/// their sum unchanged, touches no other account, and records exactly the
/// bumps it was given.
pub proof fn lemma_initialize_handler(i: Initialize, bumps: InitializeBumps, rent_exempt: u64, l: Map<Seq<u8>, AccountState>)
    requires
        l.dom().contains(i.signer@),
        l.dom().contains(i.vault@),
    ensures
        conserved(l, apply_action(l, i.spec_fund_action(rent_exempt)), i.signer@, i.vault@, i.vault@),
        bumps.state().state_bump == bumps.vault_state,
        bumps.state().vault_bump == bumps.vault,
{
}

/// `initialize` on a state account that already exists, holding data or
/// owned by another program, fails: the system program refuses to allocate
/// it.
pub proof fn lemma_reinitialize_existing_refused(
    program_id: [u8; 32],
    signer: AccountView,
    vault_state: AccountView,
    vault: AccountView,
    system_program: AccountView,
    state_rent: u64,
    l: Map<Seq<u8>, AccountState>,
)
    requires
        agrees(l, vault_state),
        vault_state.lamports != 0,
        vault_state.data@.len() != 0 || vault_state.owner@ != spec_system_program_id(),
        spec_create_state_account(program_id, signer, vault_state, vault, system_program, state_rent) is Ok,
    ensures
        run_actions(l, spec_create_state_account(program_id, signer, vault_state, vault, system_program, state_rent).unwrap().1) is None,
{
    let (b, p) = spec_create_state(program_id, signer, vault_state, vault, system_program, state_rent).unwrap();
    let k = vault_state.key@;
    let seeds = PdaSeeds { tag: SeedTag::State, base: signer.key, bump: b };
    let alloc = Action::Allocate { account: vault_state.key, space: SPACE as u64, seeds: seeds };
    let assign = Action::Assign { account: vault_state.key, owner: program_id, seeds: seeds };
    let floor: u64 = if state_rent == 0 { 1 } else { state_rent };
    if floor > vault_state.lamports {
        let t = Action::Transfer { from: signer.key, to: vault_state.key, amount: (floor - vault_state.lamports) as u64, signer: None };
        assert(p =~= seq![t, alloc, assign]);
        assert(p.drop_first() =~= seq![alloc, assign]);
        if system_allows(l, t) {
            let l1 = apply_action(l, t);
            assert(l1[k].data == l[k].data && l1[k].owner == l[k].owner);
            assert(!system_allows(l1, alloc));
            assert(run_actions(l1, seq![alloc, assign]) is None);
        }
    } else {
        assert(p =~= seq![alloc, assign]);
        assert(!system_allows(l, alloc));
    }
}

} // verus!
