//! What each instruction does, stated over its inputs: who pays whom, and
//! which seeds, byte by byte, derive the accounts it admits and signs for.

use vstd::prelude::*;
use crate::account::AccountView;
use crate::actions::{Action, AccountState, PdaSeeds, apply_actions};
use crate::error::VaultError;
use crate::instructions::spec_user_accounts;
use crate::laws::{lemma_apply_one, lemma_found_address_derives};
use crate::pda::{PdaError, SeedTag, spec_create, spec_find, spec_seeds, with_bump};
use crate::state::{VaultState, spec_deserialize};
use crate::vault::{spec_create_state_account, spec_initialize, spec_deposit, spec_withdraw, spec_close};

verus! {

/// The ASCII bytes of `"state"`.
pub open spec fn state_literal() -> Seq<u8> {
    seq![0x73u8, 0x74u8, 0x61u8, 0x74u8, 0x65u8]
}

/// The ASCII bytes of `"vault"`.
pub open spec fn vault_literal() -> Seq<u8> {
    seq![0x76u8, 0x61u8, 0x75u8, 0x6cu8, 0x74u8]
}

/// The seeds `[b"state", key, [bump]]`, the key's bytes in their order.
pub open spec fn state_seeds(key: Seq<u8>, bump: u8) -> Seq<Seq<u8>> {
    seq![state_literal(), key, seq![bump]]
}

/// The seeds `[b"vault", key, [bump]]`, the key's bytes in their order.
pub open spec fn vault_seeds(key: Seq<u8>, bump: u8) -> Seq<Seq<u8>> {
    seq![vault_literal(), key, seq![bump]]
}

/// A scheme's seeds are its tag's bytes followed by the base address,
/// every byte in its place; with the bump they are the three seeds
/// `[tag, base, [bump]]`.
pub proof fn lemma_seed_layout(tag: SeedTag, base: Seq<u8>, bump: u8)
    ensures
        spec_seeds(tag, base).len() == 2,
        spec_seeds(tag, base)[1].len() == base.len(),
        forall|i: int| 0 <= i < base.len() ==> #[trigger] spec_seeds(tag, base)[1][i] == base[i],
        tag == SeedTag::State ==> with_bump(spec_seeds(tag, base), bump) == state_seeds(base, bump),
        tag == SeedTag::Vault ==> with_bump(spec_seeds(tag, base), bump) == vault_seeds(base, bump),
{
    assert(with_bump(spec_seeds(tag, base), bump) =~= seq![spec_seeds(tag, base)[0], base, seq![bump]]);
    assert(spec_seeds(SeedTag::State, base)[0] =~= state_literal());
    assert(spec_seeds(SeedTag::Vault, base)[0] =~= vault_literal());
}

/// The seeds with which the program signs are `[tag, base, [bump]]`, the
/// base's bytes in their order.
pub proof fn lemma_signer_seeds_layout(s: PdaSeeds)
    ensures
        s.tag == SeedTag::State ==> s.spec_signer_seeds() == state_seeds(s.base@, s.bump),
        s.tag == SeedTag::Vault ==> s.spec_signer_seeds() == vault_seeds(s.base@, s.bump),
{
    lemma_seed_layout(s.tag, s.base@, s.bump);
}

/// Where the first part of `initialize` succeeds, the state account is the
/// canonical address that `[b"state", user, [bump]]` derives, and every
/// action that creates it is signed with exactly those seeds, which derive
/// the account they act on; a `create_account` is paid by the user.
pub proof fn lemma_create_state_derives_state_account(
    program_id: [u8; 32],
    signer: AccountView,
    vault_state: AccountView,
    vault: AccountView,
    system_program: AccountView,
    state_rent: u64,
)
    requires
        spec_create_state_account(program_id, signer, vault_state, vault, system_program, state_rent) is Ok,
    ensures
        ({
            let (b, p) = spec_create_state_account(program_id, signer, vault_state, vault, system_program, state_rent).unwrap();
            &&& spec_create(state_seeds(signer.key@, b), program_id@) == Ok::<Seq<u8>, PdaError>(vault_state.key@)
            &&& spec_find(seq![state_literal(), signer.key@], program_id@) == Some((vault_state.key@, b))
            &&& forall|i: int| 0 <= i < p.len() ==> match #[trigger] p[i] {
                Action::CreateAccount { from, to, seeds, .. } => from@ == signer.key@ && to@ == vault_state.key@
                    && seeds.spec_signer_seeds() == state_seeds(signer.key@, b)
                    && spec_create(seeds.spec_signer_seeds(), program_id@) == Ok::<Seq<u8>, PdaError>(to@),
                Action::Transfer { from, to, signer: s, .. } => from@ == signer.key@ && to@ == vault_state.key@ && s is None,
                Action::Allocate { account, seeds, .. } => account@ == vault_state.key@
                    && spec_create(seeds.spec_signer_seeds(), program_id@) == Ok::<Seq<u8>, PdaError>(account@),
                Action::Assign { account, owner, seeds } => account@ == vault_state.key@ && owner@ == program_id@
                    && spec_create(seeds.spec_signer_seeds(), program_id@) == Ok::<Seq<u8>, PdaError>(account@),
                _ => false,
            }
        }),
{
    let (b, p) = spec_create_state_account(program_id, signer, vault_state, vault, system_program, state_rent).unwrap();
    lemma_seed_layout(SeedTag::State, signer.key@, b);
    assert(spec_seeds(SeedTag::State, signer.key@) =~= seq![state_literal(), signer.key@]);
    lemma_found_address_derives(spec_seeds(SeedTag::State, signer.key@), program_id@, 255);
    let s = PdaSeeds { tag: SeedTag::State, base: signer.key, bump: b };
    lemma_signer_seeds_layout(s);
}

/// Where the rest of `initialize` succeeds, the state account and the vault
/// are the canonical addresses of `[b"state", user]` and `[b"vault", state
/// account]`; the user pays `vault_rent` into the vault, and the state
/// account records both canonical bumps.
pub proof fn lemma_initialize_funds_vault(
    program_id: [u8; 32],
    state_bump: u8,
    signer: AccountView,
    vault_state: AccountView,
    vault: AccountView,
    state_rent: u64,
    vault_rent: u64,
)
    requires
        spec_initialize(program_id, state_bump, signer, vault_state, vault, state_rent, vault_rent) is Ok,
    ensures
        ({
            let p = spec_initialize(program_id, state_bump, signer, vault_state, vault, state_rent, vault_rent).unwrap();
            &&& spec_find(seq![state_literal(), signer.key@], program_id@) == Some((vault_state.key@, state_bump))
            &&& p.len() == 2
            &&& p[0] matches Action::Transfer { from, to, amount, signer: s }
                && from@ == signer.key@ && to@ == vault.key@ && amount == vault_rent && s is None
            &&& p[1] matches Action::WriteState { account, state }
                && account@ == vault_state.key@
                && state.state_bump == state_bump
                && spec_find(seq![vault_literal(), vault_state.key@], program_id@) == Some((vault.key@, state.vault_bump))
                && spec_create(vault_seeds(vault_state.key@, state.vault_bump), program_id@) == Ok::<Seq<u8>, PdaError>(vault.key@)
                && spec_create(state_seeds(signer.key@, state.state_bump), program_id@) == Ok::<Seq<u8>, PdaError>(vault_state.key@)
        }),
{
    assert(spec_seeds(SeedTag::State, signer.key@) =~= seq![state_literal(), signer.key@]);
    assert(spec_seeds(SeedTag::Vault, vault_state.key@) =~= seq![vault_literal(), vault_state.key@]);
    lemma_found_address_derives(spec_seeds(SeedTag::State, signer.key@), program_id@, 255);
    lemma_found_address_derives(spec_seeds(SeedTag::Vault, vault_state.key@), program_id@, 255);
    let p = spec_initialize(program_id, state_bump, signer, vault_state, vault, state_rent, vault_rent).unwrap();
    if let Action::WriteState { state, .. } = p[1] {
        lemma_seed_layout(SeedTag::State, signer.key@, state.state_bump);
        lemma_seed_layout(SeedTag::Vault, vault_state.key@, state.vault_bump);
    }
}

/// Where the user's accounts are admitted, the state account holds a vault
/// state whose bumps derive, from `[b"state", user, [state_bump]]`, the state
/// account and, from `[b"vault", state account, [vault_bump]]`, the vault.
pub proof fn lemma_admitted_accounts_derive(
    program_id: [u8; 32],
    signer: AccountView,
    vault_state: AccountView,
    vault: AccountView,
    system_program: AccountView,
    closing: bool,
)
    requires
        spec_user_accounts(program_id, signer, vault_state, vault, system_program, closing) is Ok,
    ensures
        spec_deserialize(vault_state.data@) is Ok,
        ({
            let st = spec_deserialize(vault_state.data@).unwrap();
            let p = spec_user_accounts(program_id, signer, vault_state, vault, system_program, closing).unwrap();
            &&& p.signer@ == signer.key@ && p.vault@ == vault.key@ && p.vault_state@ == vault_state.key@ && p.state == st
            &&& spec_create(state_seeds(signer.key@, st.state_bump), program_id@) == Ok::<Seq<u8>, PdaError>(vault_state.key@)
            &&& spec_create(vault_seeds(vault_state.key@, st.vault_bump), program_id@) == Ok::<Seq<u8>, PdaError>(vault.key@)
        }),
{
    let st = spec_deserialize(vault_state.data@).unwrap();
    lemma_seed_layout(SeedTag::State, signer.key@, st.state_bump);
    lemma_seed_layout(SeedTag::Vault, vault_state.key@, st.vault_bump);
}

/// A deposit is paid by the user into the vault, the user signing: after
/// it, where the two differ, the user holds `amount` lamports fewer and the
/// vault `amount` more.
pub proof fn lemma_deposit_pays_into_vault(
    program_id: [u8; 32],
    signer: AccountView,
    vault_state: AccountView,
    vault: AccountView,
    system_program: AccountView,
    amount: u64,
    l: Map<Seq<u8>, AccountState>,
)
    requires
        spec_deposit(program_id, signer, vault_state, vault, system_program, amount) is Ok,
    ensures
        ({
            let p = spec_deposit(program_id, signer, vault_state, vault, system_program, amount).unwrap();
            let after = apply_actions(l, p);
            &&& p.len() == 1
            &&& p[0] matches Action::Transfer { from, to, amount: a, signer: s }
                && from@ == signer.key@ && to@ == vault.key@ && a == amount && s is None
            &&& signer.key@ != vault.key@ ==> after[signer.key@].lamports == l[signer.key@].lamports - amount
            &&& signer.key@ != vault.key@ ==> after[vault.key@].lamports == l[vault.key@].lamports + amount
        }),
{
    let p = spec_deposit(program_id, signer, vault_state, vault, system_program, amount).unwrap();
    assert(p =~= seq![p[0]]);
    lemma_apply_one(l, p[0]);
}

/// A withdrawal is paid from the vault to the user, the program signing for
/// the vault with `[b"vault", state account, [vault_bump]]`, which derive the
/// vault: after it, where the two differ, the user holds `amount` lamports
/// more and the vault `amount` fewer.
pub proof fn lemma_withdraw_pays_user(
    program_id: [u8; 32],
    signer: AccountView,
    vault_state: AccountView,
    vault: AccountView,
    system_program: AccountView,
    amount: u64,
    l: Map<Seq<u8>, AccountState>,
)
    requires
        spec_withdraw(program_id, signer, vault_state, vault, system_program, amount) is Ok,
    ensures
        ({
            let p = spec_withdraw(program_id, signer, vault_state, vault, system_program, amount).unwrap();
            let after = apply_actions(l, p);
            &&& p.len() == 1
            &&& p[0] matches Action::Transfer { from, to, amount: a, signer: Some(s) }
                && from@ == vault.key@ && to@ == signer.key@ && a == amount
                && s.spec_signer_seeds() == vault_seeds(vault_state.key@, spec_deserialize(vault_state.data@).unwrap().vault_bump)
                && spec_create(s.spec_signer_seeds(), program_id@) == Ok::<Seq<u8>, PdaError>(vault.key@)
            &&& signer.key@ != vault.key@ ==> after[signer.key@].lamports == l[signer.key@].lamports + amount
            &&& signer.key@ != vault.key@ ==> after[vault.key@].lamports == l[vault.key@].lamports - amount
        }),
{
    let p = spec_withdraw(program_id, signer, vault_state, vault, system_program, amount).unwrap();
    assert(p =~= seq![p[0]]);
    lemma_apply_one(l, p[0]);
    lemma_admitted_accounts_derive(program_id, signer, vault_state, vault, system_program, false);
    if let Action::Transfer { signer: Some(s), .. } = p[0] {
        lemma_signer_seeds_layout(s);
    }
}

/// `close` moves every lamport the vault holds to the user, the program
/// signing for the vault with the seeds that derive it, then closes the
/// state account into the user.
pub proof fn lemma_close_pays_user(
    program_id: [u8; 32],
    signer: AccountView,
    vault_state: AccountView,
    vault: AccountView,
    system_program: AccountView,
)
    requires
        spec_close(program_id, signer, vault_state, vault, system_program) is Ok,
    ensures
        ({
            let p = spec_close(program_id, signer, vault_state, vault, system_program).unwrap();
            &&& p.len() == 2
            &&& p[0] matches Action::Transfer { from, to, amount, signer: Some(s) }
                && from@ == vault.key@ && to@ == signer.key@ && amount == vault.lamports
                && s.spec_signer_seeds() == vault_seeds(vault_state.key@, spec_deserialize(vault_state.data@).unwrap().vault_bump)
                && spec_create(s.spec_signer_seeds(), program_id@) == Ok::<Seq<u8>, PdaError>(vault.key@)
            &&& p[1] matches Action::Close { account, destination }
                && account@ == vault_state.key@ && destination@ == signer.key@ && account@ != destination@
        }),
{
    let p = spec_close(program_id, signer, vault_state, vault, system_program).unwrap();
    lemma_admitted_accounts_derive(program_id, signer, vault_state, vault, system_program, true);
    if let Action::Transfer { signer: Some(s), .. } = p[0] {
        lemma_signer_seeds_layout(s);
    }
}

} // verus!
