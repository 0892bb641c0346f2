//! What an instruction of the vault program has the runtime do, once every
//! check has passed, and what that does to the accounts' lamports.

use vstd::prelude::*;
use crate::pda::{SeedTag, spec_seeds, with_bump, seeds_with_bump};
use crate::state::{VaultState, SPACE, spec_serialize};
use crate::account::spec_system_program_id;

verus! {

/// The seeds with which the program signs for one of its addresses.
#[derive(Clone, Copy, Debug, PartialEq, Eq)]
pub struct PdaSeeds {
    pub tag: SeedTag,
    pub base: [u8; 32],
    pub bump: u8,
}

impl PdaSeeds {
    pub open spec fn spec_signer_seeds(self) -> Seq<Seq<u8>> {
        with_bump(spec_seeds(self.tag, self.base@), self.bump)
    }

    /// The seeds as byte strings, `[tag, base, [bump]]`.
    pub fn to_vec(&self) -> (r: Vec<Vec<u8>>)
        ensures
            r.deep_view() =~~= self.spec_signer_seeds(),
    {
        seeds_with_bump(self.tag, &self.base, self.bump)
    }
}

/// A step that the runtime performs for the program, in order.
#[derive(Clone, Copy, Debug, PartialEq, Eq)]
pub enum Action {
    /// A system program `create_account`, funded by `from`; the program signs
    /// for `to` with `seeds`.
    CreateAccount { from: [u8; 32], to: [u8; 32], lamports: u64, space: u64, owner: [u8; 32], seeds: PdaSeeds },
    /// A system program `transfer`; `signer` is the program's signature for
    /// `from` when `from` is one of its addresses.
    Transfer { from: [u8; 32], to: [u8; 32], amount: u64, signer: Option<PdaSeeds> },
    /// A system program `allocate`; the program signs for `account` with `seeds`.
    Allocate { account: [u8; 32], space: u64, seeds: PdaSeeds },
    /// A system program `assign`; the program signs for `account` with `seeds`.
    Assign { account: [u8; 32], owner: [u8; 32], seeds: PdaSeeds },
    /// Write the serialized state at the start of the account's data.
    WriteState { account: [u8; 32], state: VaultState },
    /// Move all the account's lamports to `destination`, give it back to the
    /// system program and empty its data.
    Close { account: [u8; 32], destination: [u8; 32] },
}

/// An instruction's outcome, its actions taken as a sequence.
pub open spec fn plan_view(r: Result<Vec<Action>, crate::error::VaultError>) -> Result<Seq<Action>, crate::error::VaultError> {
    match r {
        Ok(actions) => Ok(actions@),
        Err(e) => Err(e),
    }
}

/// What an account holds, as the runtime keeps it.
pub struct AccountState {
    pub lamports: int,
    pub owner: Seq<u8>,
    pub data: Seq<u8>,
}

/// `n` zero bytes.
pub open spec fn zeros(n: nat) -> Seq<u8> {
    Seq::new(n, |i: int| 0u8)
}

/// The account with other lamports.
pub open spec fn with_lamports(a: AccountState, lamports: int) -> AccountState {
    AccountState { lamports: lamports, owner: a.owner, data: a.data }
}

/// Lamports move from `from` to `to`; an account that pays itself keeps
/// what it holds.
pub open spec fn move_lamports(l: Map<Seq<u8>, AccountState>, from: Seq<u8>, to: Seq<u8>, amount: int) -> Map<Seq<u8>, AccountState> {
    if from == to {
        l
    } else {
        let l1 = l.insert(from, with_lamports(l[from], l[from].lamports - amount));
        l1.insert(to, with_lamports(l1[to], l1[to].lamports + amount))
    }
}

/// Every account after one action, when the runtime performs it.
pub open spec fn apply_action(l: Map<Seq<u8>, AccountState>, a: Action) -> Map<Seq<u8>, AccountState> {
    match a {
        Action::CreateAccount { from, to, lamports, space, owner, .. } => {
            let m = move_lamports(l, from@, to@, lamports as int);
            m.insert(to@, AccountState { lamports: m[to@].lamports, owner: owner@, data: zeros(space as nat) })
        },
        Action::Transfer { from, to, amount, .. } => move_lamports(l, from@, to@, amount as int),
        Action::Allocate { account, space, .. } =>
            l.insert(account@, AccountState { lamports: l[account@].lamports, owner: l[account@].owner, data: zeros(space as nat) }),
        Action::Assign { account, owner, .. } =>
            l.insert(account@, AccountState { lamports: l[account@].lamports, owner: owner@, data: l[account@].data }),
        Action::WriteState { account, state } => {
            let d = l[account@].data;
            l.insert(account@, AccountState {
                lamports: l[account@].lamports,
                owner: l[account@].owner,
                data: if d.len() >= SPACE { spec_serialize(state) + d.skip(SPACE as int) } else { d },
            })
        },
        Action::Close { account, destination } => {
            let l1 = l.insert(destination@, with_lamports(l[destination@], l[destination@].lamports + l[account@].lamports));
            l1.insert(account@, AccountState { lamports: 0, owner: spec_system_program_id(), data: Seq::empty() })
        },
    }
}

/// Every account after a list of actions, all performed.
pub open spec fn apply_actions(l: Map<Seq<u8>, AccountState>, actions: Seq<Action>) -> Map<Seq<u8>, AccountState>
    decreases actions.len(),
{
    if actions.len() == 0 {
        l
    } else {
        apply_actions(apply_action(l, actions[0]), actions.drop_first())
    }
}

/// The refusals of the system program that the laws rely on: it allocates
/// only an account it owns that holds no data, it creates only an account
/// that holds nothing, and it moves only lamports that the payer has.
pub open spec fn system_allows(l: Map<Seq<u8>, AccountState>, a: Action) -> bool {
    match a {
        Action::CreateAccount { from, to, lamports, .. } =>
            l[to@].lamports == 0 && l[to@].data.len() == 0 && l[from@].lamports >= lamports,
        Action::Transfer { from, amount, .. } => l[from@].lamports >= amount,
        Action::Allocate { account, .. } => l[account@].data.len() == 0 && l[account@].owner == spec_system_program_id(),
        _ => true,
    }
}

/// Every account after a list of actions, or `None` where the system
/// program refuses one of them and the instruction fails.
pub open spec fn run_actions(l: Map<Seq<u8>, AccountState>, actions: Seq<Action>) -> Option<Map<Seq<u8>, AccountState>>
    decreases actions.len(),
{
    if actions.len() == 0 {
        Some(l)
    } else if !system_allows(l, actions[0]) {
        None
    } else {
        run_actions(apply_action(l, actions[0]), actions.drop_first())
    }
}

} // verus!
