//! The vault state account: the two bumps, behind anchor's discriminator.

use vstd::prelude::*;
use crate::error::VaultError;

verus! {

/// The first 8 bytes of sha256("account:VaultState").
pub open spec fn spec_discriminator() -> Seq<u8> {
    seq![228u8, 196u8, 82u8, 165u8, 98u8, 210u8, 235u8, 152u8]
}

/// The bytes that mark an account as holding a `VaultState`.
pub fn discriminator() -> (d: [u8; 8])
    ensures
        d@ == spec_discriminator(),
{
    let d: [u8; 8] = [228u8, 196u8, 82u8, 165u8, 98u8, 210u8, 235u8, 152u8];
    assert(d@ =~= spec_discriminator());
    d
}

/// The bytes a `VaultState` takes, the discriminator not counted.
pub const INIT_SPACE: usize = 2;

/// The size of the state account: discriminator and state.
pub const SPACE: usize = 10;

/// The bumps of a user's two addresses.
#[derive(Clone, Copy, Debug, PartialEq, Eq, Structural)]
pub struct VaultState {
    pub vault_bump: u8,
    pub state_bump: u8,
}

/// The account data that holds a state.
pub open spec fn spec_serialize(s: VaultState) -> Seq<u8> {
    spec_discriminator() + seq![s.vault_bump, s.state_bump]
}

/// The state after the discriminator, whatever the discriminator is; bytes
/// after the state are ignored.
pub open spec fn spec_deserialize_unchecked(data: Seq<u8>) -> Result<VaultState, VaultError> {
    if data.len() < SPACE {
        Err(VaultError::AccountDidNotDeserialize)
    } else {
        Ok(VaultState { vault_bump: data[8], state_bump: data[9] })
    }
}

/// The state an account's data holds, checking the discriminator first.
pub open spec fn spec_deserialize(data: Seq<u8>) -> Result<VaultState, VaultError> {
    if data.len() < 8 {
        Err(VaultError::AccountDiscriminatorNotFound)
    } else if data.take(8) != spec_discriminator() {
        Err(VaultError::AccountDiscriminatorMismatch)
    } else {
        spec_deserialize_unchecked(data)
    }
}

impl VaultState {
    /// The account data that holds this state.
    pub fn try_serialize(&self) -> (r: Vec<u8>)
        ensures
            r@ == spec_serialize(*self),
    {
        let d = discriminator();
        let mut r: Vec<u8> = Vec::new();
        let mut i: usize = 0;
        while i < 8
            invariant
                i <= 8,
                d@ == spec_discriminator(),
                r@ =~= d@.take(i as int),
            decreases 8 - i,
        {
            r.push(d[i]);
            i = i + 1;
        }
        r.push(self.vault_bump);
        r.push(self.state_bump);
        assert(r@ =~= spec_serialize(*self));
        r
    }

    /// The state that account data holds.
    pub fn try_deserialize(data: &[u8]) -> (r: Result<VaultState, VaultError>)
        ensures
            r == spec_deserialize(data@),
    {
        if data.len() < 8 {
            return Err(VaultError::AccountDiscriminatorNotFound);
        }
        let d = discriminator();
        let mut i: usize = 0;
        while i < 8
            invariant
                i <= 8,
                data@.len() >= 8,
                d@ == spec_discriminator(),
                forall|j: int| 0 <= j < i ==> data@[j] == d@[j],
            decreases 8 - i,
        {
            if data[i] != d[i] {
                assert(data@.take(8)[i as int] != spec_discriminator()[i as int]);
                return Err(VaultError::AccountDiscriminatorMismatch);
            }
            i = i + 1;
        }
        assert(data@.take(8) =~= spec_discriminator());
        Self::try_deserialize_unchecked(data)
    }

    /// The state after the first 8 bytes of account data.
    pub fn try_deserialize_unchecked(data: &[u8]) -> (r: Result<VaultState, VaultError>)
        requires
            data@.len() >= 8,
        ensures
            r == spec_deserialize_unchecked(data@),
    {
        if data.len() < SPACE {
            Err(VaultError::AccountDidNotDeserialize)
        } else {
            Ok(VaultState { vault_bump: data[8], state_bump: data[9] })
        }
    }
}

} // verus!
