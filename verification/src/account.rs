//! The plain values of an account that the vault program reads.

use vstd::prelude::*;

verus! {

/// The system program's address: 32 zero bytes.
pub open spec fn spec_system_program_id() -> Seq<u8> {
    Seq::new(32, |i: int| 0u8)
}

/// The system program's address.
pub fn system_program_id() -> (id: [u8; 32])
    ensures
        id@ == spec_system_program_id(),
{
    let id: [u8; 32] = [0u8; 32];
    assert(id@ =~= spec_system_program_id());
    id
}

/// An account as an instruction sees it.
#[derive(Clone, Debug, PartialEq, Eq)]
pub struct AccountView {
    pub key: [u8; 32],
    pub owner: [u8; 32],
    pub lamports: u64,
    pub data: Vec<u8>,
    pub is_signer: bool,
    pub is_writable: bool,
    pub executable: bool,
}

/// Whether two addresses are the same.
pub fn keys_eq(a: &[u8; 32], b: &[u8; 32]) -> (r: bool)
    ensures
        r == (a@ == b@),
{
    let mut i: usize = 0;
    while i < 32
        invariant
            i <= 32,
            a@.len() == 32,
            b@.len() == 32,
            forall|j: int| 0 <= j < i ==> a@[j] == b@[j],
        decreases 32 - i,
    {
        if a[i] != b[i] {
            assert(a@[i as int] != b@[i as int]);
            return false;
        }
        i = i + 1;
    }
    assert(a@ =~= b@);
    true
}

} // verus!
