//! Program-derived addresses: the seed schemes of the vault program and the
//! derivation itself, which solana's `Pubkey` performs.

use vstd::prelude::*;
use anchor_lang::prelude::Pubkey;
use anchor_lang::solana_program::pubkey::PubkeyError;

verus! {

/// At most this many seeds, the bump seed included, go into a derivation.
pub const MAX_SEEDS: usize = 16;

/// No seed may be longer than this many bytes.
pub const MAX_SEED_LEN: usize = 32;

/// Why a derivation produced no address.
#[derive(Clone, Copy, Debug, PartialEq, Eq, Structural)]
pub enum PdaError {
    /// Too many seeds, or a seed longer than `MAX_SEED_LEN`.
    MaxSeedLengthExceeded,
    /// The hash of the seeds lies on the ed25519 curve.
    InvalidSeeds,
    /// The owner ends in the derivation marker.
    IllegalOwner,
}

/// The address that sha256(seeds, program id, marker) names when it lies off
/// the ed25519 curve, and `None` when it lies on it.
pub uninterp spec fn derived_address(seeds: Seq<Seq<u8>>, program_id: Seq<u8>) -> Option<Seq<u8>>;

/// The seeds respect the limits on their number and on the length of each.
pub open spec fn seeds_within_limits(seeds: Seq<Seq<u8>>) -> bool {
    &&& seeds.len() <= MAX_SEEDS
    &&& forall|i: int| 0 <= i < seeds.len() ==> #[trigger] seeds[i].len() <= MAX_SEED_LEN
}

/// What `create_program_address` yields for the given seeds.
pub open spec fn spec_create(seeds: Seq<Seq<u8>>, program_id: Seq<u8>) -> Result<Seq<u8>, PdaError> {
    if !seeds_within_limits(seeds) {
        Err(PdaError::MaxSeedLengthExceeded)
    } else {
        match derived_address(seeds, program_id) {
            Some(k) => Ok(k),
            None => Err(PdaError::InvalidSeeds),
        }
    }
}

/// The seeds followed by the one-byte bump seed.
pub open spec fn with_bump(seeds: Seq<Seq<u8>>, bump: u8) -> Seq<Seq<u8>> {
    seeds.push(seq![bump])
}

/// The search of `try_find_program_address`: the bumps from `bump` down to 1,
/// the first that derives an address.
pub open spec fn find_from(seeds: Seq<Seq<u8>>, program_id: Seq<u8>, bump: nat) -> Option<(Seq<u8>, u8)>
    decreases bump,
{
    if bump == 0 || bump > 255 {
        None
    } else {
        match spec_create(with_bump(seeds, bump as u8), program_id) {
            Ok(k) => Some((k, bump as u8)),
            Err(PdaError::InvalidSeeds) => find_from(seeds, program_id, (bump - 1) as nat),
            Err(_) => None,
        }
    }
}

/// The canonical address and bump: the highest bump that derives an address.
pub open spec fn spec_find(seeds: Seq<Seq<u8>>, program_id: Seq<u8>) -> Option<(Seq<u8>, u8)> {
    find_from(seeds, program_id, 255)
}

/// Calls solana's `Pubkey::create_program_address` on seeds within its
/// limits (at most `MAX_SEEDS`, none longer than `MAX_SEED_LEN` bytes).
/// Claimed of it: it returns the address that `derived_address` names, or
/// fails with `InvalidSeeds` where that name is `None` (the hash lies on the
/// curve). Which hashes lie on the curve is not stated: `derived_address` is
/// a name for it.
#[verifier::external_body]
pub(crate) fn create_program_address(seeds: &Vec<Vec<u8>>, program_id: &[u8; 32]) -> (result: Result<[u8; 32], PdaError>)
    requires
        seeds_within_limits(seeds.deep_view()),
    ensures
        match result {
            Ok(k) => derived_address(seeds.deep_view(), program_id@) == Some(k@),
            Err(e) => e == PdaError::InvalidSeeds && derived_address(seeds.deep_view(), program_id@) is None,
        },
{
    let refs: Vec<&[u8]> = seeds.iter().map(|s| s.as_slice()).collect();
    match Pubkey::create_program_address(&refs, &Pubkey::new_from_array(*program_id)) {
        Ok(k) => Ok(k.to_bytes()),
        Err(PubkeyError::MaxSeedLengthExceeded) => Err(PdaError::MaxSeedLengthExceeded),
        Err(PubkeyError::InvalidSeeds) => Err(PdaError::InvalidSeeds),
        Err(PubkeyError::IllegalOwner) => Err(PdaError::IllegalOwner),
    }
}

/// Calls solana's `Pubkey::try_find_program_address` on seeds within its
/// limits, with room for the bump seed. Claimed of it, as its source shows: it tries the bumps 255, 254, ..., 1 in turn, appending the
/// bump as a last one-byte seed, and returns the first address that
/// `create_program_address` derives with its bump; it returns `None` when it
/// meets a seed-length error or no bump derives an address. That is
/// `spec_find`.
#[verifier::external_body]
pub(crate) fn try_find_program_address(seeds: &Vec<Vec<u8>>, program_id: &[u8; 32]) -> (result: Option<([u8; 32], u8)>)
    requires
        seeds_within_limits(seeds.deep_view()),
        seeds.len() < MAX_SEEDS,
    ensures
        match result {
            Some((k, b)) => spec_find(seeds.deep_view(), program_id@) == Some((k@, b)),
            None => spec_find(seeds.deep_view(), program_id@) is None,
        },
{
    let refs: Vec<&[u8]> = seeds.iter().map(|s| s.as_slice()).collect();
    match Pubkey::try_find_program_address(&refs, &Pubkey::new_from_array(*program_id)) {
        Some((k, b)) => Some((k.to_bytes(), b)),
        None => None,
    }
}


/// The two address schemes of the vault program: a user's state account is
/// derived from `"state"` and the user's address, the vault from `"vault"`
/// and the state account's address.
#[derive(Clone, Copy, Debug, PartialEq, Eq, Structural)]
pub enum SeedTag {
    State,
    Vault,
}

/// The bytes of the first seed of each scheme.
pub open spec fn tag_bytes(tag: SeedTag) -> Seq<u8> {
    match tag {
        SeedTag::State => seq![115u8, 116u8, 97u8, 116u8, 101u8],
        SeedTag::Vault => seq![118u8, 97u8, 117u8, 108u8, 116u8],
    }
}

/// The seeds of a scheme for the given base address, without the bump.
pub open spec fn spec_seeds(tag: SeedTag, base: Seq<u8>) -> Seq<Seq<u8>> {
    seq![tag_bytes(tag), base]
}

/// The seeds of a scheme for an address, with or without a bump, are within
/// the limits of a derivation.
pub proof fn lemma_scheme_within_limits(tag: SeedTag, base: Seq<u8>, bump: u8)
    requires
        base.len() == 32,
    ensures
        seeds_within_limits(spec_seeds(tag, base)),
        spec_seeds(tag, base).len() < MAX_SEEDS,
        seeds_within_limits(with_bump(spec_seeds(tag, base), bump)),
{
    let s = spec_seeds(tag, base);
    assert forall|i: int| 0 <= i < s.len() implies #[trigger] s[i].len() <= MAX_SEED_LEN by {
        if i == 0 {} else {}
    }
    let w = with_bump(s, bump);
    assert forall|i: int| 0 <= i < w.len() implies #[trigger] w[i].len() <= MAX_SEED_LEN by {
        if i < 2 { assert(w[i] == s[i]); } else {}
    }
}

fn tag_seed(tag: SeedTag) -> (r: Vec<u8>)
    ensures
        r@ == tag_bytes(tag),
{
    let mut r: Vec<u8> = Vec::new();
    match tag {
        SeedTag::State => {
            r.push(115u8);
            r.push(116u8);
            r.push(97u8);
            r.push(116u8);
            r.push(101u8);
        },
        SeedTag::Vault => {
            r.push(118u8);
            r.push(97u8);
            r.push(117u8);
            r.push(108u8);
            r.push(116u8);
        },
    }
    assert(r@ =~= tag_bytes(tag));
    r
}

fn key_seed(key: &[u8; 32]) -> (r: Vec<u8>)
    ensures
        r@ == key@,
{
    let mut r: Vec<u8> = Vec::new();
    let mut i: usize = 0;
    while i < 32
        invariant
            i <= 32,
            key@.len() == 32,
            r@ =~= key@.take(i as int),
        decreases 32 - i,
    {
        r.push(key[i]);
        i = i + 1;
    }
    assert(key@.take(32) =~= key@);
    r
}

/// The seeds `[tag, base]` of a scheme.
pub fn seeds(tag: SeedTag, base: &[u8; 32]) -> (r: Vec<Vec<u8>>)
    ensures
        r.deep_view() =~~= spec_seeds(tag, base@),
{
    let mut r: Vec<Vec<u8>> = Vec::new();
    r.push(tag_seed(tag));
    r.push(key_seed(base));
    r
}

/// The seeds `[tag, base, [bump]]` with which the program signs for an
/// address of a scheme.
pub fn seeds_with_bump(tag: SeedTag, base: &[u8; 32], bump: u8) -> (r: Vec<Vec<u8>>)
    ensures
        r.deep_view() =~~= with_bump(spec_seeds(tag, base@), bump),
{
    let mut r = seeds(tag, base);
    let mut b: Vec<u8> = Vec::new();
    b.push(bump);
    r.push(b);
    r
}

} // verus!
