//! The signing authority of a pool.
//!
//! A pool's vaults are not controlled by a private key but by an address
//! derived from a fixed label, the administrator's address and a one-byte
//! bump seed, under the identity of the staking program. Anyone can repeat
//! the derivation; only the program can sign with its result.

use vstd::prelude::*;
use crate::pubkey::Pubkey;

verus! {

/// The label that separates pool authorities from every other address the
/// program may derive: the ASCII bytes of `stake_pool`.
pub const STAKE_POOL_SEED: [u8; 10] = [115, 116, 97, 107, 101, 95, 112, 111, 111, 108];

/// The address that Solana derives for a program from a list of seeds, or
/// `None` where the seeds give no valid program address.
pub uninterp spec fn program_address(seeds: Seq<Seq<u8>>, program_id: Seq<u8>) -> Option<Seq<u8>>;

/// The byte sequences that a list of seed slices holds.
pub open spec fn seed_views(seeds: Seq<&[u8]>) -> Seq<Seq<u8>> {
    Seq::new(seeds.len(), |i: int| seeds[i]@)
}

/// The bytes of an address that may be missing.
pub open spec fn key_view(key: Option<Pubkey>) -> Option<Seq<u8>> {
    match key {
        Some(k) => Some(k@),
        None => None,
    }
}

/// What a search for an authority found, with the address as its bytes.
pub open spec fn found_view(found: Option<(Pubkey, u8)>) -> Option<(Seq<u8>, u8)> {
    match found {
        Some((key, bump)) => Some((key@, bump)),
        None => None,
    }
}

/// Calls `Pubkey::create_program_address` of `anchor_lang`. The contract
/// claims only that the outcome is a function of the seeds' bytes and the
/// program's address, named [`program_address`], with every error of the
/// outside function shown as `None`.
#[verifier::external_body]
fn create_program_address(seeds: &[&[u8]], program_id: &Pubkey) -> (address: Option<Pubkey>)
    ensures
        key_view(address) == program_address(seed_views(seeds@), program_id@),
{
    let id = anchor_lang::prelude::Pubkey::new_from_array(program_id.bytes);
    match anchor_lang::prelude::Pubkey::create_program_address(seeds, &id) {
        Ok(address) => Some(Pubkey { bytes: address.to_bytes() }),
        Err(_) => None,
    }
}

/// The seeds of a pool's authority: the label, the administrator's address
/// and the bump seed.
pub open spec fn pool_seeds(admin: Seq<u8>, bump: u8) -> Seq<Seq<u8>> {
    seq![STAKE_POOL_SEED@, admin, seq![bump]]
}

/// The bytes that the derivation hashes for a pool: its seeds, run together.
pub open spec fn hashed_seeds(admin: Seq<u8>, bump: u8) -> Seq<u8> {
    pool_seeds(admin, bump)[0] + pool_seeds(admin, bump)[1] + pool_seeds(admin, bump)[2]
}

/// Different administrators hand different seeds to the derivation, and
/// the seeds still differ when they are run together as the derivation
/// hashes them: the label and the address have fixed lengths, so no two
/// administrators' seeds run into each other.
pub proof fn lemma_seeds_tell_administrators_apart(a: Pubkey, b: Pubkey, bump_a: u8, bump_b: u8)
    requires
        a != b,
    ensures
        pool_seeds(a@, bump_a) != pool_seeds(b@, bump_b),
        hashed_seeds(a@, bump_a) != hashed_seeds(b@, bump_b),
{
    Pubkey::lemma_view_injective(a, b);
    let run_a = hashed_seeds(a@, bump_a);
    let run_b = hashed_seeds(b@, bump_b);
    if run_a == run_b {
        assert forall|i: int| 0 <= i < 32 implies a@[i] == b@[i] by {
            assert(run_a[10 + i] == a@[i]);
            assert(run_b[10 + i] == b@[i]);
        }
        assert(a@ =~= b@);
    }
    if pool_seeds(a@, bump_a) == pool_seeds(b@, bump_b) {
        assert(pool_seeds(a@, bump_a)[1] == a@);
        assert(pool_seeds(b@, bump_b)[1] == b@);
    }
}

/// The authority that the seeds of `admin` and `bump` derive, if any.
pub open spec fn authority_with_bump(admin: Pubkey, bump: u8, program_id: Pubkey) -> Option<Seq<u8>> {
    program_address(pool_seeds(admin@, bump), program_id@)
}

/// Derives the authority of the pool of `admin` with a known bump seed.
pub fn create_pool_authority(admin: &Pubkey, bump: u8, program_id: &Pubkey) -> (authority: Option<Pubkey>)
    ensures
        key_view(authority) == authority_with_bump(*admin, bump, *program_id),
{
    let bump_seed: [u8; 1] = [bump];
    let seeds: [&[u8]; 3] = [STAKE_POOL_SEED.as_slice(), admin.bytes.as_slice(), bump_seed.as_slice()];
    let authority = create_program_address(seeds.as_slice(), program_id);
    proof {
        assert(bump_seed@ =~= seq![bump]);
        assert(seed_views(seeds@) =~= pool_seeds(admin@, bump));
    }
    authority
}

/// The search for a pool's authority among the bump seeds from `bump` down
/// to 1: the first seed that derives an address wins.
pub open spec fn search_authority(admin: Pubkey, program_id: Pubkey, bump: u8) -> Option<(Seq<u8>, u8)>
    decreases bump,
{
    if bump == 0 {
        None
    } else {
        match authority_with_bump(admin, bump, program_id) {
            Some(address) => Some((address, bump)),
            None => search_authority(admin, program_id, (bump - 1) as u8),
        }
    }
}

/// The authority of the pool of `admin` and the bump seed that completes its
/// derivation: the largest bump seed from 255 down to 1 that derives an
/// address, as Solana's `find_program_address` chooses it. `None` if no bump
/// seed does.
pub open spec fn pool_authority(admin: Pubkey, program_id: Pubkey) -> Option<(Seq<u8>, u8)> {
    search_authority(admin, program_id, 255)
}

/// What the search returns, said without recursion: a bump seed that derives
/// the address, and above which no bump seed derives any.
pub proof fn lemma_search_authority(admin: Pubkey, program_id: Pubkey, bump: u8)
    ensures
        match search_authority(admin, program_id, bump) {
            Some((address, found)) => {
                &&& 1 <= found <= bump
                &&& authority_with_bump(admin, found, program_id) == Some(address)
                &&& forall|b: u8| found < b <= bump ==> authority_with_bump(admin, b, program_id) is None
            },
            None => forall|b: u8| 1 <= b <= bump ==> authority_with_bump(admin, b, program_id) is None,
        },
    decreases bump,
{
    if bump > 0 && authority_with_bump(admin, bump, program_id) is None {
        lemma_search_authority(admin, program_id, (bump - 1) as u8);
    }
}

/// Finds the authority of the pool of `admin` and its bump seed. The bump
/// seed that comes back derives the same address again whenever it is used
/// with [`create_pool_authority`].
pub fn find_pool_authority(admin: &Pubkey, program_id: &Pubkey) -> (found: Option<(Pubkey, u8)>)
    ensures
        found_view(found) == pool_authority(*admin, *program_id),
        found matches Some((key, bump)) ==> bump >= 1 && authority_with_bump(
            *admin,
            bump,
            *program_id,
        ) == Some(key@),
{
    proof {
        lemma_search_authority(*admin, *program_id, 255);
    }
    let mut bump: u8 = 255;
    while bump > 0
        invariant
            pool_authority(*admin, *program_id) == search_authority(*admin, *program_id, bump),
        decreases bump,
    {
        match create_pool_authority(admin, bump, program_id) {
            Some(key) => {
                return Some((key, bump));
            },
            None => {},
        }
        bump -= 1;
    }
    None
}

} // verus!
