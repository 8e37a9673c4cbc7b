use vstd::prelude::*;

use crate::address::Address;
use crate::error::PoolError;

verus! {

/// Largest number of seeds, the discriminator included.
pub const MAX_SEEDS: usize = 16;

/// Largest length of one seed.
pub const MAX_SEED_LEN: usize = 32;

/// The address that the runtime derives from `seeds` under `program_id`, or
/// `None` when the hash of the seeds lies on the ed25519 curve. It is a
/// function of the seeds and the program id alone.
pub uninterp spec fn program_address(seeds: Seq<Seq<u8>>, program_id: Seq<u8>) -> Option<Seq<u8>>;

/// Seeds that the derivation accepts: at most sixteen, none over 32 bytes.
pub open spec fn seeds_fit(seeds: Seq<Seq<u8>>) -> bool {
    &&& seeds.len() <= MAX_SEEDS
    &&& forall|i: int| 0 <= i < seeds.len() ==> (#[trigger] seeds[i]).len() <= MAX_SEED_LEN
}

/// Seeds that leave room for the discriminator seed.
pub open spec fn seeds_fit_with_bump(seeds: Seq<Seq<u8>>) -> bool {
    seeds_fit(seeds) && seeds.len() < MAX_SEEDS
}

/// The seeds followed by the one-byte discriminator seed.
pub open spec fn with_bump(seeds: Seq<Seq<u8>>, bump: u8) -> Seq<Seq<u8>> {
    seeds.push(seq![bump])
}

/// The address derived from `seeds` and the discriminator `bump`.
pub open spec fn derived_address(seeds: Seq<Seq<u8>>, bump: u8, program_id: Seq<u8>) -> Option<Seq<u8>> {
    program_address(with_bump(seeds, bump), program_id)
}

/// Some discriminator from 1 to 255 yields a derived address.
pub open spec fn has_valid_bump(seeds: Seq<Seq<u8>>, program_id: Seq<u8>) -> bool {
    exists|c: u8| 1 <= c && (#[trigger] derived_address(seeds, c, program_id)) is Some
}

/// `bump` is the largest discriminator that yields a derived address: the one
/// that a search from the top of the byte range downward stops at.
pub open spec fn is_canonical_bump(seeds: Seq<Seq<u8>>, program_id: Seq<u8>, bump: u8) -> bool {
    &&& 1 <= bump
    &&& derived_address(seeds, bump, program_id) is Some
    &&& forall|c: u8| bump < c ==> (#[trigger] derived_address(seeds, c, program_id)) is None
}

/// The seeds as byte sequences.
pub open spec fn seeds_view(seeds: Seq<Vec<u8>>) -> Seq<Seq<u8>> {
    seeds.map_values(|s: Vec<u8>| s@)
}

/// An optional address as an optional byte sequence.
pub open spec fn view_address(a: Option<Address>) -> Option<Seq<u8>> {
    match a {
        Some(x) => Some(x@),
        None => None,
    }
}

/// Relies on `Pubkey::create_program_address` of solana-program: with seeds
/// that fit, it fails only when the hash of the seeds and program id lies on
/// the curve, and otherwise returns that hash as the address.
#[verifier::external_body]
pub(crate) fn create_program_address(seeds: &Vec<Vec<u8>>, program_id: &Address) -> (r: Option<Address>)
    requires
        seeds_fit(seeds_view(seeds@)),
    ensures
        view_address(r) == program_address(seeds_view(seeds@), program_id@),
{
    let refs: Vec<&[u8]> = seeds.iter().map(|s| s.as_slice()).collect();
    let id = anchor_lang::prelude::Pubkey::new_from_array(program_id.bytes);
    anchor_lang::prelude::Pubkey::create_program_address(&refs, &id).ok().map(
        |k| Address { bytes: k.to_bytes() },
    )
}

/// Relies on `Pubkey::try_find_program_address` of solana-program: it tries
/// the discriminators 255 down to 1, each appended to the seeds as a one-byte
/// seed, and returns the first derived address with its discriminator, or
/// `None` when none of them yields one.
#[verifier::external_body]
fn try_find_program_address(seeds: &Vec<Vec<u8>>, program_id: &Address) -> (r: Option<
    (Address, u8),
>)
    requires
        seeds_fit_with_bump(seeds_view(seeds@)),
    ensures
        match r {
            Some((a, b)) => is_canonical_bump(seeds_view(seeds@), program_id@, b) && derived_address(
                seeds_view(seeds@),
                b,
                program_id@,
            ) == Some(a@),
            None => !has_valid_bump(seeds_view(seeds@), program_id@),
        },
{
    let refs: Vec<&[u8]> = seeds.iter().map(|s| s.as_slice()).collect();
    let id = anchor_lang::prelude::Pubkey::new_from_array(program_id.bytes);
    anchor_lang::prelude::Pubkey::try_find_program_address(&refs, &id).map(
        |(k, b)| (Address { bytes: k.to_bytes() }, b),
    )
}

/// The seeds followed by the discriminator seed, as byte vectors.
pub fn seeds_with_bump(seeds: &Vec<Vec<u8>>, bump: u8) -> (r: Vec<Vec<u8>>)
    ensures
        seeds_view(r@) == with_bump(seeds_view(seeds@), bump),
{
    let mut r: Vec<Vec<u8>> = Vec::new();
    let mut i: usize = 0;
    while i < seeds.len()
        invariant
            i <= seeds.len(),
            r@.len() == i,
            forall|j: int| 0 <= j < i ==> (#[trigger] r@[j])@ == seeds@[j]@,
        decreases seeds.len() - i,
    {
        let seed: Vec<u8> = seeds[i].clone();
        proof {
            assert(seed@ =~= seeds@[i as int]@);
        }
        r.push(seed);
        i = i + 1;
    }
    let b: Vec<u8> = vec![bump];
    r.push(b);
    proof {
        assert(b@ =~= seq![bump]);
        assert(seeds_view(r@) =~= with_bump(seeds_view(seeds@), bump));
    }
    r
}

/// The address derived from `seeds` and the discriminator `bump`, or `None`
/// where that pair yields no derived address.
pub fn derive_address(seeds: &Vec<Vec<u8>>, bump: u8, program_id: &Address) -> (r: Option<Address>)
    requires
        seeds_fit_with_bump(seeds_view(seeds@)),
    ensures
        view_address(r) == derived_address(seeds_view(seeds@), bump, program_id@),
{
    let all = seeds_with_bump(seeds, bump);
    proof {
        let s = with_bump(seeds_view(seeds@), bump);
        assert forall|i: int| 0 <= i < s.len() implies (#[trigger] s[i]).len() <= MAX_SEED_LEN by {
            if i < seeds_view(seeds@).len() {
                assert(s[i] == seeds_view(seeds@)[i]);
            }
        }
    }
    create_program_address(&all, program_id)
}

/// The canonical derived address of `seeds` and its discriminator, found by a
/// search from 255 downward; `NoValidDiscriminator` when no discriminator
/// yields one.
pub fn find_discriminator(seeds: &Vec<Vec<u8>>, program_id: &Address) -> (r: Result<
    (Address, u8),
    PoolError,
>)
    requires
        seeds_fit_with_bump(seeds_view(seeds@)),
    ensures
        match r {
            Ok((a, b)) => is_canonical_bump(seeds_view(seeds@), program_id@, b) && derived_address(
                seeds_view(seeds@),
                b,
                program_id@,
            ) == Some(a@),
            Err(e) => e == PoolError::NoValidDiscriminator && !has_valid_bump(
                seeds_view(seeds@),
                program_id@,
            ),
        },
{
    match try_find_program_address(seeds, program_id) {
        Some(found) => Ok(found),
        None => Err(PoolError::NoValidDiscriminator),
    }
}

/// At most one discriminator is canonical for given seeds.
pub proof fn lemma_canonical_bump_unique(
    seeds: Seq<Seq<u8>>,
    program_id: Seq<u8>,
    b1: u8,
    b2: u8,
)
    requires
        is_canonical_bump(seeds, program_id, b1),
        is_canonical_bump(seeds, program_id, b2),
    ensures
        b1 == b2,
{
    if b1 < b2 {
        assert(derived_address(seeds, b2, program_id) is None);
    } else if b2 < b1 {
        assert(derived_address(seeds, b1, program_id) is None);
    }
}

} // verus!
