use vstd::prelude::*;

use crate::address::Address;
use crate::derivation::{
    derived_address, find_discriminator, has_valid_bump, is_canonical_bump, lemma_canonical_bump_unique,
    seeds_view,
};
use crate::error::PoolError;

verus! {

/// The persisted pool record: the vault, the mint of the tokens it holds, the
/// account that withdrawals pay into, and the discriminator of the pool's
/// derived address.
#[derive(Debug, Clone, Copy)]
pub struct TokenPool {
    pub vault: Address,
    pub mint: Address,
    pub withdraw_destination: Address,
    pub bump: u8,
}

/// A token account as the ledger holds it.
#[derive(Debug, Clone, Copy)]
pub struct TokenAccountState {
    pub address: Address,
    pub mint: Address,
    /// The authority that may move the balance out.
    pub owner: Address,
    pub amount: u64,
}

/// The accounts of an unbound pool creation.
#[derive(Debug, Clone, Copy)]
pub struct InitializePool {
    pub pool: Address,
    pub mint: Address,
    pub vault: Address,
    pub withdraw_destination: Address,
}

/// The accounts of a bound pool creation. The pool's own address must be the
/// canonical address derived from its withdrawal destination.
#[derive(Debug, Clone, Copy)]
pub struct InitializePoolSecure {
    pub program_id: Address,
    pub pool: Address,
    pub mint: Address,
    pub vault: Address,
    pub withdraw_destination: Address,
}

/// The seed material that binds a pool to its withdrawal destination.
pub open spec fn destination_seeds(destination: Address) -> Seq<Seq<u8>> {
    seq![destination@]
}

/// The seed material of the unbound protocol: the mint alone, shared by every
/// pool of that mint.
pub open spec fn mint_seeds(mint: Address) -> Seq<Seq<u8>> {
    seq![mint@]
}

/// The seeds made of one address.
pub fn single_seed(a: &Address) -> (r: Vec<Vec<u8>>)
    ensures
        seeds_view(r@) == seq![a@],
{
    let mut r: Vec<Vec<u8>> = Vec::new();
    r.push(a.to_seed());
    proof {
        assert(seeds_view(r@) =~= seq![a@]);
    }
    r
}

/// The pool's derived address, for the bound protocol: the one `derived_address` gives
/// for the destination seed and the recorded discriminator.
pub open spec fn pool_authority(pool: TokenPool, program_id: Seq<u8>) -> Option<Seq<u8>> {
    derived_address(destination_seeds(pool.withdraw_destination), pool.bump, program_id)
}

/// Creates a pool record from whatever the caller supplies, the discriminator
/// included, with nothing bound to anything.
pub fn initialize_pool(ctx: &InitializePool, bump: u8) -> (r: TokenPool)
    ensures
        r == (TokenPool {
            vault: ctx.vault,
            mint: ctx.mint,
            withdraw_destination: ctx.withdraw_destination,
            bump,
        }),
{
    TokenPool { vault: ctx.vault, mint: ctx.mint, withdraw_destination: ctx.withdraw_destination, bump }
}

/// Creates a pool record bound to its destination, and the vault it owns.
///
/// The canonical discriminator of the destination seed is searched; the pool
/// is created only where the address it yields is the pool's own. The new
/// vault is empty, holds the pool's mint, and is owned by the pool's address.
pub fn initialize_pool_secure(ctx: &InitializePoolSecure) -> (r: Result<
    (TokenPool, TokenAccountState),
    PoolError,
>)
    ensures
        r is Ok <==> exists|b: u8|
            is_canonical_bump(destination_seeds(ctx.withdraw_destination), ctx.program_id@, b)
                && #[trigger] derived_address(destination_seeds(ctx.withdraw_destination), b, ctx.program_id@)
                == Some(ctx.pool@),
        match r {
            Ok((p, v)) => {
                &&& is_canonical_bump(
                    destination_seeds(ctx.withdraw_destination),
                    ctx.program_id@,
                    p.bump,
                )
                &&& pool_authority(p, ctx.program_id@) == Some(ctx.pool@)
                &&& p.vault == ctx.vault
                &&& p.mint == ctx.mint
                &&& p.withdraw_destination == ctx.withdraw_destination
                &&& v == (TokenAccountState {
                    address: ctx.vault,
                    mint: ctx.mint,
                    owner: ctx.pool,
                    amount: 0,
                })
            },
            Err(e) => if has_valid_bump(
                destination_seeds(ctx.withdraw_destination),
                ctx.program_id@,
            ) {
                e == PoolError::SeedBindingViolation
            } else {
                e == PoolError::NoValidDiscriminator
            },
        },
{
    let seeds = single_seed(&ctx.withdraw_destination);
    let ghost s = destination_seeds(ctx.withdraw_destination);
    let ghost pid = ctx.program_id@;
    match find_discriminator(&seeds, &ctx.program_id) {
        Ok((key, bump)) => {
            if key.same_as(&ctx.pool) {
                let pool = TokenPool {
                    vault: ctx.vault,
                    mint: ctx.mint,
                    withdraw_destination: ctx.withdraw_destination,
                    bump,
                };
                let vault = TokenAccountState {
                    address: ctx.vault,
                    mint: ctx.mint,
                    owner: ctx.pool,
                    amount: 0,
                };
                Ok((pool, vault))
            } else {
                proof {
                    assert(1 <= bump && derived_address(s, bump, pid) is Some);
                    assert(has_valid_bump(s, pid));
                    assert forall|b: u8|
                        is_canonical_bump(s, pid, b) implies #[trigger] derived_address(s, b, pid) != Some(
                        ctx.pool@,
                    ) by {
                        lemma_canonical_bump_unique(s, pid, b, bump);
                    }
                }
                Err(PoolError::SeedBindingViolation)
            }
        },
        Err(e) => {
            proof {
                assert forall|b: u8| is_canonical_bump(s, pid, b) implies #[trigger] derived_address(
                    s,
                    b,
                    pid,
                ) != Some(ctx.pool@) by {
                    assert(derived_address(s, b, pid) is Some);
                }
            }
            Err(e)
        },
    }
}

} // verus!
