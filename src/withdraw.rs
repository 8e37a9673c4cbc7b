use vstd::prelude::*;

use crate::address::Address;
use crate::derivation::{derive_address, seeds_view, seeds_with_bump, with_bump};
use crate::error::PoolError;
use crate::pool::{
    destination_seeds, mint_seeds, pool_authority, single_seed, TokenAccountState, TokenPool,
};

verus! {

/// The accounts of a token transfer.
#[derive(Debug, Clone, Copy)]
pub struct TransferAccounts {
    pub from: Address,
    pub to: Address,
    pub authority: Address,
}

/// A transfer that a validated withdrawal asks the token program for: the
/// accounts, the seeds the program signs with, and the amount.
#[derive(Debug)]
pub struct TransferInstruction {
    pub accounts: TransferAccounts,
    pub signer_seeds: Vec<Vec<u8>>,
    pub amount: u64,
}

/// The accounts of an unbound withdrawal: the pool record, its vault and
/// destination, and an authority account that nothing checks.
#[derive(Debug, Clone, Copy)]
pub struct WithdrawTokens {
    pub pool: TokenPool,
    pub vault: TokenAccountState,
    pub withdraw_destination: TokenAccountState,
    pub authority: Address,
}

/// The accounts of a bound withdrawal: the pool record at its address, its
/// vault and destination.
#[derive(Debug, Clone, Copy)]
pub struct WithdrawTokensSecure {
    pub program_id: Address,
    pub pool_address: Address,
    pub pool: TokenPool,
    pub vault: TokenAccountState,
    pub withdraw_destination: TokenAccountState,
}

/// The vault and destination passed in are the ones the pool record holds.
pub open spec fn accounts_match(
    pool: TokenPool,
    vault: TokenAccountState,
    destination: TokenAccountState,
) -> bool {
    vault.address@ == pool.vault@ && destination.address@ == pool.withdraw_destination@
}

/// The relation check: `RelationMismatch` unless the vault and destination are
/// the recorded ones.
pub fn check_accounts(
    pool: &TokenPool,
    vault: &TokenAccountState,
    destination: &TokenAccountState,
) -> (r: Result<(), PoolError>)
    ensures
        r is Ok <==> accounts_match(*pool, *vault, *destination),
        r is Err ==> r == Err::<(), PoolError>(PoolError::RelationMismatch),
{
    if vault.address.same_as(&pool.vault) && destination.address.same_as(
        &pool.withdraw_destination,
    ) {
        Ok(())
    } else {
        Err(PoolError::RelationMismatch)
    }
}

impl WithdrawTokens {
    /// Moves from the vault to the destination, under the caller's authority.
    pub fn transfer_ctx(&self) -> (r: TransferAccounts)
        ensures
            r == (TransferAccounts {
                from: self.vault.address,
                to: self.withdraw_destination.address,
                authority: self.authority,
            }),
    {
        TransferAccounts {
            from: self.vault.address,
            to: self.withdraw_destination.address,
            authority: self.authority,
        }
    }
}

impl WithdrawTokensSecure {
    /// Moves from the vault to the destination, under the pool's address.
    pub fn transfer_ctx(&self) -> (r: TransferAccounts)
        ensures
            r == (TransferAccounts {
                from: self.vault.address,
                to: self.withdraw_destination.address,
                authority: self.pool_address,
            }),
    {
        TransferAccounts {
            from: self.vault.address,
            to: self.withdraw_destination.address,
            authority: self.pool_address,
        }
    }
}

/// The unbound withdrawal: the whole vault balance, signed with the mint and
/// the recorded discriminator as seeds. Nothing ties those seeds to this pool,
/// nor the authority account to them.
pub fn withdraw_insecure(ctx: &WithdrawTokens) -> (r: Result<TransferInstruction, PoolError>)
    ensures
        r is Ok <==> accounts_match(ctx.pool, ctx.vault, ctx.withdraw_destination),
        match r {
            Ok(ix) => {
                &&& ix.accounts == (TransferAccounts {
                    from: ctx.vault.address,
                    to: ctx.withdraw_destination.address,
                    authority: ctx.authority,
                })
                &&& seeds_view(ix.signer_seeds@) == with_bump(mint_seeds(ctx.pool.mint), ctx.pool.bump)
                &&& ix.amount == ctx.vault.amount
            },
            Err(e) => e == PoolError::RelationMismatch,
        },
{
    check_accounts(&ctx.pool, &ctx.vault, &ctx.withdraw_destination)?;
    let seeds = single_seed(&ctx.pool.mint);
    let signer_seeds = seeds_with_bump(&seeds, ctx.pool.bump);
    Ok(TransferInstruction { accounts: ctx.transfer_ctx(), signer_seeds, amount: ctx.vault.amount })
}

/// The bound withdrawal: the vault and destination must be the recorded ones,
/// and the pool's address must be the one derived from the recorded
/// destination and discriminator. The transfer moves the whole vault balance
/// under the pool's address, signed with those same seeds.
pub fn withdraw_secure(ctx: &WithdrawTokensSecure) -> (r: Result<TransferInstruction, PoolError>)
    ensures
        !accounts_match(ctx.pool, ctx.vault, ctx.withdraw_destination) ==> r == Err::<
            TransferInstruction,
            PoolError,
        >(PoolError::RelationMismatch),
        accounts_match(ctx.pool, ctx.vault, ctx.withdraw_destination) && pool_authority(
            ctx.pool,
            ctx.program_id@,
        ) != Some(ctx.pool_address@) ==> r == Err::<TransferInstruction, PoolError>(
            PoolError::DiscriminatorMismatch,
        ),
        r is Ok <==> accounts_match(ctx.pool, ctx.vault, ctx.withdraw_destination)
            && pool_authority(ctx.pool, ctx.program_id@) == Some(ctx.pool_address@),
        r matches Ok(ix) ==> {
            &&& ix.accounts == (TransferAccounts {
                from: ctx.vault.address,
                to: ctx.withdraw_destination.address,
                authority: ctx.pool_address,
            })
            &&& seeds_view(ix.signer_seeds@) == with_bump(
                destination_seeds(ctx.pool.withdraw_destination),
                ctx.pool.bump,
            )
            &&& ix.amount == ctx.vault.amount
        },
{
    check_accounts(&ctx.pool, &ctx.vault, &ctx.withdraw_destination)?;
    let seeds = single_seed(&ctx.pool.withdraw_destination);
    let derived = derive_address(&seeds, ctx.pool.bump, &ctx.program_id);
    let bound = match derived {
        Some(a) => a.same_as(&ctx.pool_address),
        None => false,
    };
    if !bound {
        return Err(PoolError::DiscriminatorMismatch);
    }
    let signer_seeds = seeds_with_bump(&seeds, ctx.pool.bump);
    Ok(TransferInstruction { accounts: ctx.transfer_ctx(), signer_seeds, amount: ctx.vault.amount })
}

} // verus!
