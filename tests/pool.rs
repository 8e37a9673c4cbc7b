use std::str::FromStr;

use anchor_lang::prelude::Pubkey;
use pda_sharing::address::Address;
use pda_sharing::derivation::{derive_address, find_discriminator};
use pda_sharing::error::PoolError;
use pda_sharing::ledger::Ledger;
use pda_sharing::pool::{
    initialize_pool, initialize_pool_secure, single_seed, InitializePool, InitializePoolSecure,
    TokenAccountState, TokenPool,
};
use pda_sharing::withdraw::{
    withdraw_insecure, withdraw_secure, TransferAccounts, TransferInstruction, WithdrawTokens,
    WithdrawTokensSecure,
};

fn program_id() -> Address {
    let key = Pubkey::from_str("Ha5Ce7WmmqfgGzkCWFHgc36m8MUYz2zfxJj9WvTNcLmu").unwrap();
    Address::new(key.to_bytes())
}

fn addr(n: u8) -> Address {
    let mut b = [0u8; 32];
    b[0] = n;
    b[31] = n.wrapping_mul(7);
    Address::new(b)
}

fn token_account(address: Address, mint: Address, owner: Address, amount: u64) -> TokenAccountState {
    TokenAccountState { address, mint, owner, amount }
}

/// A secure pool for `destination`, created at its canonical address.
fn secure_pool(vault: Address, mint: Address, destination: Address) -> (Address, TokenPool, TokenAccountState) {
    let (pool_address, _) = find_discriminator(&single_seed(&destination), &program_id()).unwrap();
    let ctx = InitializePoolSecure {
        program_id: program_id(),
        pool: pool_address,
        mint,
        vault,
        withdraw_destination: destination,
    };
    let (pool, vault_state) = initialize_pool_secure(&ctx).unwrap();
    (pool_address, pool, vault_state)
}

#[test]
fn address_equality_is_bytewise() {
    assert!(addr(3).same_as(&addr(3)));
    assert!(!addr(3).same_as(&addr(4)));
    assert_eq!(addr(9), addr(9));
    assert_ne!(addr(9), addr(10));
    assert_eq!(addr(5).to_seed(), addr(5).bytes.to_vec());
}

#[test]
fn derived_address_is_not_the_seed() {
    let seeds = single_seed(&addr(1));
    let (a, bump) = find_discriminator(&seeds, &program_id()).unwrap();
    assert!(bump >= 1);
    assert_ne!(a, addr(1));
    assert_ne!(a, program_id());
    let again = derive_address(&seeds, bump, &program_id()).unwrap();
    assert_eq!(again, a);
    let expected = Pubkey::find_program_address(&[&addr(1).bytes], &Pubkey::new_from_array(program_id().bytes));
    assert_eq!(a.bytes, expected.0.to_bytes());
    assert_eq!(bump, expected.1);
}

#[test]
fn found_discriminator_is_the_largest_valid_one() {
    let seeds = single_seed(&addr(2));
    let (_, bump) = find_discriminator(&seeds, &program_id()).unwrap();
    for c in (bump as u16 + 1)..=255u16 {
        assert!(derive_address(&seeds, c as u8, &program_id()).is_none());
    }
}

#[test]
fn distinct_discriminators_give_distinct_addresses() {
    let seeds = single_seed(&addr(4));
    let mut found: Vec<Address> = Vec::new();
    for d in 0..=255u16 {
        if let Some(a) = derive_address(&seeds, d as u8, &program_id()) {
            assert!(found.iter().all(|f| *f != a));
            found.push(a);
        }
    }
    assert!(found.len() > 1);
}

#[test]
fn distinct_destinations_give_distinct_authorities() {
    let (a, _, _) = secure_pool(addr(10), addr(11), addr(12));
    let (b, _, _) = secure_pool(addr(20), addr(11), addr(22));
    assert_ne!(a, b);
}

#[test]
fn initialize_pool_stores_what_it_is_given() {
    let ctx = InitializePool { pool: addr(1), mint: addr(2), vault: addr(3), withdraw_destination: addr(4) };
    let pool = initialize_pool(&ctx, 77);
    assert_eq!(pool.vault, addr(3));
    assert_eq!(pool.mint, addr(2));
    assert_eq!(pool.withdraw_destination, addr(4));
    assert_eq!(pool.bump, 77);
}

#[test]
fn secure_pool_records_the_discriminator_of_its_address() {
    let destination = addr(30);
    let (pool_address, pool, vault) = secure_pool(addr(31), addr(32), destination);
    let (_, expected_bump) = find_discriminator(&single_seed(&destination), &program_id()).unwrap();
    assert_eq!(pool.bump, expected_bump);
    let recomputed = derive_address(&single_seed(&destination), pool.bump, &program_id()).unwrap();
    assert_eq!(recomputed, pool_address);
    assert_eq!(pool.vault, addr(31));
    assert_eq!(pool.mint, addr(32));
    assert_eq!(pool.withdraw_destination, destination);
    assert_eq!(vault.address, addr(31));
    assert_eq!(vault.owner, pool_address);
    assert_eq!(vault.mint, addr(32));
    assert_eq!(vault.amount, 0);
}

#[test]
fn secure_pool_at_another_address_is_refused() {
    let ctx = InitializePoolSecure {
        program_id: program_id(),
        pool: addr(40),
        mint: addr(41),
        vault: addr(42),
        withdraw_destination: addr(43),
    };
    assert_eq!(initialize_pool_secure(&ctx).unwrap_err(), PoolError::SeedBindingViolation);
}

#[test]
fn secure_withdrawal_with_another_destination_is_refused() {
    let mint = addr(50);
    let (a_address, a, a_vault) = secure_pool(addr(51), mint, addr(52));
    let (_, b, _) = secure_pool(addr(53), mint, addr(54));
    let ctx = WithdrawTokensSecure {
        program_id: program_id(),
        pool_address: a_address,
        pool: a,
        vault: a_vault,
        withdraw_destination: token_account(b.withdraw_destination, mint, addr(99), 0),
    };
    assert_eq!(withdraw_secure(&ctx).unwrap_err(), PoolError::RelationMismatch);
    let ctx = WithdrawTokensSecure {
        vault: token_account(b.vault, mint, addr(99), 5),
        withdraw_destination: token_account(a.withdraw_destination, mint, addr(99), 0),
        ..ctx
    };
    assert_eq!(withdraw_secure(&ctx).unwrap_err(), PoolError::RelationMismatch);
}

#[test]
fn secure_withdrawal_with_another_discriminator_is_refused() {
    let mint = addr(60);
    let (address, pool, vault) = secure_pool(addr(61), mint, addr(62));
    let wrong = TokenPool { bump: pool.bump.wrapping_sub(1), ..pool };
    let ctx = WithdrawTokensSecure {
        program_id: program_id(),
        pool_address: address,
        pool: wrong,
        vault,
        withdraw_destination: token_account(addr(62), mint, addr(99), 0),
    };
    assert_eq!(withdraw_secure(&ctx).unwrap_err(), PoolError::DiscriminatorMismatch);
    let ctx = WithdrawTokensSecure { pool_address: addr(63), pool, ..ctx };
    assert_eq!(withdraw_secure(&ctx).unwrap_err(), PoolError::DiscriminatorMismatch);
}

#[test]
fn secure_withdrawal_drains_the_vault_and_a_second_moves_nothing() {
    let mint = addr(70);
    let destination = addr(72);
    let (address, pool, vault) = secure_pool(addr(71), mint, destination);
    let mut ledger = Ledger::new();
    assert!(ledger.open_account(TokenAccountState { amount: 500, ..vault }));
    assert!(ledger.open_account(token_account(destination, mint, addr(99), 25)));
    for expected_amount in [500u64, 0u64] {
        let ctx = WithdrawTokensSecure {
            program_id: program_id(),
            pool_address: address,
            pool,
            vault: ledger.account(&pool.vault).unwrap(),
            withdraw_destination: ledger.account(&destination).unwrap(),
        };
        let ix = withdraw_secure(&ctx).unwrap();
        assert_eq!(ix.amount, expected_amount);
        assert_eq!(ix.accounts.from, pool.vault);
        assert_eq!(ix.accounts.to, destination);
        assert_eq!(ix.accounts.authority, address);
        assert_eq!(ix.signer_seeds, vec![destination.bytes.to_vec(), vec![pool.bump]]);
        assert_eq!(ledger.execute(&program_id(), &ix), Ok(()));
        assert_eq!(ledger.account(&pool.vault).unwrap().amount, 0);
        assert_eq!(ledger.account(&destination).unwrap().amount, 525);
    }
}

#[test]
fn insecure_withdrawal_lets_a_second_pool_drain_the_first_vault() {
    let mint = addr(80);
    let (authority, bump) = find_discriminator(&single_seed(&mint), &program_id()).unwrap();
    let victim_vault = token_account(addr(81), mint, authority, 1000);
    let victim_destination = token_account(addr(82), mint, addr(99), 0);
    let attacker_destination = token_account(addr(83), mint, addr(98), 0);
    let mut ledger = Ledger::new();
    assert!(ledger.open_account(victim_vault));
    assert!(ledger.open_account(victim_destination));
    assert!(ledger.open_account(attacker_destination));

    let legitimate = initialize_pool(
        &InitializePool { pool: addr(84), mint, vault: addr(81), withdraw_destination: addr(82) },
        bump,
    );
    let attacker = initialize_pool(
        &InitializePool { pool: addr(85), mint, vault: addr(81), withdraw_destination: addr(83) },
        bump,
    );
    assert_eq!(legitimate.bump, attacker.bump);

    let ctx = WithdrawTokens {
        pool: attacker,
        vault: victim_vault,
        withdraw_destination: attacker_destination,
        authority,
    };
    let ix = withdraw_insecure(&ctx).unwrap();
    assert_eq!(ix.amount, 1000);
    assert_eq!(ledger.execute(&program_id(), &ix), Ok(()));
    assert_eq!(ledger.account(&addr(81)).unwrap().amount, 0);
    assert_eq!(ledger.account(&addr(83)).unwrap().amount, 1000);
    assert_eq!(ledger.account(&addr(82)).unwrap().amount, 0);

    let (address, secure, vault) = secure_pool(addr(86), mint, addr(82));
    let ctx = WithdrawTokensSecure {
        program_id: program_id(),
        pool_address: address,
        pool: secure,
        vault: TokenAccountState { amount: 1000, ..vault },
        withdraw_destination: attacker_destination,
    };
    assert_eq!(withdraw_secure(&ctx).unwrap_err(), PoolError::RelationMismatch);
}

#[test]
fn insecure_withdrawal_checks_the_recorded_accounts() {
    let pool = TokenPool { vault: addr(1), mint: addr(2), withdraw_destination: addr(3), bump: 255 };
    let ctx = WithdrawTokens {
        pool,
        vault: token_account(addr(1), addr(2), addr(9), 10),
        withdraw_destination: token_account(addr(4), addr(2), addr(9), 0),
        authority: addr(9),
    };
    assert_eq!(withdraw_insecure(&ctx).unwrap_err(), PoolError::RelationMismatch);
    let ctx = WithdrawTokens { withdraw_destination: token_account(addr(3), addr(2), addr(9), 0), ..ctx };
    let ix = withdraw_insecure(&ctx).unwrap();
    assert_eq!(ix.accounts.authority, addr(9));
    assert_eq!(ix.signer_seeds, vec![addr(2).bytes.to_vec(), vec![255]]);
    assert_eq!(ix.amount, 10);
}

#[test]
fn ledger_refuses_what_the_token_program_refuses() {
    let mint = addr(90);
    let (authority, bump) = find_discriminator(&single_seed(&mint), &program_id()).unwrap();
    let mut ledger = Ledger::new();
    assert!(ledger.open_account(token_account(addr(91), mint, authority, 10)));
    assert!(ledger.open_account(token_account(addr(92), mint, addr(99), u64::MAX - 5)));
    assert!(ledger.open_account(token_account(addr(93), addr(94), addr(99), 0)));
    assert!(!ledger.open_account(token_account(addr(93), mint, addr(99), 0)));
    let seeds = vec![mint.bytes.to_vec(), vec![bump]];
    let ix = |to: Address, authority: Address, signer_seeds: Vec<Vec<u8>>, amount: u64| TransferInstruction {
        accounts: TransferAccounts { from: addr(91), to, authority },
        signer_seeds,
        amount,
    };
    let pid = program_id();
    assert_eq!(ledger.execute(&pid, &ix(addr(92), authority, seeds.clone(), 11)), Err(PoolError::InsufficientBalance));
    assert_eq!(ledger.execute(&pid, &ix(addr(92), authority, seeds.clone(), 6)), Err(PoolError::TransferRejected));
    assert_eq!(ledger.execute(&pid, &ix(addr(93), authority, seeds.clone(), 1)), Err(PoolError::TransferRejected));
    assert_eq!(ledger.execute(&pid, &ix(addr(95), authority, seeds.clone(), 1)), Err(PoolError::TransferRejected));
    assert_eq!(ledger.execute(&pid, &ix(addr(92), addr(99), seeds.clone(), 1)), Err(PoolError::TransferRejected));
    let other = vec![mint.bytes.to_vec(), vec![bump.wrapping_sub(1)]];
    assert_eq!(ledger.execute(&pid, &ix(addr(92), authority, other, 1)), Err(PoolError::TransferRejected));
    let long = vec![vec![0u8; 33], vec![bump]];
    assert_eq!(ledger.execute(&pid, &ix(addr(92), authority, long, 1)), Err(PoolError::TransferRejected));
    assert_eq!(ledger.account(&addr(91)).unwrap().amount, 10);
    assert_eq!(ledger.execute(&pid, &ix(addr(92), authority, seeds.clone(), 5)), Ok(()));
    assert_eq!(ledger.account(&addr(91)).unwrap().amount, 5);
    assert_eq!(ledger.account(&addr(92)).unwrap().amount, u64::MAX);
    assert_eq!(ledger.execute(&pid, &ix(addr(91), authority, seeds, 5)), Ok(()));
    assert_eq!(ledger.account(&addr(91)).unwrap().amount, 5);
}
