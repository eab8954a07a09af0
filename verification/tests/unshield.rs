use psol::error::ErrorCode;
use psol::instructions::{withdraw, withdraw_private, Withdraw, WithdrawPrivate};
use psol::state::{NullifierRegistry, NullifierSet, PrivacyAccount, PrivacyPool, Pubkey};

const N1: [u8; 32] = [0x11; 32];
const N2: [u8; 32] = [0x22; 32];

fn pool_key() -> Pubkey {
    Pubkey::new([2u8; 32])
}

fn owner() -> Pubkey {
    Pubkey::new([3u8; 32])
}

fn good_proof() -> Vec<u8> {
    vec![9u8; 64]
}

fn pool(total_locked: u64) -> PrivacyPool {
    PrivacyPool {
        admin: Pubkey::new([1u8; 32]),
        vault_bump: 255,
        commitment_bump: 254,
        nullifier_bump: 253,
        paused: false,
        fee_bps: 500,
        total_locked,
    }
}

fn account(balance: u64) -> PrivacyAccount {
    let mut a = PrivacyAccount::new(owner(), [6u8; 32]);
    a.balance = balance;
    a.total_deposits = balance;
    a
}

fn ctx() -> WithdrawPrivate {
    WithdrawPrivate {
        pool: pool(1_140_000),
        pool_key: pool_key(),
        nullifier_registry: NullifierRegistry::new(pool_key()),
        privacy_account: account(1_140_000),
        owner: owner(),
    }
}

fn keyed() -> Withdraw {
    Withdraw {
        pool: pool(1_140_000),
        pool_key: pool_key(),
        privacy_account: account(1_140_000),
        nullifier_account: None,
        owner: owner(),
    }
}

#[test]
fn unshield_from_a_paused_pool_is_refused() {
    let mut c = ctx();
    c.pool.paused = true;
    let before = c.clone();
    assert_eq!(withdraw_private(&mut c, 1_000, N1, &good_proof(), 1), Err(ErrorCode::ProtocolPaused));
    assert_eq!(withdraw_private(&mut c, 0, N1, &[], 1), Err(ErrorCode::ProtocolPaused));
    assert_eq!(c, before);
}

#[test]
fn unshield_of_nothing_is_refused() {
    let mut c = ctx();
    let before = c.clone();
    assert_eq!(withdraw_private(&mut c, 0, N1, &good_proof(), 1), Err(ErrorCode::InvalidAmount));
    assert_eq!(c, before);
}

#[test]
fn unshield_of_more_than_the_pool_holds_is_refused() {
    let mut c = ctx();
    let before = c.clone();
    for amount in [1_140_001u64, 2_000_000, u64::MAX] {
        assert_eq!(
            withdraw_private(&mut c, amount, N1, &good_proof(), 1),
            Err(ErrorCode::InsufficientBalance)
        );
        // With a bad proof as well, the amount is what is reported.
        assert_eq!(
            withdraw_private(&mut c, amount, N1, &[], 1),
            Err(ErrorCode::InsufficientBalance)
        );
        assert_eq!(c, before);
    }
    assert!(withdraw_private(&mut c, 1_140_000, N1, &good_proof(), 1).is_ok());
    assert_eq!(c.pool.total_locked, 0);
}

#[test]
fn unshield_from_someone_elses_account_is_refused() {
    let mut c = ctx();
    c.owner = Pubkey::new([4u8; 32]);
    let before = c.clone();
    assert_eq!(withdraw_private(&mut c, 1_000, N1, &good_proof(), 1), Err(ErrorCode::InvalidOwner));
    assert_eq!(c, before);
}

#[test]
fn unshield_without_an_accepted_proof_is_refused() {
    let mut c = ctx();
    let before = c.clone();
    for bad in [vec![], vec![1u8; 31], vec![0u8; 64]] {
        assert_eq!(withdraw_private(&mut c, 1_000, N1, &bad, 1), Err(ErrorCode::InvalidProof));
        assert_eq!(c, before);
    }
    assert!(!c.nullifier_registry.contains(&N1));
}

#[test]
fn unshield_against_a_foreign_or_full_registry_is_refused() {
    let mut c = ctx();
    c.nullifier_registry = NullifierRegistry::new(Pubkey::new([9u8; 32]));
    let before = c.clone();
    assert_eq!(withdraw_private(&mut c, 1_000, N1, &good_proof(), 1), Err(ErrorCode::InvalidRegistry));
    assert_eq!(c, before);

    let mut c = ctx();
    c.nullifier_registry.count = 1024;
    let before = c.clone();
    assert_eq!(withdraw_private(&mut c, 1_000, N1, &good_proof(), 1), Err(ErrorCode::RegistryFull));
    assert_eq!(c, before);
}

#[test]
fn unshield_of_more_than_the_account_holds_is_refused() {
    let mut c = ctx();
    c.privacy_account.balance = 999;
    let before = c.clone();
    assert_eq!(
        withdraw_private(&mut c, 1_000, N1, &good_proof(), 1),
        Err(ErrorCode::InsufficientBalance)
    );
    assert_eq!(c, before);
    assert!(!c.nullifier_registry.contains(&N1));
}

#[test]
fn unshield_whose_fee_cannot_be_computed_is_refused() {
    let mut c = ctx();
    c.pool.total_locked = u64::MAX;
    c.privacy_account.balance = u64::MAX;
    let before = c.clone();
    assert_eq!(
        withdraw_private(&mut c, u64::MAX, N1, &good_proof(), 1),
        Err(ErrorCode::ArithmeticOverflow)
    );
    assert_eq!(c, before);
    c.pool.fee_bps = 20_000;
    let before = c.clone();
    assert_eq!(withdraw_private(&mut c, 10, N1, &good_proof(), 1), Err(ErrorCode::AmountTooSmall));
    assert_eq!(c, before);
}

#[test]
fn unshield_that_overflows_the_withdrawal_total_is_refused() {
    let mut c = ctx();
    c.privacy_account.total_withdrawals = u64::MAX - 5;
    let before = c.clone();
    assert_eq!(withdraw_private(&mut c, 6, N1, &good_proof(), 1), Err(ErrorCode::ArithmeticOverflow));
    assert_eq!(c, before);
    assert!(withdraw_private(&mut c, 5, N1, &good_proof(), 1).is_ok());
    assert_eq!(c.privacy_account.total_withdrawals, u64::MAX);
}

#[test]
fn a_nullifier_pays_out_once_whatever_the_account() {
    let mut c = ctx();
    withdraw_private(&mut c, 1_000, N1, &good_proof(), 1).unwrap();
    // Another owner's account, against the same registry.
    let other = Pubkey::new([5u8; 32]);
    let mut second = WithdrawPrivate {
        pool: c.pool,
        pool_key: pool_key(),
        nullifier_registry: c.nullifier_registry.clone(),
        privacy_account: {
            let mut a = PrivacyAccount::new(other, [0u8; 32]);
            a.balance = 500;
            a
        },
        owner: other,
    };
    let before = second.clone();
    assert_eq!(
        withdraw_private(&mut second, 500, N1, &good_proof(), 2),
        Err(ErrorCode::NullifierAlreadyUsed)
    );
    assert_eq!(second, before);
    assert!(withdraw_private(&mut second, 500, N2, &good_proof(), 2).is_ok());
}

#[test]
fn keyed_unshield_fills_the_nullifiers_place() {
    let mut c = keyed();
    let event = withdraw(&mut c, 950_000, N1, &good_proof(), 90, 251).unwrap();
    assert_eq!(event.fee, 47_500);
    assert_eq!(event.net_amount, 902_500);
    assert_eq!(event.total_locked, 190_000);
    assert_eq!(c.pool.total_locked, 190_000);
    assert_eq!(c.privacy_account.balance, 190_000);
    assert_eq!(c.privacy_account.total_withdrawals, 950_000);
    assert_eq!(
        c.nullifier_account,
        Some(NullifierSet { pool: pool_key(), nullifier: N1, slot: 90, bump: 251 })
    );
    let before = c;
    assert_eq!(
        withdraw(&mut c, 100_000, N1, &good_proof(), 91, 251),
        Err(ErrorCode::NullifierAlreadyUsed)
    );
    assert_eq!(c, before);
}

#[test]
fn keyed_unshield_runs_the_same_checks() {
    let mut c = keyed();
    c.pool.paused = true;
    assert_eq!(withdraw(&mut c, 1, N1, &good_proof(), 1, 0), Err(ErrorCode::ProtocolPaused));
    let mut c = keyed();
    let before = c;
    assert_eq!(withdraw(&mut c, 0, N1, &good_proof(), 1, 0), Err(ErrorCode::InvalidAmount));
    assert_eq!(
        withdraw(&mut c, 1_140_001, N1, &good_proof(), 1, 0),
        Err(ErrorCode::InsufficientBalance)
    );
    assert_eq!(withdraw(&mut c, 1, N1, &[0u8; 64], 1, 0), Err(ErrorCode::InvalidProof));
    c.owner = Pubkey::new([4u8; 32]);
    assert_eq!(withdraw(&mut c, 1, N1, &good_proof(), 1, 0), Err(ErrorCode::InvalidOwner));
    c.owner = owner();
    assert_eq!(c, before);
    c.privacy_account.balance = 0;
    assert_eq!(withdraw(&mut c, 1, N1, &good_proof(), 1, 0), Err(ErrorCode::InsufficientBalance));
    assert_eq!(c.nullifier_account, None);
}
