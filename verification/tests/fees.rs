use psol::error::ErrorCode;
use psol::fee::{split_fee, BPS_DENOMINATOR, MAX_FEE_BPS};
use psol::state::{PrivacyPool, Pubkey};

fn pool(fee_bps: u16) -> PrivacyPool {
    PrivacyPool {
        admin: Pubkey::new([1u8; 32]),
        vault_bump: 255,
        commitment_bump: 254,
        nullifier_bump: 253,
        paused: false,
        fee_bps,
        total_locked: 0,
    }
}

#[test]
fn fee_constants() {
    assert_eq!(BPS_DENOMINATOR, 10_000);
    assert_eq!(MAX_FEE_BPS, 10_000);
}

#[test]
fn fee_is_rounded_down() {
    // 19_999 * 500 / 10_000 = 999.95
    assert_eq!(split_fee(19_999, 500), Ok((19_000, 999)));
    // 1 * 9_999 / 10_000 = 0.9999
    assert_eq!(split_fee(1, 9_999), Ok((1, 0)));
    assert_eq!(split_fee(3, 3_334), Ok((2, 1)));
    assert_eq!(split_fee(3, 3_333), Ok((3, 0)));
}

#[test]
fn fee_and_net_add_up_to_the_amount() {
    for fee_bps in [0u16, 1, 10, 499, 500, 2_500, 9_999, 10_000] {
        for amount in [0u64, 1, 2, 9_999, 10_000, 10_001, 1_000_000, 1_844_674_407_370_955] {
            let (net, fee) = split_fee(amount, fee_bps).unwrap();
            assert_eq!(net + fee, amount);
            let exact = (u128::from(amount) * u128::from(fee_bps) / 10_000) as u64;
            assert_eq!(fee, exact);
            assert_eq!(pool(fee_bps).apply_fee(amount), Ok((net, fee)));
        }
    }
}

#[test]
fn fee_at_the_extremes() {
    assert_eq!(split_fee(0, 500), Ok((0, 0)));
    assert_eq!(split_fee(1_000_000, 0), Ok((1_000_000, 0)));
    assert_eq!(split_fee(1_000_000, 10_000), Ok((0, 1_000_000)));
    assert_eq!(split_fee(u64::MAX, 0), Ok((u64::MAX, 0)));
    assert_eq!(split_fee(u64::MAX, 1), Ok((u64::MAX - 1_844_674_407_370_955, 1_844_674_407_370_955)));
}

#[test]
fn fee_product_out_of_range_is_refused() {
    assert_eq!(split_fee(u64::MAX, 2), Err(ErrorCode::ArithmeticOverflow));
    assert_eq!(split_fee(u64::MAX, 10_000), Err(ErrorCode::ArithmeticOverflow));
    // The largest amount whose product with 10_000 still fits.
    let edge = u64::MAX / 10_000;
    assert_eq!(split_fee(edge, 10_000), Ok((0, edge)));
    assert_eq!(split_fee(edge + 1, 10_000), Err(ErrorCode::ArithmeticOverflow));
    assert_eq!(pool(10_000).apply_fee(edge + 1), Err(ErrorCode::ArithmeticOverflow));
}

#[test]
fn fee_beyond_the_amount_is_refused() {
    // Only a rate above 10_000 basis points can ask for more than the amount.
    assert_eq!(split_fee(1_000, 10_001), Ok((0, 1_000)));
    assert_eq!(split_fee(10_000, 10_001), Err(ErrorCode::AmountTooSmall));
    assert_eq!(split_fee(1, 20_000), Err(ErrorCode::AmountTooSmall));
    assert_eq!(pool(20_000).apply_fee(1), Err(ErrorCode::AmountTooSmall));
}

#[test]
fn set_fee_accepts_up_to_the_whole_amount() {
    let mut p = pool(500);
    assert_eq!(p.set_fee(10_000), Ok(()));
    assert_eq!(p.fee_bps, 10_000);
    assert_eq!(p.set_fee(0), Ok(()));
    assert_eq!(p.fee_bps, 0);
    let before = p;
    assert_eq!(p.set_fee(10_001), Err(ErrorCode::FeeTooHigh));
    assert_eq!(p.set_fee(u16::MAX), Err(ErrorCode::FeeTooHigh));
    assert_eq!(p, before);
}

#[test]
fn lock_and_unlock_move_the_total() {
    let mut p = pool(500);
    assert_eq!(p.lock(950_000), Ok(()));
    assert_eq!(p.total_locked, 950_000);
    assert_eq!(p.unlock(50_000), Ok(()));
    assert_eq!(p.total_locked, 900_000);
    let before = p;
    assert_eq!(p.unlock(900_001), Err(ErrorCode::InsufficientBalance));
    assert_eq!(p, before);
    assert_eq!(p.lock(u64::MAX), Err(ErrorCode::ArithmeticOverflow));
    assert_eq!(p, before);
    assert_eq!(p.unlock(900_000), Ok(()));
    assert_eq!(p.total_locked, 0);
    assert_eq!(p.lock(u64::MAX), Ok(()));
    assert_eq!(p.total_locked, u64::MAX);
}

#[test]
fn pause_and_admin_checks() {
    let mut p = pool(500);
    assert_eq!(p.check_not_paused(), Ok(()));
    p.paused = true;
    assert_eq!(p.check_not_paused(), Err(ErrorCode::ProtocolPaused));
    assert_eq!(p.check_admin(&Pubkey::new([1u8; 32])), Ok(()));
    assert_eq!(p.check_admin(&Pubkey::new([2u8; 32])), Err(ErrorCode::Unauthorized));
    assert_eq!(p.check_admin(&Pubkey::default()), Err(ErrorCode::Unauthorized));
}

#[test]
fn error_texts() {
    assert_eq!(ErrorCode::InvalidAmount.message(), "Amount must be greater than zero.");
    assert_eq!(ErrorCode::FeeTooHigh.message(), "Fee basis points too high.");
    assert_eq!(ErrorCode::Unauthorized.message(), "Unauthorized.");
    assert_eq!(ErrorCode::InvalidOwner.message(), "Account belongs to another owner.");
    assert_eq!(ErrorCode::ProtocolPaused.message(), "Protocol is paused.");
    assert_eq!(ErrorCode::ArithmeticOverflow.message(), "Arithmetic overflow.");
    assert_eq!(ErrorCode::InsufficientBalance.message(), "Insufficient balance.");
    assert_eq!(ErrorCode::AmountTooSmall.message(), "Amount too small.");
    assert_eq!(ErrorCode::NullifierAlreadyUsed.message(), "Nullifier already used.");
    assert_eq!(ErrorCode::InvalidProof.message(), "Invalid proof.");
    assert_eq!(ErrorCode::RegistryFull.message(), "Registry full.");
    assert_eq!(ErrorCode::InvalidRegistry.message(), "Registry bound to another pool.");
}
