use psol::error::ErrorCode;
use psol::instructions::{transfer, transfer_private, Transfer, TransferPrivate};
use psol::state::{PrivacyAccount, PrivacyPool, Pubkey};

fn sender() -> Pubkey {
    Pubkey::new([3u8; 32])
}

fn recipient() -> Pubkey {
    Pubkey::new([4u8; 32])
}

fn good_proof() -> Vec<u8> {
    vec![9u8; 32]
}

fn plain() -> Transfer {
    let c = ctx();
    Transfer {
        pool: c.pool,
        sender_account: c.sender_account,
        recipient_account: c.recipient_account,
        sender: c.sender,
    }
}

fn ctx() -> TransferPrivate {
    let mut from = PrivacyAccount::new(sender(), [1u8; 32]);
    from.balance = 1_000;
    from.encrypted_balance = [0x51; 64];
    from.commitment = [0xa1; 32];
    let mut to = PrivacyAccount::new(recipient(), [2u8; 32]);
    to.balance = 10;
    to.encrypted_balance = [0x52; 64];
    to.commitment = [0xa2; 32];
    TransferPrivate {
        pool: PrivacyPool {
            admin: Pubkey::new([1u8; 32]),
            vault_bump: 255,
            commitment_bump: 254,
            nullifier_bump: 253,
            paused: false,
            fee_bps: 500,
            total_locked: 1_010,
        },
        sender_account: from,
        recipient_account: to,
        sender: sender(),
    }
}

#[test]
fn plain_transfer_moves_the_amount() {
    let mut c = plain();
    let before = c;
    assert_eq!(transfer(&mut c, 400, &good_proof(), 50), Ok(()));
    assert_eq!(c.sender_account.balance, 600);
    assert_eq!(c.recipient_account.balance, 410);
    assert_eq!(c.sender_account.last_update, 50);
    assert_eq!(c.recipient_account.last_update, 50);
    // Nothing enters or leaves the pool, and nothing else changes.
    assert_eq!(c.pool, before.pool);
    assert_eq!(c.pool.total_locked, 1_010);
    let mut expected = before;
    expected.sender_account.balance = 600;
    expected.sender_account.last_update = 50;
    expected.recipient_account.balance = 410;
    expected.recipient_account.last_update = 50;
    assert_eq!(c, expected);
}

#[test]
fn plain_transfer_of_everything_and_of_nothing() {
    let mut c = plain();
    assert_eq!(transfer(&mut c, 1_000, &good_proof(), 1), Ok(()));
    assert_eq!(c.sender_account.balance, 0);
    assert_eq!(c.recipient_account.balance, 1_010);
    assert_eq!(transfer(&mut c, 0, &good_proof(), 2), Ok(()));
    assert_eq!(c.sender_account.balance, 0);
    assert_eq!(c.recipient_account.balance, 1_010);
    assert_eq!(c.sender_account.last_update, 2);
}

#[test]
fn plain_transfer_refusals() {
    let mut c = plain();
    let before = c;
    assert_eq!(transfer(&mut c, 1_001, &good_proof(), 1), Err(ErrorCode::InsufficientBalance));
    assert_eq!(transfer(&mut c, 1, &[], 1), Err(ErrorCode::InvalidProof));
    assert_eq!(transfer(&mut c, 1, &[0u8; 32], 1), Err(ErrorCode::InvalidProof));
    assert_eq!(transfer(&mut c, 1, &[1u8; 31], 1), Err(ErrorCode::InvalidProof));
    assert_eq!(c, before);

    c.sender = recipient();
    assert_eq!(transfer(&mut c, 1, &good_proof(), 1), Err(ErrorCode::Unauthorized));
    c.sender = sender();
    assert_eq!(c, before);

    c.pool.paused = true;
    assert_eq!(transfer(&mut c, 1, &good_proof(), 1), Err(ErrorCode::ProtocolPaused));
    c.pool.paused = false;
    assert_eq!(c, before);

    c.recipient_account.balance = u64::MAX;
    let before = c;
    assert_eq!(transfer(&mut c, 1, &good_proof(), 1), Err(ErrorCode::ArithmeticOverflow));
    assert_eq!(c, before);
}

#[test]
fn blob_transfer_touches_the_blobs_and_the_stamps() {
    let mut c = ctx();
    let before = c;
    assert_eq!(transfer_private(&mut c, [0x77; 64], &good_proof(), 60), Ok(()));
    // The blob algebra keeps the left operand.
    assert_eq!(c.sender_account.encrypted_balance, [0x51; 64]);
    assert_eq!(c.recipient_account.encrypted_balance, [0x52; 64]);
    let mut expected = before;
    expected.sender_account.last_update = 60;
    expected.recipient_account.last_update = 60;
    assert_eq!(c, expected);
    assert_eq!(c.sender_account.balance, 1_000);
    assert_eq!(c.recipient_account.balance, 10);
    assert_eq!(c.pool.total_locked, 1_010);
}

#[test]
fn blob_transfer_refusals() {
    let mut c = ctx();
    let before = c;
    assert_eq!(transfer_private(&mut c, [0x77; 64], &[], 1), Err(ErrorCode::InvalidProof));
    assert_eq!(transfer_private(&mut c, [0x77; 64], &[0u8; 64], 1), Err(ErrorCode::InvalidProof));
    c.sender = recipient();
    assert_eq!(
        transfer_private(&mut c, [0x77; 64], &good_proof(), 1),
        Err(ErrorCode::Unauthorized)
    );
    c.sender = sender();
    c.pool.paused = true;
    assert_eq!(
        transfer_private(&mut c, [0x77; 64], &good_proof(), 1),
        Err(ErrorCode::ProtocolPaused)
    );
    c.pool.paused = false;
    assert_eq!(c, before);
}
