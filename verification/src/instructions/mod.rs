//! The pool's operations. Each works on the records it is handed and on
//! nothing else, and either goes through whole or changes nothing.
//!
//! A pool is run in one of two ways. It either keeps two registries, one of
//! commitments and one of consumed nullifiers (`initialize_pool`,
//! `deposit_private`, `withdraw_private`), or it keeps none and gives every
//! consumed nullifier a record of its own (`initialize`, `deposit`,
//! `withdraw`). Transfers move a balance blob (`transfer_private`) or a plain
//! amount (`transfer`); they and the admin's operations are the same for
//! both.

pub mod admin;
pub mod deposit;
pub mod deposit_private;
pub mod init_privacy_account;
pub mod initialize;
pub mod initialize_pool;
pub mod reveal_balance;
pub mod transfer;
pub mod transfer_private;
pub mod withdraw;
pub mod withdraw_private;

pub use admin::{admin_pause, admin_set_fees, admin_unpause, AdminPause, AdminSetFees, AdminUnpause};
pub use deposit::{deposit, Deposit};
pub use deposit_private::{deposit_private, deposit_with_commitment, DepositEvent, DepositPrivate};
pub use init_privacy_account::{init_privacy_account, InitPrivacyAccount};
pub use initialize::{initialize, Initialize};
pub use initialize_pool::{initialize_pool, InitializePool};
pub use reveal_balance::reveal_balance;
pub use transfer::{transfer, Transfer};
pub use transfer_private::{transfer_private, TransferPrivate};
pub use withdraw::{withdraw, Withdraw};
pub use withdraw_private::{withdraw_private, WithdrawPrivate, WithdrawalEvent};
