//! What the pool keeps: its own record, the accounts, and the two registries.

pub mod commitment_registry;
pub mod nullifier_registry;
pub mod pool;
pub mod privacy_account;
pub mod pubkey;

pub use commitment_registry::CommitmentRegistry;
pub use nullifier_registry::{NullifierRegistry, NullifierSet};
pub use pool::PrivacyPool;
pub use privacy_account::PrivacyAccount;
pub use pubkey::Pubkey;
