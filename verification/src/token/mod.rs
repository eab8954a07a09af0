//! The wrapped token that stands for shielded value: one token is minted for
//! each unit that enters its vault net of the fee, and burnt when it leaves.

pub mod error;
pub mod instructions;
pub mod state;

pub use error::ErrorCode;
pub use instructions::{
    configure, initialize_token, nullifier_marker, swap_to_psol, swap_to_sol, transfer_psol,
    InitializeToken, SwapToPsol, SwapToPsolEvent, SwapToSol, SwapToSolEvent,
    TokenVaultInitialized, TransferPsol,
};
pub use state::{Config, TokenPrivacyLink, TokenVault};
