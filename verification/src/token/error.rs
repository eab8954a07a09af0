//! The errors that the wrapped token's operations report.

use vstd::prelude::*;

verus! {

/// Why an operation on the wrapped token was refused.
#[derive(Clone, Copy, Debug, PartialEq, Eq, Structural)]
pub enum ErrorCode {
    /// Tokens do not move from wallet to wallet.
    TransfersDisabled,
    /// The token's configuration contradicts itself.
    InvalidConfig,
    /// The pool is not the one that the token is configured for.
    InvalidPool,
    /// The program is not the one that the token is configured for.
    InvalidProgram,
    /// The mint is under another authority than the token's own.
    InvalidMintAuthority,
    /// The amount is zero.
    InvalidAmount,
    /// More was asked for than is held.
    InsufficientBalance,
    /// A counter or a product would leave the range of `u64`.
    ArithmeticOverflow,
    /// The caller is not the identity that the operation is reserved for.
    Unauthorized,
    /// The vault is paused.
    ProtocolPaused,
}

impl ErrorCode {
    /// The text that goes with the error.
    pub open spec fn text(&self) -> Seq<char> {
        match self {
            ErrorCode::TransfersDisabled => "Direct pSOL transfers are disabled"@,
            ErrorCode::InvalidConfig => "Invalid pSOL configuration"@,
            ErrorCode::InvalidPool => "Pool mismatch"@,
            ErrorCode::InvalidProgram => "Program mismatch"@,
            ErrorCode::InvalidMintAuthority => "Mint authority must be the PDA"@,
            ErrorCode::InvalidAmount => "Invalid amount"@,
            ErrorCode::InsufficientBalance => "Insufficient balance"@,
            ErrorCode::ArithmeticOverflow => "Arithmetic overflow"@,
            ErrorCode::Unauthorized => "Unauthorized"@,
            ErrorCode::ProtocolPaused => "Protocol is paused"@,
        }
    }

    /// The text that goes with the error.
    pub fn message(&self) -> (r: &'static str)
        ensures
            r@ == self.text(),
    {
        match self {
            ErrorCode::TransfersDisabled => "Direct pSOL transfers are disabled",
            ErrorCode::InvalidConfig => "Invalid pSOL configuration",
            ErrorCode::InvalidPool => "Pool mismatch",
            ErrorCode::InvalidProgram => "Program mismatch",
            ErrorCode::InvalidMintAuthority => "Mint authority must be the PDA",
            ErrorCode::InvalidAmount => "Invalid amount",
            ErrorCode::InsufficientBalance => "Insufficient balance",
            ErrorCode::ArithmeticOverflow => "Arithmetic overflow",
            ErrorCode::Unauthorized => "Unauthorized",
            ErrorCode::ProtocolPaused => "Protocol is paused",
        }
    }
}

} // verus!
