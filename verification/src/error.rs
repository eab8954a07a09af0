//! The errors that the pool's operations report.

use vstd::prelude::*;

verus! {

/// Why an operation was refused. An operation that returns one of these has
/// changed nothing.
#[derive(Clone, Copy, Debug, PartialEq, Eq, Structural)]
pub enum ErrorCode {
    /// The amount is zero.
    InvalidAmount,
    /// The fee exceeds 10000 basis points.
    FeeTooHigh,
    /// The caller is not the identity that the operation is reserved for.
    Unauthorized,
    /// The account belongs to another owner.
    InvalidOwner,
    /// The pool is paused.
    ProtocolPaused,
    /// A counter or a product would leave the range of `u64`.
    ArithmeticOverflow,
    /// More was asked for than is held.
    InsufficientBalance,
    /// The fee would exceed the amount it is taken from.
    AmountTooSmall,
    /// The nullifier has been consumed before.
    NullifierAlreadyUsed,
    /// The proof was not accepted.
    InvalidProof,
    /// The registry holds as many entries as it can.
    RegistryFull,
    /// The registry is bound to another pool.
    InvalidRegistry,
}

impl ErrorCode {
    /// The text that goes with the error.
    pub open spec fn text(&self) -> Seq<char> {
        match self {
            ErrorCode::InvalidAmount => "Amount must be greater than zero."@,
            ErrorCode::FeeTooHigh => "Fee basis points too high."@,
            ErrorCode::Unauthorized => "Unauthorized."@,
            ErrorCode::InvalidOwner => "Account belongs to another owner."@,
            ErrorCode::ProtocolPaused => "Protocol is paused."@,
            ErrorCode::ArithmeticOverflow => "Arithmetic overflow."@,
            ErrorCode::InsufficientBalance => "Insufficient balance."@,
            ErrorCode::AmountTooSmall => "Amount too small."@,
            ErrorCode::NullifierAlreadyUsed => "Nullifier already used."@,
            ErrorCode::InvalidProof => "Invalid proof."@,
            ErrorCode::RegistryFull => "Registry full."@,
            ErrorCode::InvalidRegistry => "Registry bound to another pool."@,
        }
    }

    /// The text that goes with the error.
    pub fn message(&self) -> (r: &'static str)
        ensures
            r@ == self.text(),
    {
        match self {
            ErrorCode::InvalidAmount => "Amount must be greater than zero.",
            ErrorCode::FeeTooHigh => "Fee basis points too high.",
            ErrorCode::Unauthorized => "Unauthorized.",
            ErrorCode::InvalidOwner => "Account belongs to another owner.",
            ErrorCode::ProtocolPaused => "Protocol is paused.",
            ErrorCode::ArithmeticOverflow => "Arithmetic overflow.",
            ErrorCode::InsufficientBalance => "Insufficient balance.",
            ErrorCode::AmountTooSmall => "Amount too small.",
            ErrorCode::NullifierAlreadyUsed => "Nullifier already used.",
            ErrorCode::InvalidProof => "Invalid proof.",
            ErrorCode::RegistryFull => "Registry full.",
            ErrorCode::InvalidRegistry => "Registry bound to another pool.",
        }
    }
}

} // verus!
