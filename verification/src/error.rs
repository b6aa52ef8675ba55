//! The reasons for which an operation is refused.

use vstd::prelude::*;

verus! {

/// Why an operation on a surge was refused. A refused operation changes
/// nothing.
#[derive(Clone, Copy, Debug, PartialEq, Eq, Structural)]
pub enum ErrorCode {
    /// The record to create exists already.
    AlreadyInitialized,
    /// The caller is not the creator of the surge.
    NotAuthority,
    /// The receipt has been paid out before.
    AlreadyClaimed,
    /// The caller is not the owner of the receipt.
    NotAuthorizedToClaim,
    /// The surge has been deployed, or the deposit would pass its threshold.
    DepositsClosed,
    /// The surge has not been deployed yet.
    ClaimNotOpen,
    /// A surge needs a threshold above zero.
    InvalidThreshold,
    /// A fee, a share or a counter does not fit in 64 bits.
    Overflow,
    /// The pool of the surge has been converted before.
    AlreadyDeployed,
    /// The receipt is filed under another surge or another contributor.
    ReceiptMismatch,
    /// The vault holds none of the asset after the purchase.
    NothingBought,
}

impl ErrorCode {
    /// The text shown to the caller for this error.
    pub open spec fn message_text(self) -> Seq<char> {
        match self {
            ErrorCode::AlreadyInitialized => "Account has already been initialized"@,
            ErrorCode::NotAuthority => "The signer is not the authority of this surge account."@,
            ErrorCode::AlreadyClaimed => "The signer has already claimed funds."@,
            ErrorCode::NotAuthorizedToClaim => "Not authorized to claim."@,
            ErrorCode::DepositsClosed => "deposits closed"@,
            ErrorCode::ClaimNotOpen => "Funds not deployed yet"@,
            ErrorCode::InvalidThreshold => "Threshold must be greater than zero"@,
            ErrorCode::Overflow => "Arithmetic overflow"@,
            ErrorCode::AlreadyDeployed => "Funds have already been deployed"@,
            ErrorCode::ReceiptMismatch => "Receipt belongs to another surge or owner"@,
            ErrorCode::NothingBought => "The purchase delivered no tokens"@,
        }
    }

    /// Returns the text shown to the caller for this error.
    pub fn message(&self) -> (text: &'static str)
        ensures
            text@ == self.message_text(),
    {
        match self {
            ErrorCode::AlreadyInitialized => "Account has already been initialized",
            ErrorCode::NotAuthority => "The signer is not the authority of this surge account.",
            ErrorCode::AlreadyClaimed => "The signer has already claimed funds.",
            ErrorCode::NotAuthorizedToClaim => "Not authorized to claim.",
            ErrorCode::DepositsClosed => "deposits closed",
            ErrorCode::ClaimNotOpen => "Funds not deployed yet",
            ErrorCode::InvalidThreshold => "Threshold must be greater than zero",
            ErrorCode::Overflow => "Arithmetic overflow",
            ErrorCode::AlreadyDeployed => "Funds have already been deployed",
            ErrorCode::ReceiptMismatch => "Receipt belongs to another surge or owner",
            ErrorCode::NothingBought => "The purchase delivered no tokens",
        }
    }
}

} // verus!
