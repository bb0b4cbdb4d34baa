//! Why an operation is refused.

use vstd::prelude::*;

verus! {

/// The escrow's own reasons to refuse an operation.
#[derive(Clone, Copy, Debug, PartialEq, Eq, Structural)]
pub enum ErrorCode {
    /// Tax rate exceeds maximum of 2000 basis points (20%).
    TaxTooHigh,
    /// Judge fee exceeds maximum of 20%.
    FeeTooHigh,
    /// Invalid treasury address.
    InvalidTreasury,
    /// Only the judge can perform this action.
    UnauthorizedConfigOwner,
    /// Only the judge can perform this action.
    UnauthorizedConfigJudge,
    /// Config account does not match the expected address.
    InvalidConfigAccount,
    /// Operation would result in insufficient funds.
    InsufficientFunds,
    /// The caller has no part in the escrow, or not yet.
    UninvolvedUser,
    /// Nobody is nominated, so nobody can accept the judge's seat.
    NoPendingJudge,
    /// The signer is not the current nominee.
    UnauthorizedJudge,
    /// The judge's deadline has not passed yet.
    RecoverTooEarly,
    /// The amount is too small for the tax to be at least one unit.
    InvalidEscrowAmount,
    /// A native operation on a token escrow.
    EscrowNotSolana,
    /// A token operation on a native escrow.
    EscrowNotToken,
    /// The token presented is not the escrow's token.
    WrongToken,
    /// Release asked for by somebody other than the payer.
    NotPayerReleasing,
    /// Recovery asked for by somebody other than the payer.
    NotPayerRecovering,
    /// Funds would return to somebody other than the payer.
    NotPayerReturning,
    /// Funds would be released to somebody other than the payee.
    NotPayeeReceiving,
    /// Return asked for by somebody other than the payee.
    NotPayeeReturning,
    /// The escrow is in dispute.
    EscrowDisputed,
    /// The escrow is not in dispute.
    EscrowNotDisputed,
}

impl ErrorCode {
    /// The text that `message` gives.
    pub open spec fn message_text(self) -> Seq<char> {
        match self {
            ErrorCode::TaxTooHigh => "Tax rate exceeds maximum of 2000 basis points (20%)"@,
            ErrorCode::FeeTooHigh => "Judge fee exceeds maximum of 20%"@,
            ErrorCode::InvalidTreasury => "Invalid treasury address"@,
            ErrorCode::UnauthorizedConfigOwner => "Unauthorized: Only the judge can perform this action"@,
            ErrorCode::UnauthorizedConfigJudge => "Unauthorized: Only the judge can perform this action"@,
            ErrorCode::InvalidConfigAccount => "Config account does not match the expected PDA"@,
            ErrorCode::InsufficientFunds => "Operation would result in insufficient funds"@,
            ErrorCode::UninvolvedUser => "Uninvolved user"@,
            ErrorCode::NoPendingJudge => "Operation failed - can not accept judge seat unless nominated - no current nominee"@,
            ErrorCode::UnauthorizedJudge => "Signer is not current nominee"@,
            ErrorCode::RecoverTooEarly => "Operation Failed - Escrow not in recoverable state, wait for judge deadline to pass."@,
            ErrorCode::InvalidEscrowAmount => "Escrow creation failed - amount is too small"@,
            ErrorCode::EscrowNotSolana => "Operation failed - trying to perform SOL operations on Token escrow"@,
            ErrorCode::EscrowNotToken => "Operation failed - trying to perform Token operations on SOL escrow"@,
            ErrorCode::WrongToken => "Operation failed - trying to use the wrong token"@,
            ErrorCode::NotPayerReleasing => "Operation failed - trying to release funds from wrong Payer"@,
            ErrorCode::NotPayerRecovering => "Operation failed - trying to recover funds when not Payer"@,
            ErrorCode::NotPayerReturning => "Operation failed - trying to return funds to wrong Payer"@,
            ErrorCode::NotPayeeReceiving => "Operation failed - trying to release funds to wrong Payee"@,
            ErrorCode::NotPayeeReturning => "Operation failed - trying to return funds from wrong Payee"@,
            ErrorCode::EscrowDisputed => "Operation failed - Escrow is in Dispute"@,
            ErrorCode::EscrowNotDisputed => "Operation failed - Escrow is not in Dispute"@,
        }
    }

    /// What the code says to whoever is refused.
    pub fn message(self) -> (text: &'static str)
        ensures
            text@ == self.message_text(),
    {
        match self {
            ErrorCode::TaxTooHigh => "Tax rate exceeds maximum of 2000 basis points (20%)",
            ErrorCode::FeeTooHigh => "Judge fee exceeds maximum of 20%",
            ErrorCode::InvalidTreasury => "Invalid treasury address",
            ErrorCode::UnauthorizedConfigOwner => "Unauthorized: Only the judge can perform this action",
            ErrorCode::UnauthorizedConfigJudge => "Unauthorized: Only the judge can perform this action",
            ErrorCode::InvalidConfigAccount => "Config account does not match the expected PDA",
            ErrorCode::InsufficientFunds => "Operation would result in insufficient funds",
            ErrorCode::UninvolvedUser => "Uninvolved user",
            ErrorCode::NoPendingJudge => "Operation failed - can not accept judge seat unless nominated - no current nominee",
            ErrorCode::UnauthorizedJudge => "Signer is not current nominee",
            ErrorCode::RecoverTooEarly => "Operation Failed - Escrow not in recoverable state, wait for judge deadline to pass.",
            ErrorCode::InvalidEscrowAmount => "Escrow creation failed - amount is too small",
            ErrorCode::EscrowNotSolana => "Operation failed - trying to perform SOL operations on Token escrow",
            ErrorCode::EscrowNotToken => "Operation failed - trying to perform Token operations on SOL escrow",
            ErrorCode::WrongToken => "Operation failed - trying to use the wrong token",
            ErrorCode::NotPayerReleasing => "Operation failed - trying to release funds from wrong Payer",
            ErrorCode::NotPayerRecovering => "Operation failed - trying to recover funds when not Payer",
            ErrorCode::NotPayerReturning => "Operation failed - trying to return funds to wrong Payer",
            ErrorCode::NotPayeeReceiving => "Operation failed - trying to release funds to wrong Payee",
            ErrorCode::NotPayeeReturning => "Operation failed - trying to return funds from wrong Payee",
            ErrorCode::EscrowDisputed => "Operation failed - Escrow is in Dispute",
            ErrorCode::EscrowNotDisputed => "Operation failed - Escrow is not in Dispute",
        }
    }
}

/// Every way in which an operation can fail. An operation that fails changes
/// nothing.
#[derive(Clone, Copy, Debug, PartialEq, Eq, Structural)]
pub enum Rejection {
    /// A rule of the escrow forbids the operation.
    Code(ErrorCode),
    /// The record that the operation would create exists already.
    AccountAlreadyInUse,
    /// The record that the operation works on does not exist.
    AccountNotInitialized,
    /// The signer is not the key that the record names as its authority.
    ConstraintHasOne,
    /// A condition on the keys presented does not hold, and has no code of
    /// its own.
    ConstraintRaw,
    /// The record presented is not the one kept under the signer's key.
    ConstraintSeeds,
    /// A time or an amount that the operation has to compute does not fit its
    /// type: a deadline beyond the last time that the clock can tell, a
    /// deposit above the largest amount, or a payout below nothing.
    ArithmeticOverflow,
}

/// The outcome is a failure, for the given reason.
pub open spec fn fails_with<T>(outcome: Result<T, Rejection>, why: Rejection) -> bool {
    outcome matches Err(found) && found == why
}

/// The outcome is a failure by a rule of the escrow, with the given code.
pub open spec fn fails_with_code<T>(outcome: Result<T, Rejection>, code: ErrorCode) -> bool {
    fails_with(outcome, Rejection::Code(code))
}

} // verus!
