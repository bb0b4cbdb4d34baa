use escrow_sol::errors::{ErrorCode, Rejection};

#[test]
fn every_code_has_its_message() {
    let expected = [
        (ErrorCode::TaxTooHigh, "Tax rate exceeds maximum of 2000 basis points (20%)"),
        (ErrorCode::FeeTooHigh, "Judge fee exceeds maximum of 20%"),
        (ErrorCode::InvalidTreasury, "Invalid treasury address"),
        (ErrorCode::UnauthorizedConfigOwner, "Unauthorized: Only the judge can perform this action"),
        (ErrorCode::UnauthorizedConfigJudge, "Unauthorized: Only the judge can perform this action"),
        (ErrorCode::InvalidConfigAccount, "Config account does not match the expected PDA"),
        (ErrorCode::InsufficientFunds, "Operation would result in insufficient funds"),
        (ErrorCode::UninvolvedUser, "Uninvolved user"),
        (
            ErrorCode::NoPendingJudge,
            "Operation failed - can not accept judge seat unless nominated - no current nominee",
        ),
        (ErrorCode::UnauthorizedJudge, "Signer is not current nominee"),
        (
            ErrorCode::RecoverTooEarly,
            "Operation Failed - Escrow not in recoverable state, wait for judge deadline to pass.",
        ),
        (ErrorCode::InvalidEscrowAmount, "Escrow creation failed - amount is too small"),
        (
            ErrorCode::EscrowNotSolana,
            "Operation failed - trying to perform SOL operations on Token escrow",
        ),
        (
            ErrorCode::EscrowNotToken,
            "Operation failed - trying to perform Token operations on SOL escrow",
        ),
        (ErrorCode::WrongToken, "Operation failed - trying to use the wrong token"),
        (ErrorCode::NotPayerReleasing, "Operation failed - trying to release funds from wrong Payer"),
        (ErrorCode::NotPayerRecovering, "Operation failed - trying to recover funds when not Payer"),
        (ErrorCode::NotPayerReturning, "Operation failed - trying to return funds to wrong Payer"),
        (ErrorCode::NotPayeeReceiving, "Operation failed - trying to release funds to wrong Payee"),
        (ErrorCode::NotPayeeReturning, "Operation failed - trying to return funds from wrong Payee"),
        (ErrorCode::EscrowDisputed, "Operation failed - Escrow is in Dispute"),
        (ErrorCode::EscrowNotDisputed, "Operation failed - Escrow is not in Dispute"),
    ];
    for (code, text) in expected {
        assert_eq!(code.message(), text);
    }
}

#[test]
fn rejections_compare_by_what_they_hold() {
    assert_eq!(Rejection::Code(ErrorCode::TaxTooHigh), Rejection::Code(ErrorCode::TaxTooHigh));
    assert_ne!(Rejection::Code(ErrorCode::TaxTooHigh), Rejection::Code(ErrorCode::FeeTooHigh));
    assert_ne!(Rejection::ConstraintRaw, Rejection::ConstraintSeeds);
    assert_ne!(Rejection::AccountAlreadyInUse, Rejection::AccountNotInitialized);
    assert_ne!(Rejection::ConstraintHasOne, Rejection::ArithmeticOverflow);
}
