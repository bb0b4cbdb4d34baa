//! The operations on an escrow that holds a token: deposit, release, return,
//! recovery and the judge's decision.
//!
//! The rules are those of an escrow that holds native value, with one more:
//! the token presented must be the token of the escrow. What the escrow holds
//! is what the ledger reports for it.

use crate::errors::{ErrorCode, Rejection};
use crate::events::{EscrowDeposited, EscrowJudged, EscrowRecovered, EscrowReleased, EscrowReturned};
use crate::keys::{holds_key, same_key};
use crate::records::{ConfigAccount, EscrowAccount};
use crate::settlement::{
    judged,
    recovery_of,
    settle_judged,
    settle_taxed,
    taxed,
    winner_of,
    Settlement,
    Transfer,
};
use anchor_lang::prelude::Pubkey;
use vstd::prelude::*;

verus! {

/// What `deposit_token_funds` works on.
#[derive(Clone, Copy, Debug, PartialEq, Eq)]
pub struct DepositTokenContext {
    /// Who signs, and pays in.
    pub payer: Pubkey,
    /// Where the payer's escrow is kept.
    pub escrow_address: Pubkey,
    /// The payer's escrow: `None` where the payer has none.
    pub escrow: Option<EscrowAccount>,
    /// The token presented.
    pub mint: Pubkey,
}

/// What `release_token_escrow` works on.
#[derive(Clone, Copy, Debug, PartialEq, Eq)]
pub struct ReleaseTokenContext {
    /// Who signs.
    pub payer: Pubkey,
    /// Who is to be paid.
    pub payee: Pubkey,
    /// Who is to collect the tax.
    pub treasury: Pubkey,
    /// The configuration, which names the treasury.
    pub config: ConfigAccount,
    /// Where the payer's escrow is kept.
    pub escrow_address: Pubkey,
    /// The payer's escrow: `None` once it has been settled.
    pub escrow: Option<EscrowAccount>,
    /// The token presented.
    pub mint: Pubkey,
}

/// What `return_token_escrow` works on.
#[derive(Clone, Copy, Debug, PartialEq, Eq)]
pub struct ReturnTokenContext {
    /// Who signs.
    pub payee: Pubkey,
    /// Who is to have the funds back.
    pub payer: Pubkey,
    /// Who is to collect the tax.
    pub treasury: Pubkey,
    /// The configuration, which names the treasury.
    pub config: ConfigAccount,
    /// Where the payer's escrow is kept.
    pub escrow_address: Pubkey,
    /// The payer's escrow: `None` once it has been settled.
    pub escrow: Option<EscrowAccount>,
    /// The token presented.
    pub mint: Pubkey,
}

/// What `recover_token_funds` works on.
#[derive(Clone, Copy, Debug, PartialEq, Eq)]
pub struct RecoverTokenContext {
    /// Who signs.
    pub payer: Pubkey,
    /// Where the payer's escrow is kept.
    pub escrow_address: Pubkey,
    /// The payer's escrow: `None` once it has been settled.
    pub escrow: Option<EscrowAccount>,
    /// The token presented.
    pub mint: Pubkey,
}

/// What `judge_token_escrow` works on.
#[derive(Clone, Copy, Debug, PartialEq, Eq)]
pub struct JudgeTokenContext {
    /// Who signs.
    pub judge: Pubkey,
    /// The payee that the judge names.
    pub payee: Pubkey,
    /// The payer that the judge names.
    pub payer: Pubkey,
    /// Who is to collect the fee.
    pub treasury: Pubkey,
    /// The configuration, which names the judge and the treasury.
    pub config: ConfigAccount,
    /// Where the escrow is kept.
    pub escrow_address: Pubkey,
    /// The escrow: `None` once it has been settled.
    pub escrow: Option<EscrowAccount>,
    /// The token presented.
    pub mint: Pubkey,
}

/// Why `deposit_token_funds` refuses, if it does.
pub open spec fn deposit_token_rejection(ctx: DepositTokenContext) -> Option<Rejection> {
    match ctx.escrow {
        None => Some(Rejection::AccountNotInitialized),
        Some(escrow) => if escrow.payer != ctx.payer {
            Some(Rejection::ConstraintSeeds)
        } else if escrow.token_mint is None {
            Some(Rejection::Code(ErrorCode::EscrowNotToken))
        } else if escrow.token_mint != Some(ctx.mint) {
            Some(Rejection::Code(ErrorCode::WrongToken))
        } else {
            None
        },
    }
}

/// What `deposit_token_funds` returns: the order to move the amount from the
/// payer to the escrow, and the report of it.
pub open spec fn deposit_token_outcome(ctx: DepositTokenContext, now: i64) -> Result<
    (Transfer, EscrowDeposited),
    Rejection,
> {
    match deposit_token_rejection(ctx) {
        Some(rejection) => Err(rejection),
        None => {
            let escrow = ctx.escrow->0;
            Ok(
                (
                    Transfer {
                        asset: escrow.token_mint,
                        from: ctx.payer,
                        to: ctx.escrow_address,
                        amount: escrow.amount,
                    },
                    EscrowDeposited {
                        address: ctx.escrow_address,
                        amount: escrow.amount,
                        token_mint: escrow.token_mint,
                        timestamp: now,
                    },
                ),
            )
        },
    }
}

/// Orders the payer's deposit of the escrow's amount in the escrow's token.
/// The escrow itself does not change.
pub fn deposit_token_funds(ctx: &DepositTokenContext, now: i64) -> (outcome: Result<
    (Transfer, EscrowDeposited),
    Rejection,
>)
    ensures
        outcome == deposit_token_outcome(*ctx, now),
{
    match ctx.escrow {
        None => Err(Rejection::AccountNotInitialized),
        Some(escrow) => {
            if !same_key(&escrow.payer, &ctx.payer) {
                return Err(Rejection::ConstraintSeeds);
            }
            if escrow.token_mint.is_none() {
                return Err(Rejection::Code(ErrorCode::EscrowNotToken));
            }
            if !holds_key(&escrow.token_mint, &ctx.mint) {
                return Err(Rejection::Code(ErrorCode::WrongToken));
            }
            Ok(
                (
                    Transfer {
                        asset: escrow.token_mint,
                        from: ctx.payer,
                        to: ctx.escrow_address,
                        amount: escrow.amount,
                    },
                    EscrowDeposited {
                        address: ctx.escrow_address,
                        amount: escrow.amount,
                        token_mint: escrow.token_mint,
                        timestamp: now,
                    },
                ),
            )
        },
    }
}

/// The rule that forbids the release, if one does: only the payer releases, to
/// the payee of the escrow, in the escrow's token, with the treasury of the
/// configuration collecting, and not while the escrow is disputed.
pub open spec fn release_token_guard(ctx: ReleaseTokenContext) -> Option<Rejection> {
    match ctx.escrow {
        None => Some(Rejection::AccountNotInitialized),
        Some(escrow) => if ctx.config.treasury != ctx.treasury {
            Some(Rejection::ConstraintRaw)
        } else if escrow.token_mint is None {
            Some(Rejection::Code(ErrorCode::EscrowNotToken))
        } else if escrow.payer != ctx.payer {
            Some(Rejection::Code(ErrorCode::NotPayerReleasing))
        } else if escrow.payee != ctx.payee {
            Some(Rejection::Code(ErrorCode::NotPayeeReceiving))
        } else if escrow.disputed {
            Some(Rejection::Code(ErrorCode::EscrowDisputed))
        } else if escrow.token_mint != Some(ctx.mint) {
            Some(Rejection::Code(ErrorCode::WrongToken))
        } else {
            None
        },
    }
}

/// What `release_token_escrow` returns. Where no rule forbids the release,
/// the balance is split between the treasury, which collects the tax, and the
/// payee.
pub open spec fn release_token_outcome(ctx: ReleaseTokenContext, balance: u64, now: i64) -> Result<
    (Settlement, EscrowReleased),
    Rejection,
> {
    match release_token_guard(ctx) {
        Some(rejection) => Err(rejection),
        None => match taxed(
            ctx.escrow->0.token_mint,
            ctx.escrow_address,
            ctx.treasury,
            ctx.payee,
            balance,
            ctx.escrow->0.tax,
        ) {
            None => Err(Rejection::ArithmeticOverflow),
            Some(settlement) => Ok(
                (
                    settlement,
                    EscrowReleased {
                        address: ctx.escrow_address,
                        amount: settlement.payout.amount,
                        tax_paid: settlement.collected.amount,
                        token_mint: ctx.escrow->0.token_mint,
                        timestamp: now,
                    },
                ),
            ),
        },
    }
}

/// The context that `release_token_escrow` leaves: on success the escrow is
/// gone.
pub open spec fn release_token_after(ctx: ReleaseTokenContext, balance: u64, now: i64)
    -> ReleaseTokenContext {
    if release_token_outcome(ctx, balance, now) is Ok {
        ReleaseTokenContext { escrow: None, ..ctx }
    } else {
        ctx
    }
}

/// Releases the `balance` that the escrow holds to the payee, less the tax,
/// and closes the escrow.
pub fn release_token_escrow(ctx: &mut ReleaseTokenContext, balance: u64, now: i64) -> (outcome:
    Result<(Settlement, EscrowReleased), Rejection>)
    ensures
        outcome == release_token_outcome(*old(ctx), balance, now),
        *final(ctx) == release_token_after(*old(ctx), balance, now),
        outcome matches Ok(done) ==> done.0.total() == balance,
{
    match ctx.escrow {
        None => Err(Rejection::AccountNotInitialized),
        Some(escrow) => {
            if !same_key(&ctx.config.treasury, &ctx.treasury) {
                return Err(Rejection::ConstraintRaw);
            }
            if escrow.token_mint.is_none() {
                return Err(Rejection::Code(ErrorCode::EscrowNotToken));
            }
            if !same_key(&escrow.payer, &ctx.payer) {
                return Err(Rejection::Code(ErrorCode::NotPayerReleasing));
            }
            if !same_key(&escrow.payee, &ctx.payee) {
                return Err(Rejection::Code(ErrorCode::NotPayeeReceiving));
            }
            if escrow.disputed {
                return Err(Rejection::Code(ErrorCode::EscrowDisputed));
            }
            if !holds_key(&escrow.token_mint, &ctx.mint) {
                return Err(Rejection::Code(ErrorCode::WrongToken));
            }
            match settle_taxed(
                escrow.token_mint,
                ctx.escrow_address,
                ctx.treasury,
                ctx.payee,
                balance,
                escrow.tax,
            ) {
                None => Err(Rejection::ArithmeticOverflow),
                Some(settlement) => {
                    ctx.escrow = None;
                    Ok(
                        (
                            settlement,
                            EscrowReleased {
                                address: ctx.escrow_address,
                                amount: settlement.payout.amount,
                                tax_paid: settlement.collected.amount,
                                token_mint: escrow.token_mint,
                                timestamp: now,
                            },
                        ),
                    )
                },
            }
        },
    }
}

/// The rule that forbids the return, if one does: only the payee returns, to
/// the payer of the escrow, in the escrow's token, with the treasury of the
/// configuration collecting, and not while the escrow is disputed.
pub open spec fn return_token_guard(ctx: ReturnTokenContext) -> Option<Rejection> {
    match ctx.escrow {
        None => Some(Rejection::AccountNotInitialized),
        Some(escrow) => if escrow.payer != ctx.payer {
            Some(Rejection::Code(ErrorCode::UninvolvedUser))
        } else if ctx.config.treasury != ctx.treasury {
            Some(Rejection::Code(ErrorCode::UninvolvedUser))
        } else if escrow.token_mint is None {
            Some(Rejection::Code(ErrorCode::EscrowNotToken))
        } else if escrow.payee != ctx.payee {
            Some(Rejection::Code(ErrorCode::UninvolvedUser))
        } else if escrow.disputed {
            Some(Rejection::Code(ErrorCode::EscrowDisputed))
        } else if escrow.token_mint != Some(ctx.mint) {
            Some(Rejection::Code(ErrorCode::WrongToken))
        } else {
            None
        },
    }
}

/// What `return_token_escrow` returns. Where no rule forbids the return, the
/// balance is split between the treasury, which collects the tax, and the
/// payer.
pub open spec fn return_token_outcome(ctx: ReturnTokenContext, balance: u64, now: i64) -> Result<
    (Settlement, EscrowReturned),
    Rejection,
> {
    match return_token_guard(ctx) {
        Some(rejection) => Err(rejection),
        None => match taxed(
            ctx.escrow->0.token_mint,
            ctx.escrow_address,
            ctx.treasury,
            ctx.payer,
            balance,
            ctx.escrow->0.tax,
        ) {
            None => Err(Rejection::ArithmeticOverflow),
            Some(settlement) => Ok(
                (
                    settlement,
                    EscrowReturned {
                        address: ctx.escrow_address,
                        amount: settlement.payout.amount,
                        tax_paid: settlement.collected.amount,
                        token_mint: ctx.escrow->0.token_mint,
                        timestamp: now,
                    },
                ),
            ),
        },
    }
}

/// The context that `return_token_escrow` leaves: on success the escrow is
/// gone.
pub open spec fn return_token_after(ctx: ReturnTokenContext, balance: u64, now: i64)
    -> ReturnTokenContext {
    if return_token_outcome(ctx, balance, now) is Ok {
        ReturnTokenContext { escrow: None, ..ctx }
    } else {
        ctx
    }
}

/// Returns the `balance` that the escrow holds to the payer, less the tax, and
/// closes the escrow.
pub fn return_token_escrow(ctx: &mut ReturnTokenContext, balance: u64, now: i64) -> (outcome:
    Result<(Settlement, EscrowReturned), Rejection>)
    ensures
        outcome == return_token_outcome(*old(ctx), balance, now),
        *final(ctx) == return_token_after(*old(ctx), balance, now),
        outcome matches Ok(done) ==> done.0.total() == balance,
{
    match ctx.escrow {
        None => Err(Rejection::AccountNotInitialized),
        Some(escrow) => {
            if !same_key(&escrow.payer, &ctx.payer) {
                return Err(Rejection::Code(ErrorCode::UninvolvedUser));
            }
            if !same_key(&ctx.config.treasury, &ctx.treasury) {
                return Err(Rejection::Code(ErrorCode::UninvolvedUser));
            }
            if escrow.token_mint.is_none() {
                return Err(Rejection::Code(ErrorCode::EscrowNotToken));
            }
            if !same_key(&escrow.payee, &ctx.payee) {
                return Err(Rejection::Code(ErrorCode::UninvolvedUser));
            }
            if escrow.disputed {
                return Err(Rejection::Code(ErrorCode::EscrowDisputed));
            }
            if !holds_key(&escrow.token_mint, &ctx.mint) {
                return Err(Rejection::Code(ErrorCode::WrongToken));
            }
            match settle_taxed(
                escrow.token_mint,
                ctx.escrow_address,
                ctx.treasury,
                ctx.payer,
                balance,
                escrow.tax,
            ) {
                None => Err(Rejection::ArithmeticOverflow),
                Some(settlement) => {
                    ctx.escrow = None;
                    Ok(
                        (
                            settlement,
                            EscrowReturned {
                                address: ctx.escrow_address,
                                amount: settlement.payout.amount,
                                tax_paid: settlement.collected.amount,
                                token_mint: escrow.token_mint,
                                timestamp: now,
                            },
                        ),
                    )
                },
            }
        },
    }
}

/// The rule that forbids the recovery, if one does: only the payer recovers,
/// in the escrow's token, and only once the judge's deadline has passed.
/// Whether the escrow is disputed does not matter.
pub open spec fn recover_token_guard(ctx: RecoverTokenContext, now: i64) -> Option<Rejection> {
    match ctx.escrow {
        None => Some(Rejection::AccountNotInitialized),
        Some(escrow) => if escrow.token_mint is None {
            Some(Rejection::Code(ErrorCode::EscrowNotToken))
        } else if escrow.payer != ctx.payer {
            Some(Rejection::Code(ErrorCode::NotPayerRecovering))
        } else if escrow.token_mint != Some(ctx.mint) {
            Some(Rejection::Code(ErrorCode::WrongToken))
        } else if now <= escrow.judge_deadline {
            Some(Rejection::Code(ErrorCode::RecoverTooEarly))
        } else {
            None
        },
    }
}

/// What `recover_token_funds` returns. Where no rule forbids the recovery,
/// the whole balance goes back to the payer.
pub open spec fn recover_token_outcome(ctx: RecoverTokenContext, balance: u64, now: i64) -> Result<
    (Transfer, EscrowRecovered),
    Rejection,
> {
    match recover_token_guard(ctx, now) {
        Some(rejection) => Err(rejection),
        None => Ok(
            (
                recovery_of(ctx.escrow->0.token_mint, ctx.escrow_address, ctx.payer, balance),
                EscrowRecovered {
                    address: ctx.escrow_address,
                    amount: balance,
                    token_mint: ctx.escrow->0.token_mint,
                    timestamp: now,
                },
            ),
        ),
    }
}

/// The context that `recover_token_funds` leaves: on success the escrow is
/// gone.
pub open spec fn recover_token_after(ctx: RecoverTokenContext, balance: u64, now: i64)
    -> RecoverTokenContext {
    if recover_token_outcome(ctx, balance, now) is Ok {
        RecoverTokenContext { escrow: None, ..ctx }
    } else {
        ctx
    }
}

/// Hands the whole `balance` that the escrow holds back to the payer, with
/// neither tax nor fee taken off, and closes the escrow.
pub fn recover_token_funds(ctx: &mut RecoverTokenContext, balance: u64, now: i64) -> (outcome:
    Result<(Transfer, EscrowRecovered), Rejection>)
    ensures
        outcome == recover_token_outcome(*old(ctx), balance, now),
        *final(ctx) == recover_token_after(*old(ctx), balance, now),
{
    match ctx.escrow {
        None => Err(Rejection::AccountNotInitialized),
        Some(escrow) => {
            if escrow.token_mint.is_none() {
                return Err(Rejection::Code(ErrorCode::EscrowNotToken));
            }
            if !same_key(&escrow.payer, &ctx.payer) {
                return Err(Rejection::Code(ErrorCode::NotPayerRecovering));
            }
            if !holds_key(&escrow.token_mint, &ctx.mint) {
                return Err(Rejection::Code(ErrorCode::WrongToken));
            }
            if now <= escrow.judge_deadline {
                return Err(Rejection::Code(ErrorCode::RecoverTooEarly));
            }
            ctx.escrow = None;
            Ok(
                (
                    Transfer {
                        asset: escrow.token_mint,
                        from: ctx.escrow_address,
                        to: ctx.payer,
                        amount: balance,
                    },
                    EscrowRecovered {
                        address: ctx.escrow_address,
                        amount: balance,
                        token_mint: escrow.token_mint,
                        timestamp: now,
                    },
                ),
            )
        },
    }
}

/// The rule that forbids the judgement, if one does: only the judge of the
/// configuration decides, on an escrow that is disputed, naming its payer, its
/// payee and its token, with the treasury of the configuration collecting.
pub open spec fn judge_token_guard(ctx: JudgeTokenContext) -> Option<Rejection> {
    match ctx.escrow {
        None => Some(Rejection::AccountNotInitialized),
        Some(escrow) => if ctx.config.treasury != ctx.treasury {
            Some(Rejection::Code(ErrorCode::UninvolvedUser))
        } else if ctx.config.judge != ctx.judge {
            Some(Rejection::Code(ErrorCode::UninvolvedUser))
        } else if escrow.token_mint is None {
            Some(Rejection::Code(ErrorCode::EscrowNotToken))
        } else if !escrow.disputed {
            Some(Rejection::Code(ErrorCode::EscrowNotDisputed))
        } else if escrow.payee != ctx.payee {
            Some(Rejection::Code(ErrorCode::UninvolvedUser))
        } else if escrow.payer != ctx.payer {
            Some(Rejection::Code(ErrorCode::UninvolvedUser))
        } else if escrow.token_mint != Some(ctx.mint) {
            Some(Rejection::Code(ErrorCode::WrongToken))
        } else {
            None
        },
    }
}

/// What `judge_token_escrow` returns. Where no rule forbids the judgement,
/// the balance is split between the treasury, which collects the judge's fee,
/// and the winner.
pub open spec fn judge_token_outcome(ctx: JudgeTokenContext, decision: bool, balance: u64, now: i64)
    -> Result<(Settlement, EscrowJudged), Rejection> {
    match judge_token_guard(ctx) {
        Some(rejection) => Err(rejection),
        None => match judged(
            ctx.escrow->0.token_mint,
            ctx.escrow_address,
            ctx.treasury,
            winner_of(ctx.payer, ctx.payee, decision),
            balance,
            ctx.escrow->0.fee,
        ) {
            None => Err(Rejection::ArithmeticOverflow),
            Some(settlement) => Ok(
                (
                    settlement,
                    EscrowJudged {
                        address: ctx.escrow_address,
                        winner: winner_of(ctx.payer, ctx.payee, decision),
                        amount_awarded: settlement.payout.amount,
                        fee_collected: settlement.collected.amount,
                        token_mint: ctx.escrow->0.token_mint,
                        timestamp: now,
                    },
                ),
            ),
        },
    }
}

/// The context that `judge_token_escrow` leaves: on success the escrow is
/// gone.
pub open spec fn judge_token_after(ctx: JudgeTokenContext, decision: bool, balance: u64, now: i64)
    -> JudgeTokenContext {
    if judge_token_outcome(ctx, decision, balance, now) is Ok {
        JudgeTokenContext { escrow: None, ..ctx }
    } else {
        ctx
    }
}

/// Awards the `balance` that the escrow holds, less the judge's fee, to the
/// payee where `decision` is `true` and to the payer where it is `false`, and
/// closes the escrow.
pub fn judge_token_escrow(
    ctx: &mut JudgeTokenContext,
    decision: bool,
    balance: u64,
    now: i64,
) -> (outcome: Result<(Settlement, EscrowJudged), Rejection>)
    ensures
        outcome == judge_token_outcome(*old(ctx), decision, balance, now),
        *final(ctx) == judge_token_after(*old(ctx), decision, balance, now),
        outcome matches Ok(done) ==> done.0.total() == balance,
{
    match ctx.escrow {
        None => Err(Rejection::AccountNotInitialized),
        Some(escrow) => {
            if !same_key(&ctx.config.treasury, &ctx.treasury) {
                return Err(Rejection::Code(ErrorCode::UninvolvedUser));
            }
            if !same_key(&ctx.config.judge, &ctx.judge) {
                return Err(Rejection::Code(ErrorCode::UninvolvedUser));
            }
            if escrow.token_mint.is_none() {
                return Err(Rejection::Code(ErrorCode::EscrowNotToken));
            }
            if !escrow.disputed {
                return Err(Rejection::Code(ErrorCode::EscrowNotDisputed));
            }
            if !same_key(&escrow.payee, &ctx.payee) {
                return Err(Rejection::Code(ErrorCode::UninvolvedUser));
            }
            if !same_key(&escrow.payer, &ctx.payer) {
                return Err(Rejection::Code(ErrorCode::UninvolvedUser));
            }
            if !holds_key(&escrow.token_mint, &ctx.mint) {
                return Err(Rejection::Code(ErrorCode::WrongToken));
            }
            let winner = if decision {
                ctx.payee
            } else {
                ctx.payer
            };
            match settle_judged(
                escrow.token_mint,
                ctx.escrow_address,
                ctx.treasury,
                winner,
                balance,
                escrow.fee,
            ) {
                None => Err(Rejection::ArithmeticOverflow),
                Some(settlement) => {
                    ctx.escrow = None;
                    Ok(
                        (
                            settlement,
                            EscrowJudged {
                                address: ctx.escrow_address,
                                winner,
                                amount_awarded: settlement.payout.amount,
                                fee_collected: settlement.collected.amount,
                                token_mint: escrow.token_mint,
                                timestamp: now,
                            },
                        ),
                    )
                },
            }
        },
    }
}

} // verus!
