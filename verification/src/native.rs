//! The operations on an escrow that holds native value: deposit, release,
//! return, recovery and the judge's decision.
//!
//! The record of such an escrow is kept in an account that holds the value
//! too, on top of a reserve that the storage asks for. What the escrow holds is
//! what the account has above that reserve.

use crate::errors::{ErrorCode, Rejection};
use crate::events::{EscrowDeposited, EscrowJudged, EscrowRecovered, EscrowReleased, EscrowReturned};
use crate::keys::same_key;
use crate::records::{ConfigAccount, EscrowAccount};
use crate::settlement::{
    judged,
    recovery_of,
    settle_judged,
    settle_taxed,
    taxed,
    winner_of,
    Settlement,
    Transfer,
};
use anchor_lang::prelude::Pubkey;
use vstd::prelude::*;

verus! {

/// What `deposit_sol_funds` works on.
#[derive(Clone, Copy, Debug, PartialEq, Eq)]
pub struct DepositSolanaContext {
    /// Who signs, and pays in.
    pub payer: Pubkey,
    /// Where the payer's escrow is kept.
    pub escrow_address: Pubkey,
    /// The payer's escrow: `None` where the payer has none.
    pub escrow: Option<EscrowAccount>,
}

/// What `release_sol_funds` works on.
#[derive(Clone, Copy, Debug, PartialEq, Eq)]
pub struct ReleaseSolanaContext {
    /// Who signs.
    pub payer: Pubkey,
    /// Who is to be paid.
    pub payee: Pubkey,
    /// Who is to collect the tax.
    pub treasury: Pubkey,
    /// The configuration, which names the treasury.
    pub config: ConfigAccount,
    /// Where the payer's escrow is kept.
    pub escrow_address: Pubkey,
    /// The payer's escrow: `None` once it has been settled.
    pub escrow: Option<EscrowAccount>,
}

/// What `return_sol_funds` works on.
#[derive(Clone, Copy, Debug, PartialEq, Eq)]
pub struct ReturnSolanaContext {
    /// Who signs.
    pub payee: Pubkey,
    /// Who is to have the funds back.
    pub payer: Pubkey,
    /// Who is to collect the tax.
    pub treasury: Pubkey,
    /// The configuration, which names the treasury.
    pub config: ConfigAccount,
    /// Where the payer's escrow is kept.
    pub escrow_address: Pubkey,
    /// The payer's escrow: `None` once it has been settled.
    pub escrow: Option<EscrowAccount>,
}

/// What `recover_sol_funds` works on.
#[derive(Clone, Copy, Debug, PartialEq, Eq)]
pub struct RecoverSolanaContext {
    /// Who signs.
    pub payer: Pubkey,
    /// Where the payer's escrow is kept.
    pub escrow_address: Pubkey,
    /// The payer's escrow: `None` once it has been settled.
    pub escrow: Option<EscrowAccount>,
}

/// What `judge_sol_escrow` works on.
#[derive(Clone, Copy, Debug, PartialEq, Eq)]
pub struct JudgeSolanaContext {
    /// Who signs.
    pub judge: Pubkey,
    /// The payee that the judge names.
    pub payee: Pubkey,
    /// The payer that the judge names.
    pub payer: Pubkey,
    /// Who is to collect the fee.
    pub treasury: Pubkey,
    /// The configuration, which names the judge and the treasury.
    pub config: ConfigAccount,
    /// Where the escrow is kept.
    pub escrow_address: Pubkey,
    /// The escrow: `None` once it has been settled.
    pub escrow: Option<EscrowAccount>,
}

/// What an account with `lamports` holds above the `reserve`, where it holds
/// that much.
pub open spec fn held(lamports: u64, reserve: u64) -> Option<u64> {
    if lamports >= reserve {
        Some((lamports - reserve) as u64)
    } else {
        None
    }
}

/// What the escrow holds: what its account has above the reserve. An account
/// below its reserve holds nothing that could be paid out.
pub fn held_balance(lamports: u64, reserve: u64) -> (balance: Result<u64, Rejection>)
    ensures
        balance == match held(lamports, reserve) {
            Some(amount) => Ok::<u64, Rejection>(amount),
            None => Err::<u64, Rejection>(Rejection::Code(ErrorCode::InsufficientFunds)),
        },
{
    if lamports >= reserve {
        Ok(lamports - reserve)
    } else {
        Err(Rejection::Code(ErrorCode::InsufficientFunds))
    }
}

/// Why `deposit_sol_funds` refuses, if it does.
pub open spec fn deposit_sol_rejection(ctx: DepositSolanaContext, reserve: u64) -> Option<
    Rejection,
> {
    match ctx.escrow {
        None => Some(Rejection::AccountNotInitialized),
        Some(escrow) => if escrow.payer != ctx.payer {
            Some(Rejection::ConstraintSeeds)
        } else if escrow.token_mint is Some {
            Some(Rejection::Code(ErrorCode::EscrowNotSolana))
        } else if escrow.amount + reserve > u64::MAX {
            Some(Rejection::ArithmeticOverflow)
        } else {
            None
        },
    }
}

/// What `deposit_sol_funds` returns: the order to move the amount and the
/// reserve from the payer to the escrow, and the report of it.
pub open spec fn deposit_sol_outcome(ctx: DepositSolanaContext, reserve: u64, now: i64) -> Result<
    (Transfer, EscrowDeposited),
    Rejection,
> {
    match deposit_sol_rejection(ctx, reserve) {
        Some(rejection) => Err(rejection),
        None => {
            let escrow = ctx.escrow->0;
            let amount = (escrow.amount + reserve) as u64;
            Ok(
                (
                    Transfer { asset: None, from: ctx.payer, to: ctx.escrow_address, amount },
                    EscrowDeposited {
                        address: ctx.escrow_address,
                        amount,
                        token_mint: escrow.token_mint,
                        timestamp: now,
                    },
                ),
            )
        },
    }
}

/// Orders the payer's deposit: the amount of the escrow and, on top of it, the
/// reserve that the storage asks for. The escrow itself does not change.
pub fn deposit_sol_funds(ctx: &DepositSolanaContext, reserve: u64, now: i64) -> (outcome: Result<
    (Transfer, EscrowDeposited),
    Rejection,
>)
    ensures
        outcome == deposit_sol_outcome(*ctx, reserve, now),
{
    match ctx.escrow {
        None => Err(Rejection::AccountNotInitialized),
        Some(escrow) => {
            if !same_key(&escrow.payer, &ctx.payer) {
                return Err(Rejection::ConstraintSeeds);
            }
            if escrow.token_mint.is_some() {
                return Err(Rejection::Code(ErrorCode::EscrowNotSolana));
            }
            if escrow.amount > u64::MAX - reserve {
                return Err(Rejection::ArithmeticOverflow);
            }
            let amount: u64 = escrow.amount + reserve;
            Ok(
                (
                    Transfer { asset: None, from: ctx.payer, to: ctx.escrow_address, amount },
                    EscrowDeposited {
                        address: ctx.escrow_address,
                        amount,
                        token_mint: escrow.token_mint,
                        timestamp: now,
                    },
                ),
            )
        },
    }
}

/// The rule that forbids the release, if one does: only the payer releases, to
/// the payee of the escrow, with the treasury of the configuration collecting,
/// and not while the escrow is disputed.
pub open spec fn release_sol_guard(ctx: ReleaseSolanaContext) -> Option<Rejection> {
    match ctx.escrow {
        None => Some(Rejection::AccountNotInitialized),
        Some(escrow) => if ctx.config.treasury != ctx.treasury {
            Some(Rejection::ConstraintRaw)
        } else if escrow.token_mint is Some {
            Some(Rejection::Code(ErrorCode::EscrowNotSolana))
        } else if escrow.payer != ctx.payer {
            Some(Rejection::Code(ErrorCode::NotPayerReleasing))
        } else if escrow.payee != ctx.payee {
            Some(Rejection::Code(ErrorCode::NotPayeeReceiving))
        } else if escrow.disputed {
            Some(Rejection::Code(ErrorCode::EscrowDisputed))
        } else {
            None
        },
    }
}

/// What `release_sol_funds` returns. Where no rule forbids the release, the
/// balance held is split between the treasury, which collects the tax, and the
/// payee.
pub open spec fn release_sol_outcome(
    ctx: ReleaseSolanaContext,
    lamports: u64,
    reserve: u64,
    now: i64,
) -> Result<(Settlement, EscrowReleased), Rejection> {
    match release_sol_guard(ctx) {
        Some(rejection) => Err(rejection),
        None => match held(lamports, reserve) {
            None => Err(Rejection::Code(ErrorCode::InsufficientFunds)),
            Some(balance) => match taxed(
                None,
                ctx.escrow_address,
                ctx.treasury,
                ctx.payee,
                balance,
                ctx.escrow->0.tax,
            ) {
                None => Err(Rejection::ArithmeticOverflow),
                Some(settlement) => Ok(
                    (
                        settlement,
                        EscrowReleased {
                            address: ctx.escrow_address,
                            amount: settlement.payout.amount,
                            tax_paid: settlement.collected.amount,
                            token_mint: ctx.escrow->0.token_mint,
                            timestamp: now,
                        },
                    ),
                ),
            },
        },
    }
}

/// The context that `release_sol_funds` leaves: on success the escrow is gone.
pub open spec fn release_sol_after(ctx: ReleaseSolanaContext, lamports: u64, reserve: u64, now: i64)
    -> ReleaseSolanaContext {
    if release_sol_outcome(ctx, lamports, reserve, now) is Ok {
        ReleaseSolanaContext { escrow: None, ..ctx }
    } else {
        ctx
    }
}

/// Releases what the escrow holds to the payee, less the tax, and closes the
/// escrow. `lamports` is what the escrow's account has, `reserve` what the
/// storage keeps of it.
pub fn release_sol_funds(
    ctx: &mut ReleaseSolanaContext,
    lamports: u64,
    reserve: u64,
    now: i64,
) -> (outcome: Result<(Settlement, EscrowReleased), Rejection>)
    ensures
        outcome == release_sol_outcome(*old(ctx), lamports, reserve, now),
        *final(ctx) == release_sol_after(*old(ctx), lamports, reserve, now),
        outcome matches Ok(done) ==> held(lamports, reserve) == Some(done.0.total() as u64),
{
    match ctx.escrow {
        None => Err(Rejection::AccountNotInitialized),
        Some(escrow) => {
            if !same_key(&ctx.config.treasury, &ctx.treasury) {
                return Err(Rejection::ConstraintRaw);
            }
            if escrow.token_mint.is_some() {
                return Err(Rejection::Code(ErrorCode::EscrowNotSolana));
            }
            if !same_key(&escrow.payer, &ctx.payer) {
                return Err(Rejection::Code(ErrorCode::NotPayerReleasing));
            }
            if !same_key(&escrow.payee, &ctx.payee) {
                return Err(Rejection::Code(ErrorCode::NotPayeeReceiving));
            }
            if escrow.disputed {
                return Err(Rejection::Code(ErrorCode::EscrowDisputed));
            }
            let balance = match held_balance(lamports, reserve) {
                Ok(balance) => balance,
                Err(rejection) => {
                    return Err(rejection);
                },
            };
            match settle_taxed(
                None,
                ctx.escrow_address,
                ctx.treasury,
                ctx.payee,
                balance,
                escrow.tax,
            ) {
                None => Err(Rejection::ArithmeticOverflow),
                Some(settlement) => {
                    ctx.escrow = None;
                    Ok(
                        (
                            settlement,
                            EscrowReleased {
                                address: ctx.escrow_address,
                                amount: settlement.payout.amount,
                                tax_paid: settlement.collected.amount,
                                token_mint: escrow.token_mint,
                                timestamp: now,
                            },
                        ),
                    )
                },
            }
        },
    }
}

/// The rule that forbids the return, if one does: only the payee returns, to
/// the payer of the escrow, with the treasury of the configuration collecting,
/// and not while the escrow is disputed.
pub open spec fn return_sol_guard(ctx: ReturnSolanaContext) -> Option<Rejection> {
    match ctx.escrow {
        None => Some(Rejection::AccountNotInitialized),
        Some(escrow) => if ctx.config.treasury != ctx.treasury {
            Some(Rejection::ConstraintRaw)
        } else if escrow.token_mint is Some {
            Some(Rejection::Code(ErrorCode::EscrowNotSolana))
        } else if escrow.payer != ctx.payer {
            Some(Rejection::Code(ErrorCode::NotPayerReturning))
        } else if escrow.payee != ctx.payee {
            Some(Rejection::Code(ErrorCode::NotPayeeReturning))
        } else if escrow.disputed {
            Some(Rejection::Code(ErrorCode::EscrowDisputed))
        } else {
            None
        },
    }
}

/// What `return_sol_funds` returns. Where no rule forbids the return, the
/// balance held is split between the treasury, which collects the tax, and the
/// payer.
pub open spec fn return_sol_outcome(ctx: ReturnSolanaContext, lamports: u64, reserve: u64, now: i64)
    -> Result<(Settlement, EscrowReturned), Rejection> {
    match return_sol_guard(ctx) {
        Some(rejection) => Err(rejection),
        None => match held(lamports, reserve) {
            None => Err(Rejection::Code(ErrorCode::InsufficientFunds)),
            Some(balance) => match taxed(
                None,
                ctx.escrow_address,
                ctx.treasury,
                ctx.payer,
                balance,
                ctx.escrow->0.tax,
            ) {
                None => Err(Rejection::ArithmeticOverflow),
                Some(settlement) => Ok(
                    (
                        settlement,
                        EscrowReturned {
                            address: ctx.escrow_address,
                            amount: settlement.payout.amount,
                            tax_paid: settlement.collected.amount,
                            token_mint: ctx.escrow->0.token_mint,
                            timestamp: now,
                        },
                    ),
                ),
            },
        },
    }
}

/// The context that `return_sol_funds` leaves: on success the escrow is gone.
pub open spec fn return_sol_after(ctx: ReturnSolanaContext, lamports: u64, reserve: u64, now: i64)
    -> ReturnSolanaContext {
    if return_sol_outcome(ctx, lamports, reserve, now) is Ok {
        ReturnSolanaContext { escrow: None, ..ctx }
    } else {
        ctx
    }
}

/// Returns what the escrow holds to the payer, less the tax, and closes the
/// escrow. `lamports` is what the escrow's account has, `reserve` what the
/// storage keeps of it.
pub fn return_sol_funds(
    ctx: &mut ReturnSolanaContext,
    lamports: u64,
    reserve: u64,
    now: i64,
) -> (outcome: Result<(Settlement, EscrowReturned), Rejection>)
    ensures
        outcome == return_sol_outcome(*old(ctx), lamports, reserve, now),
        *final(ctx) == return_sol_after(*old(ctx), lamports, reserve, now),
        outcome matches Ok(done) ==> held(lamports, reserve) == Some(done.0.total() as u64),
{
    match ctx.escrow {
        None => Err(Rejection::AccountNotInitialized),
        Some(escrow) => {
            if !same_key(&ctx.config.treasury, &ctx.treasury) {
                return Err(Rejection::ConstraintRaw);
            }
            if escrow.token_mint.is_some() {
                return Err(Rejection::Code(ErrorCode::EscrowNotSolana));
            }
            if !same_key(&escrow.payer, &ctx.payer) {
                return Err(Rejection::Code(ErrorCode::NotPayerReturning));
            }
            if !same_key(&escrow.payee, &ctx.payee) {
                return Err(Rejection::Code(ErrorCode::NotPayeeReturning));
            }
            if escrow.disputed {
                return Err(Rejection::Code(ErrorCode::EscrowDisputed));
            }
            let balance = match held_balance(lamports, reserve) {
                Ok(balance) => balance,
                Err(rejection) => {
                    return Err(rejection);
                },
            };
            match settle_taxed(
                None,
                ctx.escrow_address,
                ctx.treasury,
                ctx.payer,
                balance,
                escrow.tax,
            ) {
                None => Err(Rejection::ArithmeticOverflow),
                Some(settlement) => {
                    ctx.escrow = None;
                    Ok(
                        (
                            settlement,
                            EscrowReturned {
                                address: ctx.escrow_address,
                                amount: settlement.payout.amount,
                                tax_paid: settlement.collected.amount,
                                token_mint: escrow.token_mint,
                                timestamp: now,
                            },
                        ),
                    )
                },
            }
        },
    }
}

/// The rule that forbids the recovery, if one does: only the payer recovers,
/// and only once the judge's deadline has passed. Whether the escrow is
/// disputed does not matter.
pub open spec fn recover_sol_guard(ctx: RecoverSolanaContext, now: i64) -> Option<Rejection> {
    match ctx.escrow {
        None => Some(Rejection::AccountNotInitialized),
        Some(escrow) => if escrow.token_mint is Some {
            Some(Rejection::Code(ErrorCode::EscrowNotSolana))
        } else if escrow.payer != ctx.payer {
            Some(Rejection::Code(ErrorCode::NotPayerRecovering))
        } else if now <= escrow.judge_deadline {
            Some(Rejection::Code(ErrorCode::RecoverTooEarly))
        } else {
            None
        },
    }
}

/// What `recover_sol_funds` returns. Where no rule forbids the recovery, all
/// that is held goes back to the payer.
pub open spec fn recover_sol_outcome(
    ctx: RecoverSolanaContext,
    lamports: u64,
    reserve: u64,
    now: i64,
) -> Result<(Transfer, EscrowRecovered), Rejection> {
    match recover_sol_guard(ctx, now) {
        Some(rejection) => Err(rejection),
        None => match held(lamports, reserve) {
            None => Err(Rejection::Code(ErrorCode::InsufficientFunds)),
            Some(balance) => Ok(
                (
                    recovery_of(None, ctx.escrow_address, ctx.payer, balance),
                    EscrowRecovered {
                        address: ctx.escrow_address,
                        amount: balance,
                        token_mint: ctx.escrow->0.token_mint,
                        timestamp: now,
                    },
                ),
            ),
        },
    }
}

/// The context that `recover_sol_funds` leaves: on success the escrow is gone.
pub open spec fn recover_sol_after(ctx: RecoverSolanaContext, lamports: u64, reserve: u64, now: i64)
    -> RecoverSolanaContext {
    if recover_sol_outcome(ctx, lamports, reserve, now) is Ok {
        RecoverSolanaContext { escrow: None, ..ctx }
    } else {
        ctx
    }
}

/// Hands all that the escrow holds back to the payer, with neither tax nor fee
/// taken off, and closes the escrow.
pub fn recover_sol_funds(
    ctx: &mut RecoverSolanaContext,
    lamports: u64,
    reserve: u64,
    now: i64,
) -> (outcome: Result<(Transfer, EscrowRecovered), Rejection>)
    ensures
        outcome == recover_sol_outcome(*old(ctx), lamports, reserve, now),
        *final(ctx) == recover_sol_after(*old(ctx), lamports, reserve, now),
{
    match ctx.escrow {
        None => Err(Rejection::AccountNotInitialized),
        Some(escrow) => {
            if escrow.token_mint.is_some() {
                return Err(Rejection::Code(ErrorCode::EscrowNotSolana));
            }
            if !same_key(&escrow.payer, &ctx.payer) {
                return Err(Rejection::Code(ErrorCode::NotPayerRecovering));
            }
            if now <= escrow.judge_deadline {
                return Err(Rejection::Code(ErrorCode::RecoverTooEarly));
            }
            let balance = match held_balance(lamports, reserve) {
                Ok(balance) => balance,
                Err(rejection) => {
                    return Err(rejection);
                },
            };
            ctx.escrow = None;
            Ok(
                (
                    Transfer {
                        asset: None,
                        from: ctx.escrow_address,
                        to: ctx.payer,
                        amount: balance,
                    },
                    EscrowRecovered {
                        address: ctx.escrow_address,
                        amount: balance,
                        token_mint: escrow.token_mint,
                        timestamp: now,
                    },
                ),
            )
        },
    }
}

/// The rule that forbids the judgement, if one does: only the judge of the
/// configuration decides, on an escrow that is disputed, naming its payer and
/// its payee, with the treasury of the configuration collecting.
pub open spec fn judge_sol_guard(ctx: JudgeSolanaContext) -> Option<Rejection> {
    match ctx.escrow {
        None => Some(Rejection::AccountNotInitialized),
        Some(escrow) => if ctx.config.treasury != ctx.treasury {
            Some(Rejection::Code(ErrorCode::UninvolvedUser))
        } else if ctx.config.judge != ctx.judge {
            Some(Rejection::Code(ErrorCode::UninvolvedUser))
        } else if escrow.token_mint is Some {
            Some(Rejection::Code(ErrorCode::EscrowNotSolana))
        } else if !escrow.disputed {
            Some(Rejection::Code(ErrorCode::EscrowNotDisputed))
        } else if escrow.payee != ctx.payee {
            Some(Rejection::Code(ErrorCode::UninvolvedUser))
        } else if escrow.payer != ctx.payer {
            Some(Rejection::Code(ErrorCode::UninvolvedUser))
        } else {
            None
        },
    }
}

/// What `judge_sol_escrow` returns. Where no rule forbids the judgement, the
/// balance held is split between the treasury, which collects the judge's fee,
/// and the winner.
pub open spec fn judge_sol_outcome(
    ctx: JudgeSolanaContext,
    decision: bool,
    lamports: u64,
    reserve: u64,
    now: i64,
) -> Result<(Settlement, EscrowJudged), Rejection> {
    match judge_sol_guard(ctx) {
        Some(rejection) => Err(rejection),
        None => match held(lamports, reserve) {
            None => Err(Rejection::Code(ErrorCode::InsufficientFunds)),
            Some(balance) => match judged(
                None,
                ctx.escrow_address,
                ctx.treasury,
                winner_of(ctx.payer, ctx.payee, decision),
                balance,
                ctx.escrow->0.fee,
            ) {
                None => Err(Rejection::ArithmeticOverflow),
                Some(settlement) => Ok(
                    (
                        settlement,
                        EscrowJudged {
                            address: ctx.escrow_address,
                            winner: winner_of(ctx.payer, ctx.payee, decision),
                            amount_awarded: settlement.payout.amount,
                            fee_collected: settlement.collected.amount,
                            token_mint: ctx.escrow->0.token_mint,
                            timestamp: now,
                        },
                    ),
                ),
            },
        },
    }
}

/// The context that `judge_sol_escrow` leaves: on success the escrow is gone.
pub open spec fn judge_sol_after(
    ctx: JudgeSolanaContext,
    decision: bool,
    lamports: u64,
    reserve: u64,
    now: i64,
) -> JudgeSolanaContext {
    if judge_sol_outcome(ctx, decision, lamports, reserve, now) is Ok {
        JudgeSolanaContext { escrow: None, ..ctx }
    } else {
        ctx
    }
}

/// Awards what the escrow holds, less the judge's fee, to the payee where
/// `decision` is `true` and to the payer where it is `false`, and closes the
/// escrow.
pub fn judge_sol_escrow(
    ctx: &mut JudgeSolanaContext,
    decision: bool,
    lamports: u64,
    reserve: u64,
    now: i64,
) -> (outcome: Result<(Settlement, EscrowJudged), Rejection>)
    ensures
        outcome == judge_sol_outcome(*old(ctx), decision, lamports, reserve, now),
        *final(ctx) == judge_sol_after(*old(ctx), decision, lamports, reserve, now),
        outcome matches Ok(done) ==> held(lamports, reserve) == Some(done.0.total() as u64),
{
    match ctx.escrow {
        None => Err(Rejection::AccountNotInitialized),
        Some(escrow) => {
            if !same_key(&ctx.config.treasury, &ctx.treasury) {
                return Err(Rejection::Code(ErrorCode::UninvolvedUser));
            }
            if !same_key(&ctx.config.judge, &ctx.judge) {
                return Err(Rejection::Code(ErrorCode::UninvolvedUser));
            }
            if escrow.token_mint.is_some() {
                return Err(Rejection::Code(ErrorCode::EscrowNotSolana));
            }
            if !escrow.disputed {
                return Err(Rejection::Code(ErrorCode::EscrowNotDisputed));
            }
            if !same_key(&escrow.payee, &ctx.payee) {
                return Err(Rejection::Code(ErrorCode::UninvolvedUser));
            }
            if !same_key(&escrow.payer, &ctx.payer) {
                return Err(Rejection::Code(ErrorCode::UninvolvedUser));
            }
            let balance = match held_balance(lamports, reserve) {
                Ok(balance) => balance,
                Err(rejection) => {
                    return Err(rejection);
                },
            };
            let winner = if decision {
                ctx.payee
            } else {
                ctx.payer
            };
            match settle_judged(
                None,
                ctx.escrow_address,
                ctx.treasury,
                winner,
                balance,
                escrow.fee,
            ) {
                None => Err(Rejection::ArithmeticOverflow),
                Some(settlement) => {
                    ctx.escrow = None;
                    Ok(
                        (
                            settlement,
                            EscrowJudged {
                                address: ctx.escrow_address,
                                winner,
                                amount_awarded: settlement.payout.amount,
                                fee_collected: settlement.collected.amount,
                                token_mint: escrow.token_mint,
                                timestamp: now,
                            },
                        ),
                    )
                },
            }
        },
    }
}

} // verus!
