//! The beginning of an escrow's life: its creation by the payer, and the
//! dispute that hands it to the judge.

use crate::errors::{ErrorCode, Rejection};
use crate::events::{EscrowCreated, EscrowDisputed};
use crate::keys::same_key;
use crate::records::{
    ConfigAccount,
    EscrowAccount,
    EscrowCreationArgs,
    DISPUTE_WINDOW,
    JUDGE_WINDOW,
};
use crate::settlement::{tax_due, tax_on};
use anchor_lang::prelude::Pubkey;
use vstd::prelude::*;

verus! {

/// What `create_escrow` works on.
#[derive(Clone, Copy, Debug, PartialEq, Eq)]
pub struct CreateEscrowContext {
    /// Who signs, and will deposit the funds.
    pub payer: Pubkey,
    /// The configuration, whose rates the new escrow takes over.
    pub config: ConfigAccount,
    /// Where the payer's escrow is kept.
    pub escrow_address: Pubkey,
    /// The payer's escrow: `None` as long as the payer has none.
    pub escrow: Option<EscrowAccount>,
    /// The bump of `escrow_address`.
    pub bump: u8,
}

/// What `dispute_escrow` works on.
#[derive(Clone, Copy, Debug, PartialEq, Eq)]
pub struct DisputeEscrowContext {
    /// Who signs.
    pub user: Pubkey,
    /// The configuration, which names the judge.
    pub config: ConfigAccount,
    /// Where the escrow is kept.
    pub escrow_address: Pubkey,
    /// The escrow: `None` once it has been settled.
    pub escrow: Option<EscrowAccount>,
}

/// The latest time at which an escrow can be created: later, the judge's
/// deadline would not fit the clock's type.
pub open spec fn latest_creation() -> int {
    i64::MAX - DISPUTE_WINDOW - JUDGE_WINDOW
}

/// Why `create_escrow` refuses, if it does: the payer has an escrow already,
/// the tax on the amount would round to nothing, or the time is too late for
/// the deadlines to be told.
pub open spec fn create_rejection(ctx: CreateEscrowContext, args: EscrowCreationArgs, now: i64)
    -> Option<Rejection> {
    if ctx.escrow is Some {
        Some(Rejection::AccountAlreadyInUse)
    } else if tax_due(args.amount, ctx.config.tax) < 1 {
        Some(Rejection::Code(ErrorCode::InvalidEscrowAmount))
    } else if now > latest_creation() {
        Some(Rejection::ArithmeticOverflow)
    } else {
        None
    }
}

/// The escrow that `create_escrow` creates: undisputed, with the rates of the
/// configuration as they stand, and with its deadlines 14 and 42 days from now.
pub open spec fn new_escrow(ctx: CreateEscrowContext, args: EscrowCreationArgs, now: i64)
    -> EscrowAccount {
    EscrowAccount {
        payer: ctx.payer,
        payee: args.payee,
        amount: args.amount,
        tax: ctx.config.tax,
        fee: ctx.config.fee,
        token_mint: args.token_mint,
        disputed: false,
        deadline: (now + DISPUTE_WINDOW) as i64,
        judge_deadline: (now + DISPUTE_WINDOW + JUDGE_WINDOW) as i64,
        creation_time: now,
        bump: ctx.bump,
    }
}

/// What `create_escrow` returns.
pub open spec fn create_outcome(ctx: CreateEscrowContext, args: EscrowCreationArgs, now: i64)
    -> Result<EscrowCreated, Rejection> {
    match create_rejection(ctx, args, now) {
        Some(rejection) => Err(rejection),
        None => Ok(
            EscrowCreated {
                address: ctx.escrow_address,
                payer: ctx.payer,
                payee: args.payee,
                amount: args.amount,
                token_mint: args.token_mint,
                timestamp: now,
            },
        ),
    }
}

/// The context that `create_escrow` leaves.
pub open spec fn create_after(ctx: CreateEscrowContext, args: EscrowCreationArgs, now: i64)
    -> CreateEscrowContext {
    if create_rejection(ctx, args, now) is None {
        CreateEscrowContext { escrow: Some(new_escrow(ctx, args, now)), ..ctx }
    } else {
        ctx
    }
}

/// Creates the payer's escrow. A payer has one escrow at a time, and the
/// amount must be large enough for the tax on it to be at least one unit.
pub fn create_escrow(ctx: &mut CreateEscrowContext, args: EscrowCreationArgs, now: i64) -> (outcome:
    Result<EscrowCreated, Rejection>)
    ensures
        outcome == create_outcome(*old(ctx), args, now),
        *final(ctx) == create_after(*old(ctx), args, now),
        outcome is Ok ==> final(ctx).escrow->0.on_schedule(),
{
    if ctx.escrow.is_some() {
        return Err(Rejection::AccountAlreadyInUse);
    }
    let taxable = match tax_on(args.amount, ctx.config.tax) {
        Some(due) => due >= 1,
        None => true,
    };
    if !taxable {
        return Err(Rejection::Code(ErrorCode::InvalidEscrowAmount));
    }
    if now > i64::MAX - DISPUTE_WINDOW - JUDGE_WINDOW {
        return Err(Rejection::ArithmeticOverflow);
    }
    let deadline: i64 = now + DISPUTE_WINDOW;
    let judge_deadline: i64 = deadline + JUDGE_WINDOW;
    ctx.escrow = Some(
        EscrowAccount {
            payer: ctx.payer,
            payee: args.payee,
            amount: args.amount,
            tax: ctx.config.tax,
            fee: ctx.config.fee,
            token_mint: args.token_mint,
            disputed: false,
            deadline,
            judge_deadline,
            creation_time: now,
            bump: ctx.bump,
        },
    );
    Ok(
        EscrowCreated {
            address: ctx.escrow_address,
            payer: ctx.payer,
            payee: args.payee,
            amount: args.amount,
            token_mint: args.token_mint,
            timestamp: now,
        },
    )
}

/// Why `dispute_escrow` refuses, if it does. The payer and the payee may
/// dispute at any time; whoever is the judge may do so only after the deadline.
pub open spec fn dispute_rejection(ctx: DisputeEscrowContext, now: i64) -> Option<Rejection> {
    match ctx.escrow {
        None => Some(Rejection::AccountNotInitialized),
        Some(escrow) => if escrow.disputed {
            Some(Rejection::Code(ErrorCode::EscrowDisputed))
        } else if ctx.user != escrow.payer && ctx.user != escrow.payee && ctx.user
            != ctx.config.judge {
            Some(Rejection::Code(ErrorCode::UninvolvedUser))
        } else if ctx.user == ctx.config.judge && now <= escrow.deadline {
            Some(Rejection::Code(ErrorCode::UninvolvedUser))
        } else {
            None
        },
    }
}

/// What `dispute_escrow` returns.
pub open spec fn dispute_outcome(ctx: DisputeEscrowContext, now: i64) -> Result<
    EscrowDisputed,
    Rejection,
> {
    match dispute_rejection(ctx, now) {
        Some(rejection) => Err(rejection),
        None => Ok(
            EscrowDisputed {
                address: ctx.escrow_address,
                payer: ctx.escrow->0.payer,
                payee: ctx.escrow->0.payee,
                disputed_by: ctx.user,
                timestamp: now,
            },
        ),
    }
}

/// The context that `dispute_escrow` leaves: the escrow is disputed, and
/// nothing else about it has changed.
pub open spec fn dispute_after(ctx: DisputeEscrowContext, now: i64) -> DisputeEscrowContext {
    if dispute_rejection(ctx, now) is None {
        DisputeEscrowContext {
            escrow: Some(EscrowAccount { disputed: true, ..ctx.escrow->0 }),
            ..ctx
        }
    } else {
        ctx
    }
}

/// Puts the escrow in dispute, for good.
pub fn dispute_escrow(ctx: &mut DisputeEscrowContext, now: i64) -> (outcome: Result<
    EscrowDisputed,
    Rejection,
>)
    ensures
        outcome == dispute_outcome(*old(ctx), now),
        *final(ctx) == dispute_after(*old(ctx), now),
{
    match ctx.escrow {
        None => Err(Rejection::AccountNotInitialized),
        Some(escrow) => {
            if escrow.disputed {
                return Err(Rejection::Code(ErrorCode::EscrowDisputed));
            }
            let by_judge = same_key(&ctx.user, &ctx.config.judge);
            let by_party = same_key(&ctx.user, &escrow.payer) || same_key(
                &ctx.user,
                &escrow.payee,
            );
            if !by_party && !by_judge {
                return Err(Rejection::Code(ErrorCode::UninvolvedUser));
            }
            if by_judge && now <= escrow.deadline {
                return Err(Rejection::Code(ErrorCode::UninvolvedUser));
            }
            ctx.escrow = Some(EscrowAccount { disputed: true, ..escrow });
            Ok(
                EscrowDisputed {
                    address: ctx.escrow_address,
                    payer: escrow.payer,
                    payee: escrow.payee,
                    disputed_by: ctx.user,
                    timestamp: now,
                },
            )
        },
    }
}

} // verus!
