//! What holds of the configuration and of a single escrow whatever the keys,
//! the amounts and the times: the bounds of the rates, the handing over of the
//! judge's seat, the rules of creation, deposit and dispute, and the moment of
//! recovery.

use crate::config::{
    accept_after,
    accept_outcome,
    initialize_after,
    initialize_outcome,
    patched,
    Initialize,
    update_after,
    update_outcome,
    AcceptJudgeSeatContext,
    UpdateContext,
};
use crate::errors::{fails_with, fails_with_code, ErrorCode, Rejection};
use crate::lifecycle::{
    create_after,
    create_outcome,
    dispute_after,
    dispute_outcome,
    CreateEscrowContext,
    DisputeEscrowContext,
};
use crate::native::{
    deposit_sol_outcome,
    recover_sol_after,
    recover_sol_outcome,
    DepositSolanaContext,
    RecoverSolanaContext,
};
use crate::records::{ConfigUpdateArgs, EscrowCreationArgs, MAX_FEE, MAX_TAX};
use crate::settlement::{after_transfer, BASIS_POINTS, PERCENT};
use crate::token::{
    deposit_token_outcome,
    recover_token_after,
    recover_token_outcome,
    DepositTokenContext,
    RecoverTokenContext,
};
use anchor_lang::prelude::Pubkey;
use vstd::prelude::*;

verus! {

/// The configuration is created once. Whoever is allowed creates it where
/// there is none, and is then its judge; on what a creation leaves, every
/// further one fails, whoever asks for it.
pub proof fn law_configuration_is_created_once(
    ctx: Initialize,
    allowed: Pubkey,
    tax: u16,
    fee: u8,
    now: i64,
    again: Initialize,
    later: i64,
)
    requires
        ctx.config is None,
        ctx.owner == allowed,
        again.config == initialize_after(ctx, allowed, tax, fee).config,
    ensures
        initialize_outcome(ctx, allowed, tax, fee, now) is Ok,
        initialize_after(ctx, allowed, tax, fee).config matches Some(made) && made.judge
            == ctx.owner && made.treasury == ctx.treasury && made.tax == tax && made.fee == fee
            && made.pending_judge is None,
        fails_with(
            initialize_outcome(again, allowed, tax, fee, later),
            Rejection::AccountAlreadyInUse,
        ),
        initialize_after(again, allowed, tax, fee) == again,
{
}

/// The judge's update is accepted whenever each rate that it sets is within
/// its bound, and it then puts exactly the fields that it holds in place.
pub proof fn law_update_within_bounds(ctx: UpdateContext, updates: ConfigUpdateArgs, now: i64)
    requires
        ctx.config.judge == ctx.judge,
        updates.tax matches Some(tax) ==> tax <= MAX_TAX,
        updates.fee matches Some(fee) ==> fee <= MAX_FEE,
    ensures
        update_outcome(ctx, updates, now) is Ok,
        update_after(ctx, updates).config == patched(ctx.config, updates),
        ctx.config.rates_in_bounds() ==> update_after(ctx, updates).config.rates_in_bounds(),
{
}

/// The judge's update is rejected whenever it sets a rate above its bound: for
/// the tax with `TaxTooHigh`, for the fee alone with `FeeTooHigh`. The
/// configuration then stays as it was.
pub proof fn law_update_above_bounds(ctx: UpdateContext, updates: ConfigUpdateArgs, now: i64)
    requires
        ctx.config.judge == ctx.judge,
        (updates.tax matches Some(tax) && tax > MAX_TAX) || (updates.fee matches Some(fee) && fee
            > MAX_FEE),
    ensures
        (updates.tax matches Some(tax) && tax > MAX_TAX) ==> fails_with_code(
            update_outcome(ctx, updates, now),
            ErrorCode::TaxTooHigh,
        ),
        !(updates.tax matches Some(tax) && tax > MAX_TAX) ==> fails_with_code(
            update_outcome(ctx, updates, now),
            ErrorCode::FeeTooHigh,
        ),
        update_after(ctx, updates) == ctx,
{
}

/// No update, whoever asks for it and whatever it holds, takes rates that are
/// within their bounds out of them.
pub proof fn law_update_keeps_bounds(ctx: UpdateContext, updates: ConfigUpdateArgs)
    requires
        ctx.config.rates_in_bounds(),
    ensures
        update_after(ctx, updates).config.rates_in_bounds(),
{
}

/// The seat is taken exactly when the signer is the pending judge. The signer
/// is then the judge and nobody is pending; otherwise nothing changes. With
/// nobody pending, nobody can take the seat.
pub proof fn law_judge_handoff(ctx: AcceptJudgeSeatContext, now: i64)
    ensures
        accept_outcome(ctx, now) is Ok <==> ctx.config.pending_judge == Some(ctx.pending_judge),
        accept_outcome(ctx, now) is Ok ==> {
            &&& accept_after(ctx).config.judge == ctx.config.pending_judge->0
            &&& accept_after(ctx).config.pending_judge is None
        },
        accept_outcome(ctx, now) is Err ==> accept_after(ctx) == ctx,
        ctx.config.pending_judge is None ==> fails_with_code(
            accept_outcome(ctx, now),
            ErrorCode::NoPendingJudge,
        ),
{
}

/// Whoever is the judge cannot dispute an escrow up to its deadline.
pub proof fn law_judge_waits_for_deadline(ctx: DisputeEscrowContext, now: i64)
    requires
        ctx.user == ctx.config.judge,
        ctx.escrow matches Some(escrow) && now <= escrow.deadline,
    ensures
        dispute_outcome(ctx, now) is Err,
        !ctx.escrow->0.disputed ==> fails_with_code(
            dispute_outcome(ctx, now),
            ErrorCode::UninvolvedUser,
        ),
        dispute_after(ctx, now) == ctx,
{
}

/// The payer and the payee can dispute an escrow that exists and is not yet
/// disputed, at any time. A party who is the judge as well is held to the
/// judge's rule, and waits for the deadline.
pub proof fn law_parties_dispute_at_any_time(ctx: DisputeEscrowContext, now: i64)
    requires
        ctx.escrow matches Some(escrow) && !escrow.disputed && (ctx.user == escrow.payer
            || ctx.user == escrow.payee),
        ctx.user == ctx.config.judge ==> now > ctx.escrow->0.deadline,
    ensures
        dispute_outcome(ctx, now) is Ok,
        dispute_after(ctx, now).escrow matches Some(escrow) && escrow.disputed,
{
}

/// An escrow is disputed once: after a dispute, every further one fails with
/// `EscrowDisputed`, whoever asks for it and whenever.
pub proof fn law_dispute_only_once(
    first: DisputeEscrowContext,
    at: i64,
    second: DisputeEscrowContext,
    later: i64,
)
    requires
        dispute_outcome(first, at) is Ok,
        second.escrow == dispute_after(first, at).escrow,
    ensures
        fails_with_code(dispute_outcome(second, later), ErrorCode::EscrowDisputed),
{
}

/// A payer who has an escrow cannot create another.
pub proof fn law_one_escrow_per_payer(ctx: CreateEscrowContext, args: EscrowCreationArgs, now: i64)
    requires
        ctx.escrow is Some,
    ensures
        fails_with(create_outcome(ctx, args, now), Rejection::AccountAlreadyInUse),
        create_after(ctx, args, now) == ctx,
{
}

/// A dispute changes nothing of an escrow but that it is disputed: the
/// parties, the amount, the token, the two rates and the deadlines stay as
/// creation set them. Failed or not, it never takes a dispute back.
pub proof fn law_dispute_keeps_the_terms(ctx: DisputeEscrowContext, now: i64)
    requires
        ctx.escrow is Some,
    ensures
        dispute_after(ctx, now).escrow matches Some(kept) && {
            let found = ctx.escrow->0;
            &&& kept.payer == found.payer
            &&& kept.payee == found.payee
            &&& kept.amount == found.amount
            &&& kept.tax == found.tax
            &&& kept.fee == found.fee
            &&& kept.token_mint == found.token_mint
            &&& kept.deadline == found.deadline
            &&& kept.judge_deadline == found.judge_deadline
            &&& kept.creation_time == found.creation_time
            &&& found.disputed ==> kept.disputed
            &&& found.on_schedule() ==> kept.on_schedule()
        },
{
}

/// A new escrow takes its rates from the configuration as it stands, and a
/// configuration within its bounds gives rates that no settlement can fail on.
pub proof fn law_escrow_snapshots_the_rates(
    ctx: CreateEscrowContext,
    args: EscrowCreationArgs,
    now: i64,
)
    requires
        create_outcome(ctx, args, now) is Ok,
    ensures
        create_after(ctx, args, now).escrow matches Some(made) && {
            &&& made.tax == ctx.config.tax
            &&& made.fee == ctx.config.fee
            &&& made.amount == args.amount
            &&& made.payer == ctx.payer
            &&& made.payee == args.payee
            &&& !made.disputed
            &&& made.on_schedule()
            &&& ctx.config.rates_in_bounds() ==> made.tax <= BASIS_POINTS && made.fee <= PERCENT
        },
{
}

/// The payer of a native escrow whose account is not below its reserve
/// recovers exactly when the judge's deadline has passed: at the deadline
/// itself the recovery fails with `RecoverTooEarly`, a second later it succeeds.
pub proof fn law_recovery_boundary_native(
    ctx: RecoverSolanaContext,
    lamports: u64,
    reserve: u64,
    now: i64,
)
    requires
        ctx.escrow matches Some(escrow) && escrow.token_mint is None && escrow.payer == ctx.payer,
        lamports >= reserve,
    ensures
        now <= ctx.escrow->0.judge_deadline ==> fails_with_code(
            recover_sol_outcome(ctx, lamports, reserve, now),
            ErrorCode::RecoverTooEarly,
        ),
        now > ctx.escrow->0.judge_deadline ==> recover_sol_outcome(ctx, lamports, reserve, now)
            is Ok,
        now == ctx.escrow->0.judge_deadline + 1 ==> recover_sol_after(
            ctx,
            lamports,
            reserve,
            now,
        ).escrow is None,
{
}

/// The payer of a token escrow recovers exactly when the judge's deadline has
/// passed: at the deadline itself the recovery fails with `RecoverTooEarly`, a
/// second later it succeeds.
pub proof fn law_recovery_boundary_token(ctx: RecoverTokenContext, balance: u64, now: i64)
    requires
        ctx.escrow matches Some(escrow) && escrow.token_mint == Some(ctx.mint) && escrow.payer
            == ctx.payer,
    ensures
        now <= ctx.escrow->0.judge_deadline ==> fails_with_code(
            recover_token_outcome(ctx, balance, now),
            ErrorCode::RecoverTooEarly,
        ),
        now > ctx.escrow->0.judge_deadline ==> recover_token_outcome(ctx, balance, now) is Ok,
        now == ctx.escrow->0.judge_deadline + 1 ==> recover_token_after(ctx, balance, now).escrow
            is None,
{
}

/// A deposit funds the escrow: once the ledger has carried out what a deposit
/// orders, the escrow has what it had and, on top of it, its amount and the
/// reserve; an escrow that had its reserve then holds at least its amount. This
/// takes the escrow to be kept apart from the payer.
pub proof fn law_deposit_funds_the_escrow(
    native: DepositSolanaContext,
    reserve: u64,
    token: DepositTokenContext,
    now: i64,
    holding: spec_fn(Pubkey) -> int,
)
    requires
        native.payer != native.escrow_address,
        token.payer != token.escrow_address,
    ensures
        deposit_sol_outcome(native, reserve, now) matches Ok(done) ==> {
            let after = after_transfer(holding, done.0);
            &&& after(native.escrow_address) == holding(native.escrow_address)
                + native.escrow->0.amount + reserve
            &&& after(native.payer) == holding(native.payer) - native.escrow->0.amount - reserve
            &&& holding(native.escrow_address) >= reserve ==> after(native.escrow_address)
                - reserve >= native.escrow->0.amount
        },
        deposit_token_outcome(token, now) matches Ok(done) ==> {
            let after = after_transfer(holding, done.0);
            &&& after(token.escrow_address) == holding(token.escrow_address)
                + token.escrow->0.amount
            &&& after(token.payer) == holding(token.payer) - token.escrow->0.amount
        },
{
}

} // verus!
