//! What holds of every settlement: it hands out what the escrow held, no more
//! and no less, and it is final.
//!
//! Eight operations settle an escrow. `Settling` stands for a call of any one
//! of them, so that what holds of all of them is said once.

use crate::errors::{fails_with, Rejection};
use crate::lifecycle::{
    create_after,
    create_outcome,
    dispute_outcome,
    latest_creation,
    new_escrow,
    CreateEscrowContext,
    DisputeEscrowContext,
};
use crate::native::{
    deposit_sol_outcome,
    held,
    judge_sol_after,
    judge_sol_outcome,
    recover_sol_after,
    recover_sol_outcome,
    release_sol_after,
    release_sol_outcome,
    return_sol_after,
    return_sol_outcome,
    DepositSolanaContext,
    JudgeSolanaContext,
    RecoverSolanaContext,
    ReleaseSolanaContext,
    ReturnSolanaContext,
};
use crate::records::{EscrowAccount, EscrowCreationArgs};
use crate::registry::EscrowRegistry;
use crate::settlement::{
    after_settlement,
    after_transfer,
    lemma_judged_conserves,
    lemma_share_within_balance,
    lemma_taxed_conserves,
    tax_due,
    winner_of,
    BASIS_POINTS,
    PERCENT,
};
use crate::token::{
    deposit_token_outcome,
    judge_token_after,
    judge_token_outcome,
    recover_token_after,
    recover_token_outcome,
    release_token_after,
    release_token_outcome,
    return_token_after,
    return_token_outcome,
    DepositTokenContext,
    JudgeTokenContext,
    RecoverTokenContext,
    ReleaseTokenContext,
    ReturnTokenContext,
};
use anchor_lang::prelude::Pubkey;
use vstd::prelude::*;

verus! {

/// One call of one of the operations that settle an escrow, with all that the
/// call is given but the time.
#[allow(inconsistent_fields)]
pub enum Settling {
    ReleaseNative { ctx: ReleaseSolanaContext, lamports: u64, reserve: u64 },
    ReturnNative { ctx: ReturnSolanaContext, lamports: u64, reserve: u64 },
    RecoverNative { ctx: RecoverSolanaContext, lamports: u64, reserve: u64 },
    JudgeNative { ctx: JudgeSolanaContext, decision: bool, lamports: u64, reserve: u64 },
    ReleaseToken { ctx: ReleaseTokenContext, balance: u64 },
    ReturnToken { ctx: ReturnTokenContext, balance: u64 },
    RecoverToken { ctx: RecoverTokenContext, balance: u64 },
    JudgeToken { ctx: JudgeTokenContext, decision: bool, balance: u64 },
}

impl Settling {
    /// The escrow that the call finds.
    pub open spec fn escrow_before(self) -> Option<EscrowAccount> {
        match self {
            Settling::ReleaseNative { ctx, .. } => ctx.escrow,
            Settling::ReturnNative { ctx, .. } => ctx.escrow,
            Settling::RecoverNative { ctx, .. } => ctx.escrow,
            Settling::JudgeNative { ctx, .. } => ctx.escrow,
            Settling::ReleaseToken { ctx, .. } => ctx.escrow,
            Settling::ReturnToken { ctx, .. } => ctx.escrow,
            Settling::RecoverToken { ctx, .. } => ctx.escrow,
            Settling::JudgeToken { ctx, .. } => ctx.escrow,
        }
    }

    /// Whether the call, made at `now`, succeeds.
    pub open spec fn succeeds(self, now: i64) -> bool {
        match self {
            Settling::ReleaseNative { ctx, lamports, reserve } => release_sol_outcome(
                ctx,
                lamports,
                reserve,
                now,
            ) is Ok,
            Settling::ReturnNative { ctx, lamports, reserve } => return_sol_outcome(
                ctx,
                lamports,
                reserve,
                now,
            ) is Ok,
            Settling::RecoverNative { ctx, lamports, reserve } => recover_sol_outcome(
                ctx,
                lamports,
                reserve,
                now,
            ) is Ok,
            Settling::JudgeNative { ctx, decision, lamports, reserve } => judge_sol_outcome(
                ctx,
                decision,
                lamports,
                reserve,
                now,
            ) is Ok,
            Settling::ReleaseToken { ctx, balance } => release_token_outcome(ctx, balance, now)
                is Ok,
            Settling::ReturnToken { ctx, balance } => return_token_outcome(ctx, balance, now)
                is Ok,
            Settling::RecoverToken { ctx, balance } => recover_token_outcome(ctx, balance, now)
                is Ok,
            Settling::JudgeToken { ctx, decision, balance } => judge_token_outcome(
                ctx,
                decision,
                balance,
                now,
            ) is Ok,
        }
    }

    /// The escrow that the call, made at `now`, leaves.
    pub open spec fn escrow_after(self, now: i64) -> Option<EscrowAccount> {
        match self {
            Settling::ReleaseNative { ctx, lamports, reserve } => release_sol_after(
                ctx,
                lamports,
                reserve,
                now,
            ).escrow,
            Settling::ReturnNative { ctx, lamports, reserve } => return_sol_after(
                ctx,
                lamports,
                reserve,
                now,
            ).escrow,
            Settling::RecoverNative { ctx, lamports, reserve } => recover_sol_after(
                ctx,
                lamports,
                reserve,
                now,
            ).escrow,
            Settling::JudgeNative { ctx, decision, lamports, reserve } => judge_sol_after(
                ctx,
                decision,
                lamports,
                reserve,
                now,
            ).escrow,
            Settling::ReleaseToken { ctx, balance } => release_token_after(
                ctx,
                balance,
                now,
            ).escrow,
            Settling::ReturnToken { ctx, balance } => return_token_after(ctx, balance, now).escrow,
            Settling::RecoverToken { ctx, balance } => recover_token_after(
                ctx,
                balance,
                now,
            ).escrow,
            Settling::JudgeToken { ctx, decision, balance } => judge_token_after(
                ctx,
                decision,
                balance,
                now,
            ).escrow,
        }
    }

    /// What the escrow holds when the call is made, where its account is not
    /// below its reserve.
    pub open spec fn balance(self) -> Option<u64> {
        match self {
            Settling::ReleaseNative { lamports, reserve, .. } => held(lamports, reserve),
            Settling::ReturnNative { lamports, reserve, .. } => held(lamports, reserve),
            Settling::RecoverNative { lamports, reserve, .. } => held(lamports, reserve),
            Settling::JudgeNative { lamports, reserve, .. } => held(lamports, reserve),
            Settling::ReleaseToken { balance, .. } => Some(balance),
            Settling::ReturnToken { balance, .. } => Some(balance),
            Settling::RecoverToken { balance, .. } => Some(balance),
            Settling::JudgeToken { balance, .. } => Some(balance),
        }
    }

    /// Whether the call is a recovery.
    pub open spec fn is_recovery(self) -> bool {
        self is RecoverNative || self is RecoverToken
    }

    /// Whether the call is the judge's decision.
    pub open spec fn is_judgement(self) -> bool {
        self is JudgeNative || self is JudgeToken
    }

    /// Who signs the call.
    pub open spec fn signer(self) -> Pubkey {
        match self {
            Settling::ReleaseNative { ctx, .. } => ctx.payer,
            Settling::ReturnNative { ctx, .. } => ctx.payee,
            Settling::RecoverNative { ctx, .. } => ctx.payer,
            Settling::JudgeNative { ctx, .. } => ctx.judge,
            Settling::ReleaseToken { ctx, .. } => ctx.payer,
            Settling::ReturnToken { ctx, .. } => ctx.payee,
            Settling::RecoverToken { ctx, .. } => ctx.payer,
            Settling::JudgeToken { ctx, .. } => ctx.judge,
        }
    }

    /// Who must sign a call of this operation on the given escrow: the payer
    /// releases and recovers, the payee returns, and the judge of the
    /// configuration decides.
    pub open spec fn entitled(self, escrow: EscrowAccount) -> Pubkey {
        match self {
            Settling::ReleaseNative { .. } => escrow.payer,
            Settling::ReturnNative { .. } => escrow.payee,
            Settling::RecoverNative { .. } => escrow.payer,
            Settling::JudgeNative { ctx, .. } => ctx.config.judge,
            Settling::ReleaseToken { .. } => escrow.payer,
            Settling::ReturnToken { .. } => escrow.payee,
            Settling::RecoverToken { .. } => escrow.payer,
            Settling::JudgeToken { ctx, .. } => ctx.config.judge,
        }
    }

    /// To whom the call, made at `now`, orders the escrow's funds to be paid:
    /// the party that it favours and, but for a recovery, the treasury.
    pub open spec fn pays(self, now: i64) -> Set<Pubkey> {
        match self {
            Settling::ReleaseNative { ctx, lamports, reserve } => match release_sol_outcome(
                ctx,
                lamports,
                reserve,
                now,
            ) {
                Ok(done) => set![done.0.payout.to, done.0.collected.to],
                Err(_) => set![],
            },
            Settling::ReturnNative { ctx, lamports, reserve } => match return_sol_outcome(
                ctx,
                lamports,
                reserve,
                now,
            ) {
                Ok(done) => set![done.0.payout.to, done.0.collected.to],
                Err(_) => set![],
            },
            Settling::RecoverNative { ctx, lamports, reserve } => match recover_sol_outcome(
                ctx,
                lamports,
                reserve,
                now,
            ) {
                Ok(done) => set![done.0.to],
                Err(_) => set![],
            },
            Settling::JudgeNative { ctx, decision, lamports, reserve } => match judge_sol_outcome(
                ctx,
                decision,
                lamports,
                reserve,
                now,
            ) {
                Ok(done) => set![done.0.payout.to, done.0.collected.to],
                Err(_) => set![],
            },
            Settling::ReleaseToken { ctx, balance } => match release_token_outcome(
                ctx,
                balance,
                now,
            ) {
                Ok(done) => set![done.0.payout.to, done.0.collected.to],
                Err(_) => set![],
            },
            Settling::ReturnToken { ctx, balance } => match return_token_outcome(
                ctx,
                balance,
                now,
            ) {
                Ok(done) => set![done.0.payout.to, done.0.collected.to],
                Err(_) => set![],
            },
            Settling::RecoverToken { ctx, balance } => match recover_token_outcome(
                ctx,
                balance,
                now,
            ) {
                Ok(done) => set![done.0.to],
                Err(_) => set![],
            },
            Settling::JudgeToken { ctx, decision, balance } => match judge_token_outcome(
                ctx,
                decision,
                balance,
                now,
            ) {
                Ok(done) => set![done.0.payout.to, done.0.collected.to],
                Err(_) => set![],
            },
        }
    }

    /// Where the escrow is kept, and holds its funds.
    pub open spec fn holder(self) -> Pubkey {
        match self {
            Settling::ReleaseNative { ctx, .. } => ctx.escrow_address,
            Settling::ReturnNative { ctx, .. } => ctx.escrow_address,
            Settling::RecoverNative { ctx, .. } => ctx.escrow_address,
            Settling::JudgeNative { ctx, .. } => ctx.escrow_address,
            Settling::ReleaseToken { ctx, .. } => ctx.escrow_address,
            Settling::ReturnToken { ctx, .. } => ctx.escrow_address,
            Settling::RecoverToken { ctx, .. } => ctx.escrow_address,
            Settling::JudgeToken { ctx, .. } => ctx.escrow_address,
        }
    }

    /// What every holder has once the ledger has carried out what the call,
    /// made at `now`, orders. A call that fails orders nothing.
    pub open spec fn carried_out(self, now: i64, holding: spec_fn(Pubkey) -> int) -> spec_fn(
        Pubkey,
    ) -> int {
        match self {
            Settling::ReleaseNative { ctx, lamports, reserve } => match release_sol_outcome(
                ctx,
                lamports,
                reserve,
                now,
            ) {
                Ok(done) => after_settlement(holding, done.0),
                Err(_) => holding,
            },
            Settling::ReturnNative { ctx, lamports, reserve } => match return_sol_outcome(
                ctx,
                lamports,
                reserve,
                now,
            ) {
                Ok(done) => after_settlement(holding, done.0),
                Err(_) => holding,
            },
            Settling::RecoverNative { ctx, lamports, reserve } => match recover_sol_outcome(
                ctx,
                lamports,
                reserve,
                now,
            ) {
                Ok(done) => after_transfer(holding, done.0),
                Err(_) => holding,
            },
            Settling::JudgeNative { ctx, decision, lamports, reserve } => match judge_sol_outcome(
                ctx,
                decision,
                lamports,
                reserve,
                now,
            ) {
                Ok(done) => after_settlement(holding, done.0),
                Err(_) => holding,
            },
            Settling::ReleaseToken { ctx, balance } => match release_token_outcome(
                ctx,
                balance,
                now,
            ) {
                Ok(done) => after_settlement(holding, done.0),
                Err(_) => holding,
            },
            Settling::ReturnToken { ctx, balance } => match return_token_outcome(
                ctx,
                balance,
                now,
            ) {
                Ok(done) => after_settlement(holding, done.0),
                Err(_) => holding,
            },
            Settling::RecoverToken { ctx, balance } => match recover_token_outcome(
                ctx,
                balance,
                now,
            ) {
                Ok(done) => after_transfer(holding, done.0),
                Err(_) => holding,
            },
            Settling::JudgeToken { ctx, decision, balance } => match judge_token_outcome(
                ctx,
                decision,
                balance,
                now,
            ) {
                Ok(done) => after_settlement(holding, done.0),
                Err(_) => holding,
            },
        }
    }

    /// The treasury that the call names, where the operation names one.
    pub open spec fn treasury(self) -> Option<Pubkey> {
        match self {
            Settling::ReleaseNative { ctx, .. } => Some(ctx.config.treasury),
            Settling::ReturnNative { ctx, .. } => Some(ctx.config.treasury),
            Settling::RecoverNative { .. } => None,
            Settling::JudgeNative { ctx, .. } => Some(ctx.config.treasury),
            Settling::ReleaseToken { ctx, .. } => Some(ctx.config.treasury),
            Settling::ReturnToken { ctx, .. } => Some(ctx.config.treasury),
            Settling::RecoverToken { .. } => None,
            Settling::JudgeToken { ctx, .. } => Some(ctx.config.treasury),
        }
    }

    /// What the call, made at `now`, orders to be paid to the party that it
    /// favours.
    pub open spec fn paid(self, now: i64) -> int {
        match self {
            Settling::ReleaseNative { ctx, lamports, reserve } => match release_sol_outcome(
                ctx,
                lamports,
                reserve,
                now,
            ) {
                Ok(done) => done.0.payout.amount as int,
                Err(_) => 0,
            },
            Settling::ReturnNative { ctx, lamports, reserve } => match return_sol_outcome(
                ctx,
                lamports,
                reserve,
                now,
            ) {
                Ok(done) => done.0.payout.amount as int,
                Err(_) => 0,
            },
            Settling::RecoverNative { ctx, lamports, reserve } => match recover_sol_outcome(
                ctx,
                lamports,
                reserve,
                now,
            ) {
                Ok(done) => done.0.amount as int,
                Err(_) => 0,
            },
            Settling::JudgeNative { ctx, decision, lamports, reserve } => match judge_sol_outcome(
                ctx,
                decision,
                lamports,
                reserve,
                now,
            ) {
                Ok(done) => done.0.payout.amount as int,
                Err(_) => 0,
            },
            Settling::ReleaseToken { ctx, balance } => match release_token_outcome(
                ctx,
                balance,
                now,
            ) {
                Ok(done) => done.0.payout.amount as int,
                Err(_) => 0,
            },
            Settling::ReturnToken { ctx, balance } => match return_token_outcome(
                ctx,
                balance,
                now,
            ) {
                Ok(done) => done.0.payout.amount as int,
                Err(_) => 0,
            },
            Settling::RecoverToken { ctx, balance } => match recover_token_outcome(
                ctx,
                balance,
                now,
            ) {
                Ok(done) => done.0.amount as int,
                Err(_) => 0,
            },
            Settling::JudgeToken { ctx, decision, balance } => match judge_token_outcome(
                ctx,
                decision,
                balance,
                now,
            ) {
                Ok(done) => done.0.payout.amount as int,
                Err(_) => 0,
            },
        }
    }

    /// What the call, made at `now`, orders to be paid to the treasury. A
    /// recovery orders no such payment.
    pub open spec fn collected(self, now: i64) -> int {
        match self {
            Settling::ReleaseNative { ctx, lamports, reserve } => match release_sol_outcome(
                ctx,
                lamports,
                reserve,
                now,
            ) {
                Ok(done) => done.0.collected.amount as int,
                Err(_) => 0,
            },
            Settling::ReturnNative { ctx, lamports, reserve } => match return_sol_outcome(
                ctx,
                lamports,
                reserve,
                now,
            ) {
                Ok(done) => done.0.collected.amount as int,
                Err(_) => 0,
            },
            Settling::RecoverNative { .. } => 0,
            Settling::JudgeNative { ctx, decision, lamports, reserve } => match judge_sol_outcome(
                ctx,
                decision,
                lamports,
                reserve,
                now,
            ) {
                Ok(done) => done.0.collected.amount as int,
                Err(_) => 0,
            },
            Settling::ReleaseToken { ctx, balance } => match release_token_outcome(
                ctx,
                balance,
                now,
            ) {
                Ok(done) => done.0.collected.amount as int,
                Err(_) => 0,
            },
            Settling::ReturnToken { ctx, balance } => match return_token_outcome(
                ctx,
                balance,
                now,
            ) {
                Ok(done) => done.0.collected.amount as int,
                Err(_) => 0,
            },
            Settling::RecoverToken { .. } => 0,
            Settling::JudgeToken { ctx, decision, balance } => match judge_token_outcome(
                ctx,
                decision,
                balance,
                now,
            ) {
                Ok(done) => done.0.collected.amount as int,
                Err(_) => 0,
            },
        }
    }

    /// Whether the call, made at `now`, fails for the given reason.
    pub open spec fn fails_for(self, now: i64, why: Rejection) -> bool {
        match self {
            Settling::ReleaseNative { ctx, lamports, reserve } => fails_with(
                release_sol_outcome(ctx, lamports, reserve, now),
                why,
            ),
            Settling::ReturnNative { ctx, lamports, reserve } => fails_with(
                return_sol_outcome(ctx, lamports, reserve, now),
                why,
            ),
            Settling::RecoverNative { ctx, lamports, reserve } => fails_with(
                recover_sol_outcome(ctx, lamports, reserve, now),
                why,
            ),
            Settling::JudgeNative { ctx, decision, lamports, reserve } => fails_with(
                judge_sol_outcome(ctx, decision, lamports, reserve, now),
                why,
            ),
            Settling::ReleaseToken { ctx, balance } => fails_with(
                release_token_outcome(ctx, balance, now),
                why,
            ),
            Settling::ReturnToken { ctx, balance } => fails_with(
                return_token_outcome(ctx, balance, now),
                why,
            ),
            Settling::RecoverToken { ctx, balance } => fails_with(
                recover_token_outcome(ctx, balance, now),
                why,
            ),
            Settling::JudgeToken { ctx, decision, balance } => fails_with(
                judge_token_outcome(ctx, decision, balance, now),
                why,
            ),
        }
    }
}

/// Where there is no escrow, every settlement fails for that reason.
pub proof fn law_no_settlement_without_escrow(call: Settling, now: i64)
    requires
        call.escrow_before() is None,
    ensures
        call.fails_for(now, Rejection::AccountNotInitialized),
{
}

/// A settlement is final. It leaves no escrow, and on what it leaves every
/// further settlement fails, whichever it is and whenever it is asked for.
pub proof fn law_settlement_is_final(first: Settling, at: i64, second: Settling, later: i64)
    requires
        first.succeeds(at),
        second.escrow_before() == first.escrow_after(at),
    ensures
        first.escrow_after(at) is None,
        !second.succeeds(later),
{
}

/// A call that fails leaves the escrow as it found it.
pub proof fn law_failure_changes_nothing(call: Settling, now: i64)
    requires
        !call.succeeds(now),
    ensures
        call.escrow_after(now) == call.escrow_before(),
{
}

/// On an escrow that is gone, a dispute and a deposit fail as well.
pub proof fn law_settled_escrow_is_gone(
    dispute: DisputeEscrowContext,
    native: DepositSolanaContext,
    token: DepositTokenContext,
    reserve: u64,
    now: i64,
)
    requires
        dispute.escrow is None,
        native.escrow is None,
        token.escrow is None,
    ensures
        fails_with(dispute_outcome(dispute, now), Rejection::AccountNotInitialized),
        fails_with(deposit_sol_outcome(native, reserve, now), Rejection::AccountNotInitialized),
        fails_with(deposit_token_outcome(token, now), Rejection::AccountNotInitialized),
{
}

/// Once the payer's escrow has been settled, the payer can create a new one:
/// the creation succeeds whenever the amount bears a tax of at least one unit
/// and the time leaves room for the deadlines.
pub proof fn law_creation_after_settlement(
    settled: Settling,
    at: i64,
    ctx: CreateEscrowContext,
    args: EscrowCreationArgs,
    now: i64,
)
    requires
        settled.succeeds(at),
        ctx.escrow == settled.escrow_after(at),
        tax_due(args.amount, ctx.config.tax) >= 1,
        now <= latest_creation(),
    ensures
        create_outcome(ctx, args, now) is Ok,
        create_after(ctx, args, now).escrow == Some(new_escrow(ctx, args, now)),
{
}

/// No settlement makes or loses value: what it pays out and what it collects
/// for the treasury are together what the escrow held. A recovery collects
/// nothing, and pays out all that was held.
pub proof fn law_conservation(call: Settling, now: i64)
    requires
        call.succeeds(now),
    ensures
        call.balance() is Some,
        call.paid(now) + call.collected(now) == call.balance()->0,
        call.is_recovery() ==> call.collected(now) == 0 && call.paid(now) == call.balance()->0,
{
    match call {
        Settling::ReleaseNative { ctx, lamports, reserve } => {
            lemma_taxed_conserves(
                None,
                ctx.escrow_address,
                ctx.treasury,
                ctx.payee,
                held(lamports, reserve)->0,
                ctx.escrow->0.tax,
            );
        },
        Settling::ReturnNative { ctx, lamports, reserve } => {
            lemma_taxed_conserves(
                None,
                ctx.escrow_address,
                ctx.treasury,
                ctx.payer,
                held(lamports, reserve)->0,
                ctx.escrow->0.tax,
            );
        },
        Settling::JudgeNative { ctx, decision, lamports, reserve } => {
            lemma_judged_conserves(
                None,
                ctx.escrow_address,
                ctx.treasury,
                winner_of(ctx.payer, ctx.payee, decision),
                held(lamports, reserve)->0,
                ctx.escrow->0.fee,
            );
        },
        Settling::ReleaseToken { ctx, balance } => {
            lemma_taxed_conserves(
                ctx.escrow->0.token_mint,
                ctx.escrow_address,
                ctx.treasury,
                ctx.payee,
                balance,
                ctx.escrow->0.tax,
            );
        },
        Settling::ReturnToken { ctx, balance } => {
            lemma_taxed_conserves(
                ctx.escrow->0.token_mint,
                ctx.escrow_address,
                ctx.treasury,
                ctx.payer,
                balance,
                ctx.escrow->0.tax,
            );
        },
        Settling::JudgeToken { ctx, decision, balance } => {
            lemma_judged_conserves(
                ctx.escrow->0.token_mint,
                ctx.escrow_address,
                ctx.treasury,
                winner_of(ctx.payer, ctx.payee, decision),
                balance,
                ctx.escrow->0.fee,
            );
        },
        Settling::RecoverNative { .. } => {},
        Settling::RecoverToken { .. } => {},
    }
}

/// An escrow whose tax does not exceed the whole and whose fee does not
/// either is never refused for its arithmetic: the treasury's part never
/// exceeds what is held.
pub proof fn law_bounded_rates_settle(call: Settling, now: i64)
    requires
        call.escrow_before() matches Some(escrow) && escrow.tax <= BASIS_POINTS && escrow.fee
            <= PERCENT,
    ensures
        !call.fails_for(now, Rejection::ArithmeticOverflow),
{
    let escrow = call.escrow_before()->0;
    match call.balance() {
        Some(balance) => {
            lemma_share_within_balance(balance, escrow.tax as int, BASIS_POINTS as int);
            lemma_share_within_balance(balance, escrow.fee as int, PERCENT as int);
        },
        None => {},
    }
}

/// Only who is entitled settles: a settlement that succeeds was signed by the
/// payer for a release or a recovery, by the payee for a return, and by the
/// judge of the configuration for a judgement.
pub proof fn law_only_the_entitled_settle(call: Settling, now: i64)
    requires
        call.succeeds(now),
    ensures
        call.escrow_before() matches Some(escrow) && call.signer() == call.entitled(escrow),
{
}

/// Whether an escrow is disputed decides who settles it: a release and a
/// return take an escrow that is not disputed, the judge one that is. A
/// recovery takes either, once the judge's deadline has passed.
pub proof fn law_dispute_decides_who_settles(call: Settling, now: i64)
    requires
        call.succeeds(now),
    ensures
        call.escrow_before() matches Some(escrow) && {
            &&& call.is_judgement() ==> escrow.disputed
            &&& !call.is_judgement() && !call.is_recovery() ==> !escrow.disputed
            &&& call.is_recovery() ==> now > escrow.judge_deadline
        },
{
}

/// The funds of an escrow reach nobody but its two parties and the treasury
/// of the configuration.
pub proof fn law_funds_stay_among_the_parties(call: Settling, now: i64, receiver: Pubkey)
    requires
        call.succeeds(now),
        call.pays(now).contains(receiver),
    ensures
        call.escrow_before() matches Some(escrow) && (receiver == escrow.payer || receiver
            == escrow.payee || call.treasury() == Some(receiver)),
{
}

/// A settlement empties the escrow: once the ledger has carried out what it
/// orders, the escrow holds nothing above its reserve. This takes the escrow to
/// be kept apart from those whom it pays.
pub proof fn law_settlement_empties_the_escrow(
    call: Settling,
    now: i64,
    holding: spec_fn(Pubkey) -> int,
)
    requires
        call.succeeds(now),
        !call.pays(now).contains(call.holder()),
    ensures
        call.balance() is Some,
        call.carried_out(now, holding)(call.holder()) == holding(call.holder())
            - call.balance()->0,
{
    law_conservation(call, now);
}

/// What leaves the escrow arrives: once the ledger has carried out what a
/// settlement orders, everybody but the escrow has what they had and what
/// they were paid, and those who were not paid have what they had.
pub proof fn law_settlement_moves_and_makes_nothing(
    call: Settling,
    now: i64,
    holding: spec_fn(Pubkey) -> int,
    who: Pubkey,
)
    requires
        call.succeeds(now),
        who != call.holder(),
    ensures
        call.carried_out(now, holding)(who) >= holding(who),
        !call.pays(now).contains(who) ==> call.carried_out(now, holding)(who) == holding(who),
        call.carried_out(now, holding)(who) - holding(who) <= call.balance()->0,
{
    law_conservation(call, now);
}

/// A call that fails moves nothing.
pub proof fn law_failure_moves_nothing(call: Settling, now: i64, holding: spec_fn(Pubkey) -> int)
    requires
        !call.succeeds(now),
    ensures
        call.carried_out(now, holding) == holding,
{
}

/// In a registry, creation is a guarded insert. Where the registry keeps an
/// escrow for the payer, the creation fails and the registry stays as it is;
/// where the creation succeeds, the registry keeps the new escrow for the payer
/// and, for everybody else, what it kept.
pub proof fn law_creation_is_a_guarded_insert(
    registry: EscrowRegistry,
    ctx: CreateEscrowContext,
    args: EscrowCreationArgs,
    now: i64,
)
    requires
        ctx.escrow == registry.kept(ctx.payer),
    ensures
        registry@.contains_key(ctx.payer) ==> {
            &&& fails_with(create_outcome(ctx, args, now), Rejection::AccountAlreadyInUse)
            &&& registry.committed(ctx.payer, create_after(ctx, args, now).escrow) == registry@
        },
        create_outcome(ctx, args, now) is Ok ==> {
            &&& !registry@.contains_key(ctx.payer)
            &&& registry.committed(ctx.payer, create_after(ctx, args, now).escrow)
                == registry@.insert(ctx.payer, new_escrow(ctx, args, now))
        },
{
    if registry@.contains_key(ctx.payer) {
        registry.lemma_keyed_by_payer(ctx.payer);
        assert(registry@.insert(ctx.payer, registry@[ctx.payer]) =~= registry@);
    }
}

/// In a registry, a settlement removes the escrow. Once what a successful
/// settlement leaves has been committed for the payer, the registry keeps
/// nothing for that payer, so that every further settlement of what it keeps
/// fails, and it keeps for everybody else what it kept.
pub proof fn law_settlement_removes_the_escrow(
    registry: EscrowRegistry,
    payer: Pubkey,
    call: Settling,
    now: i64,
)
    requires
        call.escrow_before() == registry.kept(payer),
        call.succeeds(now),
    ensures
        registry@.contains_key(payer),
        registry.committed(payer, call.escrow_after(now)) == registry@.remove(payer),
        !registry.committed(payer, call.escrow_after(now)).contains_key(payer),
{
}

} // verus!
