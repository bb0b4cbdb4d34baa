//! The configuration: its creation, its update by the judge, and the handing
//! over of the judge's seat in two steps.

use crate::errors::{ErrorCode, Rejection};
use crate::events::{ConfigCreated, ConfigUpdated, JudgeAccepted, JudgeNominated};
use crate::keys::{authorized_launcher, launcher, same_key};
use crate::records::{ConfigAccount, ConfigUpdateArgs, MAX_FEE, MAX_TAX};
use anchor_lang::prelude::Pubkey;
use vstd::prelude::*;

verus! {

/// What `initialize` works on.
#[derive(Clone, Copy, Debug, PartialEq, Eq)]
pub struct Initialize {
    /// Who signs. The owner becomes the first judge.
    pub owner: Pubkey,
    /// Who is to receive the taxes and fees.
    pub treasury: Pubkey,
    /// Where the configuration is kept.
    pub config_address: Pubkey,
    /// The configuration: `None` as long as it has not been created.
    pub config: Option<ConfigAccount>,
    /// The bump of `config_address`.
    pub bump: u8,
}

/// What `update_config` works on.
#[derive(Clone, Copy, Debug, PartialEq, Eq)]
pub struct UpdateContext {
    /// Who signs.
    pub judge: Pubkey,
    /// Where the configuration is kept.
    pub config_address: Pubkey,
    /// The configuration.
    pub config: ConfigAccount,
}

/// What `accept_judge_seat` works on.
#[derive(Clone, Copy, Debug, PartialEq, Eq)]
pub struct AcceptJudgeSeatContext {
    /// Who signs.
    pub pending_judge: Pubkey,
    /// Where the configuration is kept.
    pub config_address: Pubkey,
    /// The configuration.
    pub config: ConfigAccount,
}

/// Why the creation of the configuration is refused, if it is: the
/// configuration exists already, or the signer is not who is allowed to create
/// it.
pub open spec fn initialize_rejection(ctx: Initialize, allowed: Pubkey) -> Option<Rejection> {
    if ctx.config is Some {
        Some(Rejection::AccountAlreadyInUse)
    } else if ctx.owner != allowed {
        Some(Rejection::ConstraintRaw)
    } else {
        None
    }
}

/// The configuration that is created. The rates are taken as they come: only
/// an update holds them to their bounds.
pub open spec fn initial_config(ctx: Initialize, tax: u16, fee: u8) -> ConfigAccount {
    ConfigAccount {
        judge: ctx.owner,
        treasury: ctx.treasury,
        pending_judge: None,
        tax,
        fee,
        bump: ctx.bump,
    }
}

/// What the creation of the configuration returns, where `allowed` is who may
/// create it.
pub open spec fn initialize_outcome(
    ctx: Initialize,
    allowed: Pubkey,
    tax: u16,
    fee: u8,
    now: i64,
) -> Result<ConfigCreated, Rejection> {
    match initialize_rejection(ctx, allowed) {
        Some(rejection) => Err(rejection),
        None => Ok(
            ConfigCreated {
                address: ctx.config_address,
                treasury: ctx.treasury,
                judge: ctx.owner,
                tax,
                fee,
                timestamp: now,
            },
        ),
    }
}

/// The context that the creation of the configuration leaves.
pub open spec fn initialize_after(ctx: Initialize, allowed: Pubkey, tax: u16, fee: u8)
    -> Initialize {
    if initialize_rejection(ctx, allowed) is None {
        Initialize { config: Some(initial_config(ctx, tax, fee)), ..ctx }
    } else {
        ctx
    }
}

/// Creates the configuration, once, for a signer who is `allowed`. The signer
/// becomes the judge.
pub fn initialize_for(
    ctx: &mut Initialize,
    allowed: &Pubkey,
    tax: u16,
    fee: u8,
    now: i64,
) -> (outcome: Result<ConfigCreated, Rejection>)
    ensures
        outcome == initialize_outcome(*old(ctx), *allowed, tax, fee, now),
        *final(ctx) == initialize_after(*old(ctx), *allowed, tax, fee),
{
    if ctx.config.is_some() {
        return Err(Rejection::AccountAlreadyInUse);
    }
    if !same_key(&ctx.owner, allowed) {
        return Err(Rejection::ConstraintRaw);
    }
    ctx.config = Some(
        ConfigAccount {
            judge: ctx.owner,
            treasury: ctx.treasury,
            pending_judge: None,
            tax,
            fee,
            bump: ctx.bump,
        },
    );
    Ok(
        ConfigCreated {
            address: ctx.config_address,
            treasury: ctx.treasury,
            judge: ctx.owner,
            tax,
            fee,
            timestamp: now,
        },
    )
}

/// Creates the configuration, once. The signer must be the launcher, and
/// becomes the judge.
pub fn initialize(ctx: &mut Initialize, tax: u16, fee: u8, now: i64) -> (outcome: Result<
    ConfigCreated,
    Rejection,
>)
    ensures
        outcome == initialize_outcome(*old(ctx), launcher(), tax, fee, now),
        *final(ctx) == initialize_after(*old(ctx), launcher(), tax, fee),
{
    let allowed = authorized_launcher();
    initialize_for(ctx, &allowed, tax, fee, now)
}

/// Why `update_config` refuses, if it does: the signer is not the judge, or a
/// new rate is above its bound. Of two rates above their bounds, the tax is
/// named.
pub open spec fn update_rejection(ctx: UpdateContext, updates: ConfigUpdateArgs) -> Option<
    Rejection,
> {
    if ctx.config.judge != ctx.judge {
        Some(Rejection::ConstraintHasOne)
    } else if updates.tax matches Some(tax) && tax > MAX_TAX {
        Some(Rejection::Code(ErrorCode::TaxTooHigh))
    } else if updates.fee matches Some(fee) && fee > MAX_FEE {
        Some(Rejection::Code(ErrorCode::FeeTooHigh))
    } else {
        None
    }
}

/// The configuration with the fields that `updates` holds put in place of its
/// own. A new pending judge is a nomination: the judge stays.
pub open spec fn patched(config: ConfigAccount, updates: ConfigUpdateArgs) -> ConfigAccount {
    ConfigAccount {
        judge: config.judge,
        treasury: match updates.treasury {
            Some(treasury) => treasury,
            None => config.treasury,
        },
        pending_judge: match updates.pending_judge {
            Some(nominee) => Some(nominee),
            None => config.pending_judge,
        },
        tax: match updates.tax {
            Some(tax) => tax,
            None => config.tax,
        },
        fee: match updates.fee {
            Some(fee) => fee,
            None => config.fee,
        },
        bump: config.bump,
    }
}

/// What `update_config` reports when it succeeds: the nomination, where the
/// update made one, and the configuration as it now stands.
pub open spec fn update_events(ctx: UpdateContext, updates: ConfigUpdateArgs, now: i64) -> (
    Option<JudgeNominated>,
    ConfigUpdated,
) {
    let config = patched(ctx.config, updates);
    (
        match updates.pending_judge {
            Some(nominee) => Some(
                JudgeNominated {
                    address: ctx.config_address,
                    pending_judge: nominee,
                    timestamp: now,
                },
            ),
            None => None,
        },
        ConfigUpdated {
            address: ctx.config_address,
            treasury: config.treasury,
            pending_judge: config.pending_judge,
            tax: config.tax,
            fee: config.fee,
            timestamp: now,
        },
    )
}

/// What `update_config` returns.
pub open spec fn update_outcome(ctx: UpdateContext, updates: ConfigUpdateArgs, now: i64) -> Result<
    (Option<JudgeNominated>, ConfigUpdated),
    Rejection,
> {
    match update_rejection(ctx, updates) {
        Some(rejection) => Err(rejection),
        None => Ok(update_events(ctx, updates, now)),
    }
}

/// The context that `update_config` leaves.
pub open spec fn update_after(ctx: UpdateContext, updates: ConfigUpdateArgs) -> UpdateContext {
    if update_rejection(ctx, updates) is None {
        UpdateContext { config: patched(ctx.config, updates), ..ctx }
    } else {
        ctx
    }
}

/// Changes the fields of the configuration that `updates` holds. Only the
/// judge may do so, and no rate may be set above its bound.
pub fn update_config(ctx: &mut UpdateContext, updates: ConfigUpdateArgs, now: i64) -> (outcome:
    Result<(Option<JudgeNominated>, ConfigUpdated), Rejection>)
    ensures
        outcome == update_outcome(*old(ctx), updates, now),
        *final(ctx) == update_after(*old(ctx), updates),
{
    if !same_key(&ctx.config.judge, &ctx.judge) {
        return Err(Rejection::ConstraintHasOne);
    }
    let mut config = ctx.config;
    match updates.treasury {
        Some(new_treasury) => {
            config.treasury = new_treasury;
        },
        None => {},
    }
    match updates.tax {
        Some(new_tax) => {
            if new_tax > MAX_TAX {
                return Err(Rejection::Code(ErrorCode::TaxTooHigh));
            }
            config.tax = new_tax;
        },
        None => {},
    }
    match updates.fee {
        Some(new_fee) => {
            if new_fee > MAX_FEE {
                return Err(Rejection::Code(ErrorCode::FeeTooHigh));
            }
            config.fee = new_fee;
        },
        None => {},
    }
    let nominated = match updates.pending_judge {
        Some(new_judge) => {
            config.pending_judge = Some(new_judge);
            Some(
                JudgeNominated {
                    address: ctx.config_address,
                    pending_judge: new_judge,
                    timestamp: now,
                },
            )
        },
        None => None,
    };
    ctx.config = config;
    Ok(
        (
            nominated,
            ConfigUpdated {
                address: ctx.config_address,
                treasury: config.treasury,
                pending_judge: config.pending_judge,
                tax: config.tax,
                fee: config.fee,
                timestamp: now,
            },
        ),
    )
}

/// Why `accept_judge_seat` refuses, if it does: nobody is nominated, or the
/// signer is not the nominee.
pub open spec fn accept_rejection(ctx: AcceptJudgeSeatContext) -> Option<Rejection> {
    match ctx.config.pending_judge {
        None => Some(Rejection::Code(ErrorCode::NoPendingJudge)),
        Some(nominee) => if nominee != ctx.pending_judge {
            Some(Rejection::Code(ErrorCode::UnauthorizedJudge))
        } else {
            None
        },
    }
}

/// What `accept_judge_seat` returns.
pub open spec fn accept_outcome(ctx: AcceptJudgeSeatContext, now: i64) -> Result<
    JudgeAccepted,
    Rejection,
> {
    match accept_rejection(ctx) {
        Some(rejection) => Err(rejection),
        None => Ok(
            JudgeAccepted {
                address: ctx.config_address,
                old_judge: ctx.config.judge,
                new_judge: ctx.pending_judge,
                timestamp: now,
            },
        ),
    }
}

/// The context that `accept_judge_seat` leaves: the nominee is the judge, and
/// nobody is nominated.
pub open spec fn accept_after(ctx: AcceptJudgeSeatContext) -> AcceptJudgeSeatContext {
    if accept_rejection(ctx) is None {
        AcceptJudgeSeatContext {
            config: ConfigAccount { judge: ctx.pending_judge, pending_judge: None, ..ctx.config },
            ..ctx
        }
    } else {
        ctx
    }
}

/// Makes the nominee the judge. Only the nominee may do so.
pub fn accept_judge_seat(ctx: &mut AcceptJudgeSeatContext, now: i64) -> (outcome: Result<
    JudgeAccepted,
    Rejection,
>)
    ensures
        outcome == accept_outcome(*old(ctx), now),
        *final(ctx) == accept_after(*old(ctx)),
{
    let old_judge = ctx.config.judge;
    match ctx.config.pending_judge {
        None => Err(Rejection::Code(ErrorCode::NoPendingJudge)),
        Some(new_judge) => {
            if !same_key(&new_judge, &ctx.pending_judge) {
                return Err(Rejection::Code(ErrorCode::UnauthorizedJudge));
            }
            ctx.config.judge = new_judge;
            ctx.config.pending_judge = None;
            Ok(
                JudgeAccepted {
                    address: ctx.config_address,
                    old_judge,
                    new_judge,
                    timestamp: now,
                },
            )
        },
    }
}

} // verus!
