use anchor_lang::prelude::Pubkey;
use escrow_sol::errors::{ErrorCode, Rejection};
use escrow_sol::events::{EscrowCreated, EscrowDisputed};
use escrow_sol::lifecycle::{
    create_escrow, dispute_escrow, CreateEscrowContext, DisputeEscrowContext,
};
use escrow_sol::records::{
    ConfigAccount, EscrowAccount, EscrowCreationArgs, DISPUTE_WINDOW, JUDGE_WINDOW,
};

const LIFE_DAY: i64 = 24 * 60 * 60;
const LIFE_T: i64 = 1_700_000_000;

fn life_key(n: u8) -> Pubkey {
    Pubkey::new_from_array([n; 32])
}

fn life_config() -> ConfigAccount {
    ConfigAccount {
        judge: life_key(1),
        treasury: life_key(2),
        pending_judge: None,
        tax: 500,
        fee: 10,
        bump: 254,
    }
}

fn life_args(amount: u64) -> EscrowCreationArgs {
    EscrowCreationArgs {
        amount,
        payee: life_key(4),
        deadline: 1,
        judge_deadline: 2,
        token_mint: None,
    }
}

fn life_create_ctx() -> CreateEscrowContext {
    CreateEscrowContext {
        payer: life_key(3),
        config: life_config(),
        escrow_address: life_key(10),
        escrow: None,
        bump: 251,
    }
}

fn life_escrow() -> EscrowAccount {
    EscrowAccount {
        payer: life_key(3),
        payee: life_key(4),
        amount: 1000,
        tax: 500,
        fee: 10,
        token_mint: None,
        disputed: false,
        deadline: LIFE_T + 14 * LIFE_DAY,
        judge_deadline: LIFE_T + 42 * LIFE_DAY,
        creation_time: LIFE_T,
        bump: 251,
    }
}

fn life_dispute_ctx(user: Pubkey) -> DisputeEscrowContext {
    DisputeEscrowContext {
        user,
        config: life_config(),
        escrow_address: life_key(10),
        escrow: Some(life_escrow()),
    }
}

#[test]
fn the_windows_are_14_and_28_days() {
    assert_eq!(DISPUTE_WINDOW, 1_209_600);
    assert_eq!(JUDGE_WINDOW, 2_419_200);
}

#[test]
fn create_escrow_snapshots_the_rates_and_sets_the_deadlines() {
    let mut ctx = life_create_ctx();
    let outcome = create_escrow(&mut ctx, life_args(1000), LIFE_T);
    assert_eq!(
        outcome,
        Ok(EscrowCreated {
            address: life_key(10),
            payer: life_key(3),
            payee: life_key(4),
            amount: 1000,
            token_mint: None,
            timestamp: LIFE_T,
        })
    );
    assert_eq!(ctx.escrow, Some(life_escrow()));
}

#[test]
fn create_escrow_ignores_the_deadlines_in_the_arguments() {
    let mut ctx = life_create_ctx();
    let args = EscrowCreationArgs { deadline: 5, judge_deadline: -7, ..life_args(1000) };
    assert!(create_escrow(&mut ctx, args, 0).is_ok());
    let made = ctx.escrow.unwrap();
    assert_eq!(made.creation_time, 0);
    assert_eq!(made.deadline, 1_209_600);
    assert_eq!(made.judge_deadline, 3_628_800);
}

#[test]
fn create_escrow_keeps_the_token() {
    let mut ctx = life_create_ctx();
    let args = EscrowCreationArgs { token_mint: Some(life_key(7)), ..life_args(1000) };
    assert!(create_escrow(&mut ctx, args, LIFE_T).is_ok());
    assert_eq!(ctx.escrow.unwrap().token_mint, Some(life_key(7)));
}

#[test]
fn create_escrow_rejects_an_amount_whose_tax_rounds_to_nothing() {
    let mut ctx = life_create_ctx();
    // 19 * 500 / 10000 = 0
    assert_eq!(
        create_escrow(&mut ctx, life_args(19), LIFE_T),
        Err(Rejection::Code(ErrorCode::InvalidEscrowAmount))
    );
    assert_eq!(ctx, life_create_ctx());
    assert_eq!(
        create_escrow(&mut ctx, life_args(0), LIFE_T),
        Err(Rejection::Code(ErrorCode::InvalidEscrowAmount))
    );
    // 20 * 500 / 10000 = 1
    assert!(create_escrow(&mut ctx, life_args(20), LIFE_T).is_ok());
}

#[test]
fn create_escrow_rejects_every_amount_when_the_tax_is_zero() {
    let mut ctx = CreateEscrowContext { config: ConfigAccount { tax: 0, ..life_config() }, ..life_create_ctx() };
    assert_eq!(
        create_escrow(&mut ctx, life_args(u64::MAX), LIFE_T),
        Err(Rejection::Code(ErrorCode::InvalidEscrowAmount))
    );
}

#[test]
fn create_escrow_takes_the_largest_amount() {
    let mut ctx = CreateEscrowContext { config: ConfigAccount { tax: 65535, ..life_config() }, ..life_create_ctx() };
    assert!(create_escrow(&mut ctx, life_args(u64::MAX), LIFE_T).is_ok());
    assert_eq!(ctx.escrow.unwrap().amount, u64::MAX);
    assert_eq!(ctx.escrow.unwrap().tax, 65535);
}

#[test]
fn create_escrow_fails_while_the_payer_has_an_escrow() {
    let mut ctx = life_create_ctx();
    assert!(create_escrow(&mut ctx, life_args(1000), LIFE_T).is_ok());
    let after_first = ctx;
    assert_eq!(
        create_escrow(&mut ctx, life_args(5000), LIFE_T + 1),
        Err(Rejection::AccountAlreadyInUse)
    );
    assert_eq!(ctx, after_first);
}

#[test]
fn create_escrow_fails_when_the_deadlines_do_not_fit() {
    let latest = i64::MAX - 42 * LIFE_DAY;
    let mut ctx = life_create_ctx();
    assert_eq!(
        create_escrow(&mut ctx, life_args(1000), latest + 1),
        Err(Rejection::ArithmeticOverflow)
    );
    assert_eq!(ctx, life_create_ctx());
    assert_eq!(
        create_escrow(&mut ctx, life_args(1000), i64::MAX),
        Err(Rejection::ArithmeticOverflow)
    );
    assert!(create_escrow(&mut ctx, life_args(1000), latest).is_ok());
    assert_eq!(ctx.escrow.unwrap().judge_deadline, i64::MAX);
}

#[test]
fn create_escrow_works_before_the_epoch() {
    let mut ctx = life_create_ctx();
    assert!(create_escrow(&mut ctx, life_args(1000), i64::MIN).is_ok());
    assert_eq!(ctx.escrow.unwrap().deadline, i64::MIN + 14 * LIFE_DAY);
}

#[test]
fn later_config_changes_do_not_reach_an_escrow() {
    let mut ctx = life_create_ctx();
    assert!(create_escrow(&mut ctx, life_args(1000), LIFE_T).is_ok());
    let changed = ConfigAccount { tax: 2000, fee: 20, ..life_config() };
    let mut dispute = DisputeEscrowContext {
        user: life_key(3),
        config: changed,
        escrow_address: life_key(10),
        escrow: ctx.escrow,
    };
    assert!(dispute_escrow(&mut dispute, LIFE_T + 1).is_ok());
    let kept = dispute.escrow.unwrap();
    assert_eq!((kept.tax, kept.fee, kept.amount), (500, 10, 1000));
}

#[test]
fn payer_disputes_at_any_time() {
    for now in [i64::MIN, LIFE_T, LIFE_T + 14 * LIFE_DAY, LIFE_T + 100 * LIFE_DAY, i64::MAX] {
        let mut ctx = life_dispute_ctx(life_key(3));
        let outcome = dispute_escrow(&mut ctx, now);
        assert_eq!(
            outcome,
            Ok(EscrowDisputed {
                address: life_key(10),
                payer: life_key(3),
                payee: life_key(4),
                disputed_by: life_key(3),
                timestamp: now,
            })
        );
        assert_eq!(ctx.escrow, Some(EscrowAccount { disputed: true, ..life_escrow() }));
    }
}

#[test]
fn payee_disputes_at_any_time() {
    let mut ctx = life_dispute_ctx(life_key(4));
    assert!(dispute_escrow(&mut ctx, LIFE_T).is_ok());
    assert!(ctx.escrow.unwrap().disputed);
}

#[test]
fn judge_cannot_dispute_up_to_the_deadline() {
    for now in [LIFE_T, LIFE_T + 14 * LIFE_DAY - 1, LIFE_T + 14 * LIFE_DAY] {
        let mut ctx = life_dispute_ctx(life_key(1));
        assert_eq!(dispute_escrow(&mut ctx, now), Err(Rejection::Code(ErrorCode::UninvolvedUser)));
        assert_eq!(ctx, life_dispute_ctx(life_key(1)));
    }
}

#[test]
fn judge_disputes_after_the_deadline() {
    let mut ctx = life_dispute_ctx(life_key(1));
    assert!(dispute_escrow(&mut ctx, LIFE_T + 14 * LIFE_DAY + 1).is_ok());
    assert!(ctx.escrow.unwrap().disputed);
}

#[test]
fn a_party_who_is_the_judge_waits_like_the_judge() {
    let mut ctx = DisputeEscrowContext {
        config: ConfigAccount { judge: life_key(3), ..life_config() },
        ..life_dispute_ctx(life_key(3))
    };
    assert_eq!(dispute_escrow(&mut ctx, LIFE_T), Err(Rejection::Code(ErrorCode::UninvolvedUser)));
    assert!(dispute_escrow(&mut ctx, LIFE_T + 14 * LIFE_DAY + 1).is_ok());
}

#[test]
fn a_stranger_cannot_dispute() {
    let mut ctx = life_dispute_ctx(life_key(99));
    assert_eq!(
        dispute_escrow(&mut ctx, LIFE_T + 100 * LIFE_DAY),
        Err(Rejection::Code(ErrorCode::UninvolvedUser))
    );
    assert_eq!(ctx, life_dispute_ctx(life_key(99)));
}

#[test]
fn disputing_twice_fails_the_second_time() {
    let mut ctx = life_dispute_ctx(life_key(3));
    assert!(dispute_escrow(&mut ctx, LIFE_T).is_ok());
    let disputed = ctx;
    assert_eq!(dispute_escrow(&mut ctx, LIFE_T + 1), Err(Rejection::Code(ErrorCode::EscrowDisputed)));
    assert_eq!(ctx, disputed);
    // The other party and the judge are told the same.
    let mut by_payee = DisputeEscrowContext { user: life_key(4), ..disputed };
    assert_eq!(dispute_escrow(&mut by_payee, LIFE_T + 1), Err(Rejection::Code(ErrorCode::EscrowDisputed)));
    let mut by_judge = DisputeEscrowContext { user: life_key(1), ..disputed };
    assert_eq!(
        dispute_escrow(&mut by_judge, LIFE_T + 100 * LIFE_DAY),
        Err(Rejection::Code(ErrorCode::EscrowDisputed))
    );
}

#[test]
fn dispute_fails_when_there_is_no_escrow() {
    let mut ctx = DisputeEscrowContext { escrow: None, ..life_dispute_ctx(life_key(3)) };
    assert_eq!(dispute_escrow(&mut ctx, LIFE_T), Err(Rejection::AccountNotInitialized));
    assert_eq!(ctx.escrow, None);
}
