use anchor_lang::prelude::Pubkey;
use escrow_sol::errors::{ErrorCode, Rejection};
use escrow_sol::events::{
    EscrowDeposited, EscrowJudged, EscrowRecovered, EscrowReleased, EscrowReturned,
};
use escrow_sol::records::{ConfigAccount, EscrowAccount};
use escrow_sol::settlement::{Settlement, Transfer};
use escrow_sol::token::{
    deposit_token_funds, judge_token_escrow, recover_token_funds, release_token_escrow,
    return_token_escrow, DepositTokenContext, JudgeTokenContext, RecoverTokenContext,
    ReleaseTokenContext, ReturnTokenContext,
};

const TOK_DAY: i64 = 24 * 60 * 60;
const TOK_T: i64 = 1_700_000_000;

fn tok_key(n: u8) -> Pubkey {
    Pubkey::new_from_array([n; 32])
}

fn tok_judge() -> Pubkey {
    tok_key(1)
}

fn tok_treasury() -> Pubkey {
    tok_key(2)
}

fn tok_payer() -> Pubkey {
    tok_key(3)
}

fn tok_payee() -> Pubkey {
    tok_key(4)
}

fn tok_mint() -> Pubkey {
    tok_key(7)
}

fn tok_address() -> Pubkey {
    tok_key(10)
}

fn tok_config() -> ConfigAccount {
    ConfigAccount {
        judge: tok_judge(),
        treasury: tok_treasury(),
        pending_judge: None,
        tax: 500,
        fee: 10,
        bump: 254,
    }
}

fn tok_escrow() -> EscrowAccount {
    EscrowAccount {
        payer: tok_payer(),
        payee: tok_payee(),
        amount: 1000,
        tax: 500,
        fee: 10,
        token_mint: Some(tok_mint()),
        disputed: false,
        deadline: TOK_T + 14 * TOK_DAY,
        judge_deadline: TOK_T + 42 * TOK_DAY,
        creation_time: TOK_T,
        bump: 251,
    }
}

fn tok_native() -> Option<EscrowAccount> {
    Some(EscrowAccount { token_mint: None, ..tok_escrow() })
}

fn tok_disputed() -> Option<EscrowAccount> {
    Some(EscrowAccount { disputed: true, ..tok_escrow() })
}

fn tok_deposit_ctx() -> DepositTokenContext {
    DepositTokenContext {
        payer: tok_payer(),
        escrow_address: tok_address(),
        escrow: Some(tok_escrow()),
        mint: tok_mint(),
    }
}

fn tok_release_ctx() -> ReleaseTokenContext {
    ReleaseTokenContext {
        payer: tok_payer(),
        payee: tok_payee(),
        treasury: tok_treasury(),
        config: tok_config(),
        escrow_address: tok_address(),
        escrow: Some(tok_escrow()),
        mint: tok_mint(),
    }
}

fn tok_return_ctx() -> ReturnTokenContext {
    ReturnTokenContext {
        payee: tok_payee(),
        payer: tok_payer(),
        treasury: tok_treasury(),
        config: tok_config(),
        escrow_address: tok_address(),
        escrow: Some(tok_escrow()),
        mint: tok_mint(),
    }
}

fn tok_recover_ctx() -> RecoverTokenContext {
    RecoverTokenContext {
        payer: tok_payer(),
        escrow_address: tok_address(),
        escrow: Some(tok_escrow()),
        mint: tok_mint(),
    }
}

fn tok_judge_ctx() -> JudgeTokenContext {
    JudgeTokenContext {
        judge: tok_judge(),
        payee: tok_payee(),
        payer: tok_payer(),
        treasury: tok_treasury(),
        config: tok_config(),
        escrow_address: tok_address(),
        escrow: tok_disputed(),
        mint: tok_mint(),
    }
}

fn tok_code<T>(code: ErrorCode) -> Result<T, Rejection> {
    Err(Rejection::Code(code))
}

#[test]
fn deposit_token_orders_the_amount() {
    assert_eq!(
        deposit_token_funds(&tok_deposit_ctx(), TOK_T + 5),
        Ok((
            Transfer { asset: Some(tok_mint()), from: tok_payer(), to: tok_address(), amount: 1000 },
            EscrowDeposited {
                address: tok_address(),
                amount: 1000,
                token_mint: Some(tok_mint()),
                timestamp: TOK_T + 5,
            }
        ))
    );
}

#[test]
fn deposit_token_refusals_in_order() {
    let good = tok_deposit_ctx();
    assert_eq!(
        deposit_token_funds(&DepositTokenContext { escrow: None, ..good }, TOK_T),
        Err(Rejection::AccountNotInitialized)
    );
    assert_eq!(
        deposit_token_funds(&DepositTokenContext { payer: tok_key(99), escrow: tok_native(), ..good }, TOK_T),
        Err(Rejection::ConstraintSeeds)
    );
    assert_eq!(
        deposit_token_funds(&DepositTokenContext { escrow: tok_native(), ..good }, TOK_T),
        tok_code(ErrorCode::EscrowNotToken)
    );
    assert_eq!(
        deposit_token_funds(&DepositTokenContext { mint: tok_key(8), ..good }, TOK_T),
        tok_code(ErrorCode::WrongToken)
    );
}

#[test]
fn release_token_pays_the_payee_less_the_tax() {
    let mut ctx = tok_release_ctx();
    let outcome = release_token_escrow(&mut ctx, 1000, TOK_T + 9);
    assert_eq!(
        outcome,
        Ok((
            Settlement {
                collected: Transfer {
                    asset: Some(tok_mint()),
                    from: tok_address(),
                    to: tok_treasury(),
                    amount: 50,
                },
                payout: Transfer { asset: Some(tok_mint()), from: tok_address(), to: tok_payee(), amount: 950 },
            },
            EscrowReleased {
                address: tok_address(),
                amount: 950,
                tax_paid: 50,
                token_mint: Some(tok_mint()),
                timestamp: TOK_T + 9,
            }
        ))
    );
    assert_eq!(ctx, ReleaseTokenContext { escrow: None, ..tok_release_ctx() });
}

#[test]
fn release_token_refusals_in_order() {
    let good = tok_release_ctx();
    let run = |ctx: ReleaseTokenContext| {
        let mut ctx = ctx;
        let before = ctx;
        let outcome = release_token_escrow(&mut ctx, 1000, TOK_T);
        assert_eq!(ctx, before);
        outcome.map(|_| ())
    };
    let greedy = Some(EscrowAccount { tax: 20_000, ..tok_escrow() });
    assert_eq!(
        run(ReleaseTokenContext { escrow: None, treasury: tok_key(99), ..good }),
        Err(Rejection::AccountNotInitialized)
    );
    assert_eq!(
        run(ReleaseTokenContext { treasury: tok_key(99), escrow: tok_native(), ..good }),
        Err(Rejection::ConstraintRaw)
    );
    assert_eq!(
        run(ReleaseTokenContext { escrow: tok_native(), payer: tok_key(99), ..good }),
        tok_code(ErrorCode::EscrowNotToken)
    );
    assert_eq!(
        run(ReleaseTokenContext { payer: tok_key(99), payee: tok_key(98), ..good }),
        tok_code(ErrorCode::NotPayerReleasing)
    );
    assert_eq!(
        run(ReleaseTokenContext { payee: tok_key(98), escrow: tok_disputed(), ..good }),
        tok_code(ErrorCode::NotPayeeReceiving)
    );
    assert_eq!(
        run(ReleaseTokenContext { escrow: tok_disputed(), mint: tok_key(8), ..good }),
        tok_code(ErrorCode::EscrowDisputed)
    );
    assert_eq!(run(ReleaseTokenContext { mint: tok_key(8), escrow: greedy, ..good }), tok_code(ErrorCode::WrongToken));
    assert_eq!(run(ReleaseTokenContext { escrow: greedy, ..good }), Err(Rejection::ArithmeticOverflow));
}

#[test]
fn return_token_pays_the_payer_less_the_tax() {
    let mut ctx = tok_return_ctx();
    let outcome = return_token_escrow(&mut ctx, 1000, TOK_T + 9);
    assert_eq!(
        outcome,
        Ok((
            Settlement {
                collected: Transfer {
                    asset: Some(tok_mint()),
                    from: tok_address(),
                    to: tok_treasury(),
                    amount: 50,
                },
                payout: Transfer { asset: Some(tok_mint()), from: tok_address(), to: tok_payer(), amount: 950 },
            },
            EscrowReturned {
                address: tok_address(),
                amount: 950,
                tax_paid: 50,
                token_mint: Some(tok_mint()),
                timestamp: TOK_T + 9,
            }
        ))
    );
    assert_eq!(ctx, ReturnTokenContext { escrow: None, ..tok_return_ctx() });
}

#[test]
fn return_token_refusals_in_order() {
    let good = tok_return_ctx();
    let run = |ctx: ReturnTokenContext| {
        let mut ctx = ctx;
        let before = ctx;
        let outcome = return_token_escrow(&mut ctx, 1000, TOK_T);
        assert_eq!(ctx, before);
        outcome.map(|_| ())
    };
    let greedy = Some(EscrowAccount { tax: 20_000, ..tok_escrow() });
    assert_eq!(run(ReturnTokenContext { escrow: None, ..good }), Err(Rejection::AccountNotInitialized));
    assert_eq!(
        run(ReturnTokenContext { payer: tok_key(99), escrow: tok_native(), ..good }),
        tok_code(ErrorCode::UninvolvedUser)
    );
    assert_eq!(
        run(ReturnTokenContext { treasury: tok_key(99), escrow: tok_native(), ..good }),
        tok_code(ErrorCode::UninvolvedUser)
    );
    assert_eq!(
        run(ReturnTokenContext { escrow: tok_native(), payee: tok_key(98), ..good }),
        tok_code(ErrorCode::EscrowNotToken)
    );
    assert_eq!(
        run(ReturnTokenContext { payee: tok_key(98), escrow: tok_disputed(), ..good }),
        tok_code(ErrorCode::UninvolvedUser)
    );
    assert_eq!(
        run(ReturnTokenContext { escrow: tok_disputed(), mint: tok_key(8), ..good }),
        tok_code(ErrorCode::EscrowDisputed)
    );
    assert_eq!(run(ReturnTokenContext { mint: tok_key(8), escrow: greedy, ..good }), tok_code(ErrorCode::WrongToken));
    assert_eq!(run(ReturnTokenContext { escrow: greedy, ..good }), Err(Rejection::ArithmeticOverflow));
}

#[test]
fn recover_token_hands_everything_back() {
    let mut ctx = tok_recover_ctx();
    let now = TOK_T + 43 * TOK_DAY;
    let outcome = recover_token_funds(&mut ctx, 1000, now);
    assert_eq!(
        outcome,
        Ok((
            Transfer { asset: Some(tok_mint()), from: tok_address(), to: tok_payer(), amount: 1000 },
            EscrowRecovered {
                address: tok_address(),
                amount: 1000,
                token_mint: Some(tok_mint()),
                timestamp: now,
            }
        ))
    );
    assert_eq!(ctx.escrow, None);
}

#[test]
fn recover_token_boundary() {
    let deadline = TOK_T + 42 * TOK_DAY;
    let mut ctx = tok_recover_ctx();
    assert_eq!(recover_token_funds(&mut ctx, 1000, deadline), tok_code(ErrorCode::RecoverTooEarly));
    assert_eq!(ctx, tok_recover_ctx());
    let (transfer, _) = recover_token_funds(&mut ctx, 1000, deadline + 1).unwrap();
    assert_eq!(transfer.amount, 1000);
    assert_eq!(ctx.escrow, None);
}

#[test]
fn recover_token_returns_whatever_is_held() {
    let late = TOK_T + 43 * TOK_DAY;
    let mut unfunded = RecoverTokenContext { escrow: tok_disputed(), ..tok_recover_ctx() };
    assert_eq!(recover_token_funds(&mut unfunded, 0, late).unwrap().0.amount, 0);
    let mut all = tok_recover_ctx();
    assert_eq!(recover_token_funds(&mut all, u64::MAX, late).unwrap().0.amount, u64::MAX);
}

#[test]
fn recover_token_refusals_in_order() {
    let good = tok_recover_ctx();
    let run = |ctx: RecoverTokenContext| {
        let mut ctx = ctx;
        let before = ctx;
        let outcome = recover_token_funds(&mut ctx, 1000, TOK_T);
        assert_eq!(ctx, before);
        outcome.map(|_| ())
    };
    assert_eq!(run(RecoverTokenContext { escrow: None, ..good }), Err(Rejection::AccountNotInitialized));
    assert_eq!(
        run(RecoverTokenContext { escrow: tok_native(), payer: tok_key(99), ..good }),
        tok_code(ErrorCode::EscrowNotToken)
    );
    assert_eq!(
        run(RecoverTokenContext { payer: tok_key(99), mint: tok_key(8), ..good }),
        tok_code(ErrorCode::NotPayerRecovering)
    );
    assert_eq!(run(RecoverTokenContext { mint: tok_key(8), ..good }), tok_code(ErrorCode::WrongToken));
    assert_eq!(run(good), tok_code(ErrorCode::RecoverTooEarly));
}

#[test]
fn judge_token_awards_either_party() {
    let mut for_payee = tok_judge_ctx();
    let outcome = judge_token_escrow(&mut for_payee, true, 1000, TOK_T + 3);
    assert_eq!(
        outcome,
        Ok((
            Settlement {
                collected: Transfer {
                    asset: Some(tok_mint()),
                    from: tok_address(),
                    to: tok_treasury(),
                    amount: 100,
                },
                payout: Transfer { asset: Some(tok_mint()), from: tok_address(), to: tok_payee(), amount: 900 },
            },
            EscrowJudged {
                address: tok_address(),
                winner: tok_payee(),
                amount_awarded: 900,
                fee_collected: 100,
                token_mint: Some(tok_mint()),
                timestamp: TOK_T + 3,
            }
        ))
    );
    assert_eq!(for_payee.escrow, None);
    let mut for_payer = tok_judge_ctx();
    let (settlement, event) = judge_token_escrow(&mut for_payer, false, 1000, TOK_T).unwrap();
    assert_eq!((settlement.payout.to, settlement.payout.amount), (tok_payer(), 900));
    assert_eq!((settlement.collected.to, settlement.collected.amount), (tok_treasury(), 100));
    assert_eq!(event.winner, tok_payer());
    assert_eq!(for_payer.escrow, None);
}

#[test]
fn judge_token_refusals_in_order() {
    let good = tok_judge_ctx();
    let run = |ctx: JudgeTokenContext| {
        let mut ctx = ctx;
        let before = ctx;
        let outcome = judge_token_escrow(&mut ctx, false, 1000, TOK_T);
        assert_eq!(ctx, before);
        outcome.map(|_| ())
    };
    let calm = Some(tok_escrow());
    let greedy = Some(EscrowAccount { fee: 101, disputed: true, ..tok_escrow() });
    assert_eq!(run(JudgeTokenContext { escrow: None, ..good }), Err(Rejection::AccountNotInitialized));
    assert_eq!(
        run(JudgeTokenContext { treasury: tok_key(99), escrow: tok_native(), ..good }),
        tok_code(ErrorCode::UninvolvedUser)
    );
    assert_eq!(
        run(JudgeTokenContext { judge: tok_key(99), escrow: tok_native(), ..good }),
        tok_code(ErrorCode::UninvolvedUser)
    );
    assert_eq!(run(JudgeTokenContext { escrow: tok_native(), ..good }), tok_code(ErrorCode::EscrowNotToken));
    assert_eq!(
        run(JudgeTokenContext { escrow: calm, payee: tok_key(98), ..good }),
        tok_code(ErrorCode::EscrowNotDisputed)
    );
    assert_eq!(
        run(JudgeTokenContext { payee: tok_key(98), mint: tok_key(8), ..good }),
        tok_code(ErrorCode::UninvolvedUser)
    );
    assert_eq!(
        run(JudgeTokenContext { payer: tok_key(98), mint: tok_key(8), ..good }),
        tok_code(ErrorCode::UninvolvedUser)
    );
    assert_eq!(run(JudgeTokenContext { mint: tok_key(8), escrow: greedy, ..good }), tok_code(ErrorCode::WrongToken));
    assert_eq!(run(JudgeTokenContext { escrow: greedy, ..good }), Err(Rejection::ArithmeticOverflow));
}
