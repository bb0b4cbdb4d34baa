//! The arithmetic of a settlement, and the transfers that carry it out.
//!
//! A settlement splits the balance that the escrow holds into what the
//! treasury collects and what the winning party is paid. The treasury's part is
//! a rate applied to the balance, the product taken first and divided
//! afterwards, so that a small rate is not lost to rounding before it is applied.

use anchor_lang::prelude::Pubkey;
use vstd::prelude::*;

verus! {

/// The scale of the tax: a tax of 10000 would take the whole balance.
pub const BASIS_POINTS: u64 = 10000;

/// The scale of the judge's fee: a fee of 100 would take the whole balance.
pub const PERCENT: u64 = 100;

/// The part of `balance` that `rate` out of `scale` takes, rounded down.
pub open spec fn share(balance: u64, rate: int, scale: int) -> int {
    (balance as int * rate) / scale
}

/// The tax due on `balance` at `tax` basis points.
pub open spec fn tax_due(balance: u64, tax: u16) -> int {
    share(balance, tax as int, BASIS_POINTS as int)
}

/// The judge's fee due on `balance` at `fee` percent.
pub open spec fn fee_due(balance: u64, fee: u8) -> int {
    share(balance, fee as int, PERCENT as int)
}

/// An order to the ledger: move `amount` of `asset` from one holder to another.
/// The asset is a token, or native value where it is `None`.
#[derive(Clone, Copy, Debug, PartialEq, Eq)]
pub struct Transfer {
    pub asset: Option<Pubkey>,
    pub from: Pubkey,
    pub to: Pubkey,
    pub amount: u64,
}

/// The two transfers of a settlement that charges a tax or a fee.
#[derive(Clone, Copy, Debug, PartialEq, Eq)]
pub struct Settlement {
    /// What the treasury collects.
    pub collected: Transfer,
    /// What the winning party is paid.
    pub payout: Transfer,
}

impl Settlement {
    /// All that leaves the escrow.
    pub open spec fn total(self) -> int {
        self.collected.amount + self.payout.amount
    }
}

/// What every holder has of one asset once the ledger has carried out the
/// order, given what every holder had before. `holding` tells the amount by
/// the holder's key.
pub open spec fn after_transfer(holding: spec_fn(Pubkey) -> int, order: Transfer) -> spec_fn(
    Pubkey,
) -> int {
    |who: Pubkey|
        holding(who) - (if who == order.from {
            order.amount as int
        } else {
            0
        }) + (if who == order.to {
            order.amount as int
        } else {
            0
        })
}

/// What every holder has once the ledger has carried out both orders of the
/// settlement.
pub open spec fn after_settlement(holding: spec_fn(Pubkey) -> int, settlement: Settlement)
    -> spec_fn(Pubkey) -> int {
    after_transfer(after_transfer(holding, settlement.collected), settlement.payout)
}

/// The settlement of `balance` held at `holder`: `due` goes to the treasury and
/// the rest to the winner.
pub open spec fn settlement_of(
    asset: Option<Pubkey>,
    holder: Pubkey,
    treasury: Pubkey,
    winner: Pubkey,
    balance: u64,
    due: int,
) -> Settlement {
    Settlement {
        collected: Transfer { asset, from: holder, to: treasury, amount: due as u64 },
        payout: Transfer { asset, from: holder, to: winner, amount: (balance - due) as u64 },
    }
}

/// A rate that does not exceed its scale takes no more than the balance.
pub proof fn lemma_share_within_balance(balance: u64, rate: int, scale: int)
    requires
        0 <= rate <= scale,
        0 < scale,
    ensures
        0 <= share(balance, rate, scale) <= balance,
{
    let b = balance as int;
    assert(0 <= b * rate <= b * scale) by (nonlinear_arith)
        requires
            0 <= b,
            0 <= rate <= scale,
    ;
    assert(0 <= (b * rate) / scale <= b) by (nonlinear_arith)
        requires
            0 <= b * rate <= b * scale,
            0 < scale,
    ;
}

/// A share is never negative, whatever the rate.
pub proof fn lemma_share_nonnegative(balance: u64, rate: int, scale: int)
    requires
        0 <= rate,
        0 < scale,
    ensures
        0 <= share(balance, rate, scale),
{
    let b = balance as int;
    assert(0 <= (b * rate) / scale) by (nonlinear_arith)
        requires
            0 <= b,
            0 <= rate,
            0 < scale,
    ;
}

/// Computes a share of the balance, or `None` where the share would exceed it.
fn share_of(balance: u64, rate: u64, scale: u64) -> (part: Option<u64>)
    requires
        0 < scale,
    ensures
        part == if share(balance, rate as int, scale as int) <= balance {
            Some(share(balance, rate as int, scale as int) as u64)
        } else {
            None::<u64>
        },
{
    proof {
        lemma_share_nonnegative(balance, rate as int, scale as int);
        assert(balance as int * rate as int <= 0xFFFF_FFFF_FFFF_FFFF * 0xFFFF_FFFF_FFFF_FFFF)
            by (nonlinear_arith)
            requires
                0 <= balance <= 0xFFFF_FFFF_FFFF_FFFF,
                0 <= rate <= 0xFFFF_FFFF_FFFF_FFFF,
        ;
        assert(0 <= balance as int * rate as int) by (nonlinear_arith)
            requires
                0 <= balance,
                0 <= rate,
        ;
    }
    let product: u128 = (balance as u128) * (rate as u128);
    let part: u128 = product / (scale as u128);
    if part <= balance as u128 {
        Some(part as u64)
    } else {
        None
    }
}

/// The tax on `balance` at `tax` basis points, or `None` where the tax would
/// exceed the balance, which takes a rate above 10000.
pub fn tax_on(balance: u64, tax: u16) -> (due: Option<u64>)
    ensures
        due == if tax_due(balance, tax) <= balance {
            Some(tax_due(balance, tax) as u64)
        } else {
            None::<u64>
        },
        tax <= BASIS_POINTS ==> due is Some,
{
    proof {
        if tax <= BASIS_POINTS {
            lemma_share_within_balance(balance, tax as int, BASIS_POINTS as int);
        }
    }
    share_of(balance, tax as u64, BASIS_POINTS)
}

/// The judge's fee on `balance` at `fee` percent, or `None` where the fee would
/// exceed the balance, which takes a rate above 100.
pub fn fee_on(balance: u64, fee: u8) -> (due: Option<u64>)
    ensures
        due == if fee_due(balance, fee) <= balance {
            Some(fee_due(balance, fee) as u64)
        } else {
            None::<u64>
        },
        fee <= PERCENT ==> due is Some,
{
    proof {
        if fee <= PERCENT {
            lemma_share_within_balance(balance, fee as int, PERCENT as int);
        }
    }
    share_of(balance, fee as u64, PERCENT)
}

/// Splits `balance` into `due` for the treasury and the rest for the winner.
pub fn settle(
    asset: Option<Pubkey>,
    holder: Pubkey,
    treasury: Pubkey,
    winner: Pubkey,
    balance: u64,
    due: u64,
) -> (settlement: Settlement)
    requires
        due <= balance,
    ensures
        settlement == settlement_of(asset, holder, treasury, winner, balance, due as int),
        settlement.total() == balance,
{
    Settlement {
        collected: Transfer { asset, from: holder, to: treasury, amount: due },
        payout: Transfer { asset, from: holder, to: winner, amount: balance - due },
    }
}

/// The settlement that charges the tax: `None` where the tax would exceed the
/// balance.
pub open spec fn taxed(
    asset: Option<Pubkey>,
    holder: Pubkey,
    treasury: Pubkey,
    winner: Pubkey,
    balance: u64,
    tax: u16,
) -> Option<Settlement> {
    if tax_due(balance, tax) <= balance {
        Some(settlement_of(asset, holder, treasury, winner, balance, tax_due(balance, tax)))
    } else {
        None
    }
}

/// The settlement that charges the judge's fee: `None` where the fee would
/// exceed the balance.
pub open spec fn judged(
    asset: Option<Pubkey>,
    holder: Pubkey,
    treasury: Pubkey,
    winner: Pubkey,
    balance: u64,
    fee: u8,
) -> Option<Settlement> {
    if fee_due(balance, fee) <= balance {
        Some(settlement_of(asset, holder, treasury, winner, balance, fee_due(balance, fee)))
    } else {
        None
    }
}

/// Whom the decision favours: the payee where it is `true`, the payer where it
/// is `false`.
pub open spec fn winner_of(payer: Pubkey, payee: Pubkey, decision: bool) -> Pubkey {
    if decision {
        payee
    } else {
        payer
    }
}

/// The transfer that hands the whole balance back, with nothing taken off.
pub open spec fn recovery_of(asset: Option<Pubkey>, holder: Pubkey, payer: Pubkey, balance: u64)
    -> Transfer {
    Transfer { asset, from: holder, to: payer, amount: balance }
}

/// A settlement with the tax taken off hands out the balance, no more and no
/// less, and the treasury's part of it is the tax.
pub proof fn lemma_taxed_conserves(
    asset: Option<Pubkey>,
    holder: Pubkey,
    treasury: Pubkey,
    winner: Pubkey,
    balance: u64,
    tax: u16,
)
    ensures
        taxed(asset, holder, treasury, winner, balance, tax) matches Some(made) ==> {
            &&& made.total() == balance
            &&& made.collected.amount == tax_due(balance, tax)
            &&& made.payout.amount == balance - tax_due(balance, tax)
        },
{
    lemma_share_nonnegative(balance, tax as int, BASIS_POINTS as int);
}

/// A settlement with the judge's fee taken off hands out the balance, no more
/// and no less, and the treasury's part of it is the fee.
pub proof fn lemma_judged_conserves(
    asset: Option<Pubkey>,
    holder: Pubkey,
    treasury: Pubkey,
    winner: Pubkey,
    balance: u64,
    fee: u8,
)
    ensures
        judged(asset, holder, treasury, winner, balance, fee) matches Some(made) ==> {
            &&& made.total() == balance
            &&& made.collected.amount == fee_due(balance, fee)
            &&& made.payout.amount == balance - fee_due(balance, fee)
        },
{
    lemma_share_nonnegative(balance, fee as int, PERCENT as int);
}

/// Settles `balance` with the tax taken off.
pub fn settle_taxed(
    asset: Option<Pubkey>,
    holder: Pubkey,
    treasury: Pubkey,
    winner: Pubkey,
    balance: u64,
    tax: u16,
) -> (settlement: Option<Settlement>)
    ensures
        settlement == taxed(asset, holder, treasury, winner, balance, tax),
        settlement matches Some(made) ==> made.total() == balance,
        tax <= BASIS_POINTS ==> settlement is Some,
{
    match tax_on(balance, tax) {
        Some(due) => Some(settle(asset, holder, treasury, winner, balance, due)),
        None => None,
    }
}

/// Settles `balance` with the judge's fee taken off.
pub fn settle_judged(
    asset: Option<Pubkey>,
    holder: Pubkey,
    treasury: Pubkey,
    winner: Pubkey,
    balance: u64,
    fee: u8,
) -> (settlement: Option<Settlement>)
    ensures
        settlement == judged(asset, holder, treasury, winner, balance, fee),
        settlement matches Some(made) ==> made.total() == balance,
        fee <= PERCENT ==> settlement is Some,
{
    match fee_on(balance, fee) {
        Some(due) => Some(settle(asset, holder, treasury, winner, balance, due)),
        None => None,
    }
}

} // verus!
