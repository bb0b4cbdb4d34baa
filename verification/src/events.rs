//! What an operation reports when it succeeds. An event tells of a change and
//! decides nothing.

use anchor_lang::prelude::Pubkey;
use vstd::prelude::*;

verus! {

/// The configuration was created.
#[derive(Clone, Copy, Debug, PartialEq, Eq)]
pub struct ConfigCreated {
    pub address: Pubkey,
    pub treasury: Pubkey,
    pub judge: Pubkey,
    pub tax: u16,
    pub fee: u8,
    pub timestamp: i64,
}

/// The configuration was updated, and now stands as reported.
#[derive(Clone, Copy, Debug, PartialEq, Eq)]
pub struct ConfigUpdated {
    pub address: Pubkey,
    pub treasury: Pubkey,
    pub pending_judge: Option<Pubkey>,
    pub tax: u16,
    pub fee: u8,
    pub timestamp: i64,
}

/// The judge nominated somebody for the seat.
#[derive(Clone, Copy, Debug, PartialEq, Eq)]
pub struct JudgeNominated {
    pub address: Pubkey,
    pub pending_judge: Pubkey,
    pub timestamp: i64,
}

/// The nominee took the judge's seat.
#[derive(Clone, Copy, Debug, PartialEq, Eq)]
pub struct JudgeAccepted {
    pub address: Pubkey,
    pub old_judge: Pubkey,
    pub new_judge: Pubkey,
    pub timestamp: i64,
}

/// A payer created an escrow.
#[derive(Clone, Copy, Debug, PartialEq, Eq)]
pub struct EscrowCreated {
    pub address: Pubkey,
    pub payer: Pubkey,
    pub payee: Pubkey,
    pub amount: u64,
    pub token_mint: Option<Pubkey>,
    pub timestamp: i64,
}

/// The payer was asked for the deposit of `amount`.
#[derive(Clone, Copy, Debug, PartialEq, Eq)]
pub struct EscrowDeposited {
    pub address: Pubkey,
    pub amount: u64,
    pub token_mint: Option<Pubkey>,
    pub timestamp: i64,
}

/// The payer released the escrow: `amount` for the payee, `tax_paid` for the treasury.
#[derive(Clone, Copy, Debug, PartialEq, Eq)]
pub struct EscrowReleased {
    pub address: Pubkey,
    pub amount: u64,
    pub tax_paid: u64,
    pub token_mint: Option<Pubkey>,
    pub timestamp: i64,
}

/// The payee returned the escrow: `amount` for the payer, `tax_paid` for the treasury.
#[derive(Clone, Copy, Debug, PartialEq, Eq)]
pub struct EscrowReturned {
    pub address: Pubkey,
    pub amount: u64,
    pub tax_paid: u64,
    pub token_mint: Option<Pubkey>,
    pub timestamp: i64,
}

/// The payer recovered the escrow: `amount` for the payer, nothing for the treasury.
#[derive(Clone, Copy, Debug, PartialEq, Eq)]
pub struct EscrowRecovered {
    pub address: Pubkey,
    pub amount: u64,
    pub token_mint: Option<Pubkey>,
    pub timestamp: i64,
}

/// Somebody put the escrow in dispute.
#[derive(Clone, Copy, Debug, PartialEq, Eq)]
pub struct EscrowDisputed {
    pub address: Pubkey,
    pub payer: Pubkey,
    pub payee: Pubkey,
    pub disputed_by: Pubkey,
    pub timestamp: i64,
}

/// The judge decided the escrow: `amount_awarded` for the winner, `fee_collected` for the
/// treasury.
#[derive(Clone, Copy, Debug, PartialEq, Eq)]
pub struct EscrowJudged {
    pub address: Pubkey,
    pub winner: Pubkey,
    pub amount_awarded: u64,
    pub fee_collected: u64,
    pub token_mint: Option<Pubkey>,
    pub timestamp: i64,
}

} // verus!
