//! The two records that the escrow keeps, and the arguments that change them.

use anchor_lang::prelude::Pubkey;
use vstd::prelude::*;

verus! {

/// The highest tax that an update of the configuration accepts, in basis
/// points.
pub const MAX_TAX: u16 = 2000;

/// The highest judge's fee that an update of the configuration accepts, in
/// percent.
pub const MAX_FEE: u8 = 20;

/// Seconds between the creation of an escrow and its deadline: 14 days.
pub const DISPUTE_WINDOW: i64 = 14 * 24 * 60 * 60;

/// Seconds between the deadline of an escrow and the judge's deadline: 28 days.
pub const JUDGE_WINDOW: i64 = 28 * 24 * 60 * 60;

/// The configuration, of which there is one.
#[derive(Clone, Copy, Debug, PartialEq, Eq)]
pub struct ConfigAccount {
    /// Who arbitrates disputes and administers this record.
    pub judge: Pubkey,
    /// Who receives the taxes and fees.
    pub treasury: Pubkey,
    /// Who is nominated to become the judge, if anybody.
    pub pending_judge: Option<Pubkey>,
    /// The tax on a settlement without a judge, in basis points.
    pub tax: u16,
    /// The fee on a settlement by the judge, in percent.
    pub fee: u8,
    /// The bump of the address at which the record is kept.
    pub bump: u8,
}

impl ConfigAccount {
    /// Both rates are within the bounds that an update enforces.
    pub open spec fn rates_in_bounds(self) -> bool {
        self.tax <= MAX_TAX && self.fee <= MAX_FEE
    }
}

/// One escrow. There is at most one per payer at a time.
#[derive(Clone, Copy, Debug, PartialEq, Eq)]
pub struct EscrowAccount {
    /// Who deposits the funds.
    pub payer: Pubkey,
    /// Who is to receive them.
    pub payee: Pubkey,
    /// The principal.
    pub amount: u64,
    /// The tax agreed on when the escrow was created, in basis points.
    pub tax: u16,
    /// The judge's fee agreed on when the escrow was created, in percent.
    pub fee: u8,
    /// The token that is held, or `None` where native value is held.
    pub token_mint: Option<Pubkey>,
    /// Whether the escrow is in dispute. Once set, it stays set.
    pub disputed: bool,
    /// The judge may open a dispute only after this time.
    pub deadline: i64,
    /// The payer may recover the funds only after this time.
    pub judge_deadline: i64,
    /// When the escrow was created.
    pub creation_time: i64,
    /// The bump of the address at which the record is kept.
    pub bump: u8,
}

impl EscrowAccount {
    /// The two deadlines lie where creation puts them.
    pub open spec fn on_schedule(self) -> bool {
        &&& self.deadline == self.creation_time + DISPUTE_WINDOW
        &&& self.judge_deadline == self.deadline + JUDGE_WINDOW
    }
}

/// A partial update of the configuration: only the fields that are present
/// change.
#[derive(Clone, Copy, Debug, PartialEq, Eq)]
pub struct ConfigUpdateArgs {
    /// A new treasury.
    pub treasury: Option<Pubkey>,
    /// A nominee for the judge's seat.
    pub pending_judge: Option<Pubkey>,
    /// A new tax, in basis points.
    pub tax: Option<u16>,
    /// A new judge's fee, in percent.
    pub fee: Option<u8>,
}

/// What the payer chooses when creating an escrow. The two deadlines are
/// carried but not used: creation derives them from the clock.
#[derive(Clone, Copy, Debug, PartialEq, Eq)]
pub struct EscrowCreationArgs {
    /// The principal.
    pub amount: u64,
    /// Who is to receive it.
    pub payee: Pubkey,
    /// Not used.
    pub deadline: i64,
    /// Not used.
    pub judge_deadline: i64,
    /// The token to be held, or `None` for native value.
    pub token_mint: Option<Pubkey>,
}

} // verus!
