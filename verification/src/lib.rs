//! A two-party escrow with a judge who arbitrates disputes: the records it
//! keeps, the rules that gate every operation on them, and the arithmetic of
//! every settlement.
//!
//! A payer creates an escrow for a payee and deposits the funds. Either party
//! can end it in the other's favour: the payer releases the funds to the
//! payee, or the payee returns them to the payer, and the treasury collects a
//! tax. Either party can dispute it instead, and then the judge awards the
//! funds to one of them and the treasury collects the judge's fee. If nothing
//! of this happens until the judge's deadline, the payer recovers the funds in
//! full.
//!
//! The library decides and computes; it neither reads a clock nor moves funds.
//! Every operation is handed the keys and records it works on and the time,
//! and returns what is to be reported and which transfers are to be made.
//!
//! - `keys`: identities.
//! - `records`: the configuration and the escrow.
//! - `errors`, `events`: why an operation is refused, and what it reports.
//! - `settlement`: the arithmetic of tax and fee, and the transfers.
//! - `config`: creating and updating the configuration, and the judge's seat.
//! - `lifecycle`: creating and disputing an escrow.
//! - `native`, `token`: depositing into and settling an escrow of either asset.
//! - `registry`: the escrows, one for each payer.
//! - `laws`, `settling`: what holds of all this, proved.

pub mod config;
pub mod errors;
pub mod events;
pub mod keys;
pub mod laws;
pub mod lifecycle;
pub mod native;
pub mod records;
pub mod registry;
pub mod settlement;
pub mod settling;
pub mod token;
