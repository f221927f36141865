//! An escrow-backed split-payment ledger.
//!
//! A payment request (a [`check::Check`]) names a total owed and the principal who is
//! owed it. Any payer may deposit part of the total into the check's vault;
//! when the deposits reach the total, the vault's whole balance is released
//! to the check's authority and the vault is closed.

pub mod address;
pub mod check;
pub mod ledger;
pub mod laws;
