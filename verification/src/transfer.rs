//! The interface to the currency-transfer primitive.
//!
//! The crate never moves currency. A payment is decided in two steps: first the
//! ledger names the transfer that is owed, then the host attempts exactly that
//! transfer and reports how it went. Transfer and record changes are one
//! transaction of the host: when an operation fails after a completed
//! transfer, the host undoes the transfer.

use vstd::prelude::*;
use crate::pubkey::Pubkey;

verus! {

/// An order to move `lamports` units of native currency from one account to
/// another.
#[derive(Clone, Copy, Debug, PartialEq, Eq)]
pub struct Transfer {
    pub from: Pubkey,
    pub to: Pubkey,
    pub lamports: u64,
}

/// What the transfer primitive reported.
#[derive(Clone, Copy, Debug, PartialEq, Eq, Structural)]
pub enum Settlement {
    /// The currency has moved.
    Completed,
    /// Nothing has moved.
    Failed,
}

} // verus!
