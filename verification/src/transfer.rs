//! Movements of funds that an operation asks for.

use crate::pubkey::Pubkey;
use vstd::prelude::*;

verus! {

/// An instruction to move `amount` from the holdings of `from` to those of
/// `to`.
///
/// The protocol moves no funds itself. An operation that succeeds hands one
/// of these back; the new state it has written counts only once the transfer
/// has been carried out, and is to be thrown away if the transfer fails.
#[derive(Debug, Clone, Copy, PartialEq, Eq)]
pub struct Transfer {
    pub from: Pubkey,
    pub to: Pubkey,
    pub amount: u64,
}

} // verus!
