use vstd::prelude::*;

use crate::address::Address;
use crate::event::SwapEvent;

verus! {

/// A token movement that an operation asks the ledger to carry out:
/// `amount` units of `mint_account` from `from` to `to`, signed by `authority`.
#[derive(Clone, Copy, Debug, PartialEq, Eq, Structural)]
pub struct TokenTransfer {
    pub mint_account: Address,
    pub from: Address,
    pub to: Address,
    pub authority: Address,
    pub amount: u64,
}

/// What a successful vault operation hands back: the transfer to perform, and
/// the notifications that describe the transition.
#[derive(Debug)]
pub struct TransferOutcome {
    pub transfer: TokenTransfer,
    pub events: Vec<SwapEvent>,
}

} // verus!
