use vstd::prelude::*;

use crate::address::Address;
use crate::error::SwapError;
use crate::event::ProposalCanceled;
use crate::state::{
    lemma_unredeemed_is_not_fully_redeemed, SwapProposal, SwapProposalStatus, SwapProposalView,
};

verus! {

/// Which proposal to cancel.
#[derive(Debug)]
pub struct CancelProposalParams {
    pub id: String,
}

/// The records that cancellation reads and writes.
#[derive(Debug)]
pub struct CancelProposalContext {
    pub signer: Address,
    pub swap_proposal: SwapProposal,
    pub swap_proposal_key: Address,
    pub now: u64,
}

/// Cancellation is refused once the proposal is redeemable or withdrawable, and
/// only the owner or the participant who claimed it may cancel.
pub proof fn lemma_cancel_rules(p: SwapProposalView, signer: Address)
    ensures
        p.redeemable() || p.withdrawable() ==> !p.cancelable_for(signer),
        p.cancelable_for(signer) ==> signer == p.owner || (!p.fulfilled_by.spec_is_zero()
            && signer == p.fulfilled_by),
        p.status == SwapProposalStatus::Redeemed || p.status == SwapProposalStatus::Withdrawn
            ==> !p.cancelable_for(signer),
{
}

impl CancelProposalContext {
    /// Moves the proposal to `Canceled`, which opens the withdrawal of whatever was
    /// deposited. No asset moves.
    pub fn execute(&mut self, params: CancelProposalParams) -> (r: Result<
        ProposalCanceled,
        SwapError,
    >)
        ensures
            final(self).signer == old(self).signer,
            final(self).swap_proposal_key == old(self).swap_proposal_key,
            final(self).now == old(self).now,
            old(self).swap_proposal@.wf() ==> final(self).swap_proposal@.wf(),
            old(self).swap_proposal@.wf() && old(self).swap_proposal@.settlement_consistent()
                ==> final(self).swap_proposal@.settlement_consistent(),
            old(self).swap_proposal@.cancelable_for(old(self).signer) ==> {
                &&& r matches Ok(event) && event.actor == old(self).signer && event.proposal_key
                    == old(self).swap_proposal_key && event.id@ == old(self).swap_proposal@.id
                    && event.status == SwapProposalStatus::Canceled
                &&& final(self).swap_proposal@ == old(self).swap_proposal@.with_status(
                    SwapProposalStatus::Canceled,
                )
            },
            !old(self).swap_proposal@.cancelable_for(old(self).signer) ==> {
                &&& r == Err::<ProposalCanceled, SwapError>(SwapError::ProposalCannotBeCanceled)
                &&& final(self).swap_proposal == old(self).swap_proposal
            },
    {
        if self.swap_proposal.is_proposal_cancelable_for(self.signer, self.now) {
            let ghost p = self.swap_proposal@;
            self.swap_proposal.status = SwapProposalStatus::Canceled;
            proof {
                if p.wf() && p.settlement_consistent() {
                    lemma_unredeemed_is_not_fully_redeemed(self.swap_proposal@);
                }
            }
            return Ok(
                ProposalCanceled {
                    actor: self.signer,
                    proposal_key: self.swap_proposal_key,
                    id: self.swap_proposal.id.clone(),
                    status: SwapProposalStatus::Canceled,
                },
            );
        }
        Err(SwapError::ProposalCannotBeCanceled)
    }
}

} // verus!
