use vstd::prelude::*;

use crate::address::Address;
use crate::cancel_proposal::{CancelProposalContext, CancelProposalParams};
use crate::create_proposal::{
    creation_error, proposal_of_params, CreateProposalContext, CreateProposalParams,
};
use crate::deposit_assets_to_vault::{
    to_vault_amount, to_vault_error, to_vault_result, DepositAssetsContext, DepositAssetsToVaultParams,
};
use crate::error::SwapError;
use crate::event::{ProposalCanceled, ProposalCreated};
use crate::state::{SwapPlatformRegistry, SwapProposal, SwapProposalStatus};
use crate::transfer_assets_from_vault::{
    from_vault_amount, from_vault_error, from_vault_result, TransferAssetsFromVaultContext,
    TransferAssetsFromVaultParams,
};
use crate::vault::TransferOutcome;

verus! {

/// One stored proposal and the address it is stored at.
#[derive(Debug)]
pub struct ProposalRecord {
    pub key: Address,
    pub proposal: SwapProposal,
}

/// The platform's persistent state: the registry and every proposal, at most one
/// per id. Proposals are created once and never removed.
#[derive(Debug)]
pub struct SwapLedger {
    pub registry: SwapPlatformRegistry,
    pub registry_key: Address,
    pub records: Vec<ProposalRecord>,
}

/// No two records hold proposals with the same id.
pub open spec fn ids_unique(records: Seq<ProposalRecord>) -> bool {
    forall|i: int, j: int|
        0 <= i < records.len() && 0 <= j < records.len() && i != j ==> (#[trigger] records[i]).proposal@.id
            != (#[trigger] records[j]).proposal@.id
}

/// Some record holds the proposal with id `id`.
pub open spec fn has_record(records: Seq<ProposalRecord>, id: Seq<char>) -> bool {
    exists|i: int| 0 <= i < records.len() && (#[trigger] records[i]).proposal@.id == id
}

/// The place of the record with id `id`, or -1.
pub open spec fn record_index(records: Seq<ProposalRecord>, id: Seq<char>) -> int {
    if has_record(records, id) {
        choose|i: int| 0 <= i < records.len() && (#[trigger] records[i]).proposal@.id == id
    } else {
        -1
    }
}

proof fn lemma_record_index(records: Seq<ProposalRecord>, id: Seq<char>, i: int)
    requires
        ids_unique(records),
        0 <= i < records.len(),
        records[i].proposal@.id == id,
    ensures
        record_index(records, id) == i,
{
    let k = record_index(records, id);
    assert(0 <= k < records.len() && records[k].proposal@.id == id);
    if k != i {
        assert(records[k].proposal@.id != records[i].proposal@.id);
    }
}

/// Every record other than the one at `i` is unchanged, and the one at `i` keeps its key.
pub open spec fn same_records_but(old_records: Seq<ProposalRecord>, new_records: Seq<ProposalRecord>, i: int) -> bool {
    &&& new_records.len() == old_records.len()
    &&& new_records[i].key == old_records[i].key
    &&& forall|j: int| 0 <= j < old_records.len() && j != i ==> (#[trigger] new_records[j]) == old_records[j]
}

/// Every proposal stored in a well-formed ledger is `Redeemed` exactly when every
/// offered item and every asking item of its fulfilled option is redeemed, and is
/// `Withdrawn` only once every item that was deposited has been withdrawn.
pub proof fn lemma_stored_proposal_settled_only_when_items_settled(ledger: SwapLedger, i: int)
    requires
        ledger.wf(),
        0 <= i < ledger.records@.len(),
    ensures
        ledger.records@[i].proposal@.status == SwapProposalStatus::Redeemed
            <==> ledger.records@[i].proposal@.fully_redeemed(),
        ledger.records@[i].proposal@.status == SwapProposalStatus::Withdrawn
            ==> ledger.records@[i].proposal@.fully_withdrawn(),
{
    assert(ledger.records@[i].proposal@.settlement_consistent());
}

impl SwapLedger {
    pub open spec fn wf(self) -> bool {
        &&& ids_unique(self.records@)
        &&& forall|i: int|
            0 <= i < self.records@.len() ==> (#[trigger] self.records@[i]).proposal@.wf()
                && self.records@[i].proposal@.settlement_consistent()
    }

    /// An empty ledger over `registry`.
    pub fn new(registry: SwapPlatformRegistry, registry_key: Address) -> (r: SwapLedger)
        ensures
            r.wf(),
            r.registry == registry,
            r.registry_key == registry_key,
            r.records@.len() == 0,
    {
        SwapLedger { registry, registry_key, records: Vec::new() }
    }

    /// The place of the proposal with id `id`.
    pub fn find_record(&self, id: &String) -> (r: Option<usize>)
        requires
            self.wf(),
        ensures
            match r {
                Some(i) => i < self.records@.len() && i as int == record_index(self.records@, id@)
                    && self.records@[i as int].proposal@.id == id@,
                None => !has_record(self.records@, id@) && record_index(self.records@, id@) == -1,
            },
    {
        let n = self.records.len();
        let mut i: usize = 0;
        while i < n
            invariant
                n == self.records@.len(),
                self.wf(),
                i <= n,
                forall|j: int| 0 <= j < i ==> (#[trigger] self.records@[j]).proposal@.id != id@,
            decreases n - i,
        {
            if self.records[i].proposal.id == *id {
                proof {
                    lemma_record_index(self.records@, id@, i as int);
                }
                return Some(i);
            }
            i = i + 1;
        }
        None
    }

    /// Opens a proposal at `proposal_key`. An id that is already taken fails with
    /// `AlreadyInitialized` and leaves the ledger untouched.
    pub fn create_proposal(
        &mut self,
        proposer: Address,
        proposal_key: Address,
        params: CreateProposalParams,
        bump: u8,
        now: u64,
    ) -> (r: Result<ProposalCreated, SwapError>)
        requires
            old(self).wf(),
        ensures
            final(self).wf(),
            final(self).registry == old(self).registry,
            final(self).registry_key == old(self).registry_key,
            has_record(old(self).records@, params.id@) ==> r == Err::<ProposalCreated, SwapError>(
                SwapError::AlreadyInitialized,
            ) && final(self).records@ == old(self).records@,
            !has_record(old(self).records@, params.id@) ==> {
                let error = creation_error(
                    proposal_of_params(params, proposer, bump),
                    old(self).registry.max_allowed_items,
                    old(self).registry.max_allowed_options,
                    old(self).registry.allowed_mint_accounts@,
                    now,
                );
                match r {
                    Ok(event) => {
                        &&& error is None
                        &&& final(self).records@.len() == old(self).records@.len() + 1
                        &&& final(self).records@.subrange(0, old(self).records@.len() as int)
                            == old(self).records@
                        &&& final(self).records@.last().key == proposal_key
                        &&& final(self).records@.last().proposal@ == proposal_of_params(
                            params,
                            proposer,
                            bump,
                        )
                        &&& event.actor == proposer && event.proposal_key == proposal_key
                            && event.id@ == params.id@ && event.expired_at == params.expired_at
                    },
                    Err(e) => error == Some(e) && final(self).records@ == old(self).records@,
                }
            },
    {
        if self.find_record(&params.id).is_some() {
            return Err(SwapError::AlreadyInitialized);
        }
        let mut ctx = CreateProposalContext {
            proposal_owner: proposer,
            swap_proposal: SwapProposal::default(),
            swap_proposal_key: proposal_key,
            swap_registry: SwapPlatformRegistry::new(),
            now: now,
        };
        std::mem::swap(&mut self.registry, &mut ctx.swap_registry);
        let r = ctx.execute(params, bump);
        std::mem::swap(&mut self.registry, &mut ctx.swap_registry);
        if r.is_ok() {
            let ghost prev = self.records@;
            self.records.push(ProposalRecord { key: proposal_key, proposal: ctx.swap_proposal });
            proof {
                assert(self.records@.subrange(0, prev.len() as int) =~= prev);
                assert forall|i: int, j: int|
                    0 <= i < self.records@.len() && 0 <= j < self.records@.len() && i != j
                        implies (#[trigger] self.records@[i]).proposal@.id
                    != (#[trigger] self.records@[j]).proposal@.id by {
                    if i == prev.len() {
                        assert(self.records@[j] == prev[j]);
                    } else if j == prev.len() {
                        assert(self.records@[i] == prev[i]);
                    } else {
                        assert(self.records@[i] == prev[i]);
                        assert(self.records@[j] == prev[j]);
                    }
                }
            }
        }
        r
    }

    /// Cancels the proposal with id `params.id` on behalf of `signer`. An unknown
    /// id fails with `InvalidValue`.
    pub fn cancel_proposal(&mut self, signer: Address, params: CancelProposalParams, now: u64) -> (r:
        Result<ProposalCanceled, SwapError>)
        requires
            old(self).wf(),
        ensures
            final(self).wf(),
            final(self).registry == old(self).registry,
            final(self).registry_key == old(self).registry_key,
            ({
                let i = record_index(old(self).records@, params.id@);
                if i < 0 {
                    r == Err::<ProposalCanceled, SwapError>(SwapError::InvalidValue) && final(self).records@ == old(self).records@
                } else {
                    let p = old(self).records@[i].proposal@;
                    &&& same_records_but(old(self).records@, final(self).records@, i)
                    &&& p.cancelable_for(signer) ==> r is Ok && final(self).records@[i].proposal@
                        == p.with_status(SwapProposalStatus::Canceled)
                    &&& !p.cancelable_for(signer) ==> r == Err::<ProposalCanceled, SwapError>(
                        SwapError::ProposalCannotBeCanceled,
                    ) && final(self).records@ == old(self).records@
                }
            }),
    {
        let i = match self.find_record(&params.id) {
            Some(i) => i,
            None => {
                return Err(SwapError::InvalidValue);
            },
        };
        let ghost prev = self.records@;
        let mut slot = SwapProposal::default();
        std::mem::swap(&mut self.records[i].proposal, &mut slot);
        let mut ctx = CancelProposalContext {
            signer: signer,
            swap_proposal: slot,
            swap_proposal_key: self.records[i].key,
            now: now,
        };
        let r = ctx.execute(params);
        std::mem::swap(&mut self.records[i].proposal, &mut ctx.swap_proposal);
        proof {
            self.lemma_replaced_keeps_ids(prev, i as int);
            if r.is_err() {
                assert(self.records@ =~= prev);
            }
        }
        r
    }

    /// Moves one item into the vault on behalf of `participant` for the proposal
    /// with id `params.proposal_id`. An unknown id fails with `InvalidValue`.
    pub fn transfer_assets_to_vault(
        &mut self,
        participant: Address,
        mint_account: Address,
        participant_token_account: Address,
        swap_token_vault: Address,
        params: DepositAssetsToVaultParams,
        now: u64,
    ) -> (r: Result<TransferOutcome, SwapError>)
        requires
            old(self).wf(),
        ensures
            final(self).wf(),
            final(self).registry == old(self).registry,
            final(self).registry_key == old(self).registry_key,
            ({
                let i = record_index(old(self).records@, params.proposal_id@);
                if i < 0 {
                    r == Err::<TransferOutcome, SwapError>(SwapError::InvalidValue) && final(self).records@ == old(self).records@
                } else {
                    let p = old(self).records@[i].proposal@;
                    let error = to_vault_error(
                        p,
                        old(self).registry.allowed_mint_accounts@,
                        participant,
                        mint_account,
                        swap_token_vault,
                        params,
                        now,
                    );
                    match r {
                        Ok(out) => {
                            &&& error is None
                            &&& same_records_but(old(self).records@, final(self).records@, i)
                            &&& final(self).records@[i].proposal@ == to_vault_result(
                                p,
                                participant,
                                params,
                            )
                            &&& out.transfer.amount == to_vault_amount(p, params)
                            &&& out.transfer.mint_account == mint_account
                            &&& out.transfer.from == participant_token_account
                            &&& out.transfer.to == swap_token_vault
                            &&& out.transfer.authority == participant
                        },
                        Err(e) => error == Some(e) && final(self).records@ == old(self).records@,
                    }
                }
            }),
    {
        let i = match self.find_record(&params.proposal_id) {
            Some(i) => i,
            None => {
                return Err(SwapError::InvalidValue);
            },
        };
        let ghost prev = self.records@;
        let mut slot = SwapProposal::default();
        std::mem::swap(&mut self.records[i].proposal, &mut slot);
        let mut ctx = DepositAssetsContext {
            participant: participant,
            mint_account: mint_account,
            participant_token_account: participant_token_account,
            swap_registry: SwapPlatformRegistry::new(),
            swap_token_vault: swap_token_vault,
            swap_proposal: slot,
            swap_proposal_key: self.records[i].key,
            now: now,
        };
        std::mem::swap(&mut self.registry, &mut ctx.swap_registry);
        let r = ctx.execute(params);
        std::mem::swap(&mut self.registry, &mut ctx.swap_registry);
        std::mem::swap(&mut self.records[i].proposal, &mut ctx.swap_proposal);
        proof {
            self.lemma_replaced_keeps_ids(prev, i as int);
            if r.is_err() {
                assert(self.records@ =~= prev);
            }
        }
        r
    }

    /// Moves one item out of the vault on behalf of `signer` for the proposal with
    /// id `params.proposal_id`. An unknown id fails with `InvalidValue`.
    pub fn transfer_assets_from_vault(
        &mut self,
        signer: Address,
        mint_account: Address,
        signer_token_account: Address,
        swap_token_vault: Address,
        params: TransferAssetsFromVaultParams,
        now: u64,
    ) -> (r: Result<TransferOutcome, SwapError>)
        requires
            old(self).wf(),
        ensures
            final(self).wf(),
            final(self).registry == old(self).registry,
            final(self).registry_key == old(self).registry_key,
            ({
                let i = record_index(old(self).records@, params.proposal_id@);
                if i < 0 {
                    r == Err::<TransferOutcome, SwapError>(SwapError::InvalidValue) && final(self).records@ == old(self).records@
                } else {
                    let p = old(self).records@[i].proposal@;
                    let error = from_vault_error(
                        p,
                        old(self).registry.allowed_mint_accounts@,
                        signer,
                        mint_account,
                        swap_token_vault,
                        params,
                    );
                    match r {
                        Ok(out) => {
                            &&& error is None
                            &&& same_records_but(old(self).records@, final(self).records@, i)
                            &&& final(self).records@[i].proposal@ == from_vault_result(
                                p,
                                signer,
                                params,
                            )
                            &&& out.transfer.amount == from_vault_amount(p, signer, params)
                            &&& out.transfer.mint_account == mint_account
                            &&& out.transfer.from == swap_token_vault
                            &&& out.transfer.to == signer_token_account
                            &&& out.transfer.authority == old(self).registry_key
                        },
                        Err(e) => error == Some(e) && final(self).records@ == old(self).records@,
                    }
                }
            }),
    {
        let i = match self.find_record(&params.proposal_id) {
            Some(i) => i,
            None => {
                return Err(SwapError::InvalidValue);
            },
        };
        let ghost prev = self.records@;
        let mut slot = SwapProposal::default();
        std::mem::swap(&mut self.records[i].proposal, &mut slot);
        let mut ctx = TransferAssetsFromVaultContext {
            signer: signer,
            mint_account: mint_account,
            swap_registry: SwapPlatformRegistry::new(),
            swap_registry_key: self.registry_key,
            signer_token_account: signer_token_account,
            swap_proposal: slot,
            swap_proposal_key: self.records[i].key,
            swap_token_vault: swap_token_vault,
            now: now,
        };
        std::mem::swap(&mut self.registry, &mut ctx.swap_registry);
        let r = ctx.execute(params);
        std::mem::swap(&mut self.registry, &mut ctx.swap_registry);
        std::mem::swap(&mut self.records[i].proposal, &mut ctx.swap_proposal);
        proof {
            self.lemma_replaced_keeps_ids(prev, i as int);
            if r.is_err() {
                assert(self.records@ =~= prev);
            }
        }
        r
    }

    /// Replacing the proposal at `i` by one with the same id keeps ids unique.
    proof fn lemma_replaced_keeps_ids(self, prev: Seq<ProposalRecord>, i: int)
        requires
            ids_unique(prev),
            0 <= i < prev.len(),
            self.records@.len() == prev.len(),
            self.records@[i].proposal@.id == prev[i].proposal@.id,
            forall|j: int| 0 <= j < prev.len() && j != i ==> (#[trigger] self.records@[j]) == prev[j],
        ensures
            ids_unique(self.records@),
    {
        assert forall|a: int, b: int|
            0 <= a < self.records@.len() && 0 <= b < self.records@.len() && a != b
                implies (#[trigger] self.records@[a]).proposal@.id
            != (#[trigger] self.records@[b]).proposal@.id by {
            assert(prev[a].proposal@.id != prev[b].proposal@.id);
        }
    }
}

} // verus!
