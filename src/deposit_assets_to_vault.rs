use vstd::prelude::*;

use crate::address::Address;
use crate::error::SwapError;
use crate::event::{ItemDeposited, ProposalDeposited, ProposalFulfilled, SwapEvent};
use crate::state::{
    all_items_have_status, all_items_with_status, find_item_index, find_option_index, item_index,
    lemma_advance_asking, lemma_advance_offered, lemma_advance_preserves_wf, lemma_asking_update_unredeemed, lemma_offered_update_unredeemed,
    lemma_unredeemed_is_not_fully_redeemed, lemma_item_index_bounds,
    lemma_option_index_bounds, option_index, vault_accepted, MintInfo, SwapItemStatus,
    SwapItemView, SwapPlatformRegistry, SwapProposal, SwapProposalStatus, SwapProposalView,
};
use crate::vault::{TokenTransfer, TransferOutcome};

verus! {

/// Which party puts assets into the vault.
#[derive(Clone, Copy, Debug, PartialEq, Eq, Structural)]
pub enum DepositActionType {
    /// The proposer locks one offered item.
    Depositing,
    /// A participant claims an option and locks one of its asking items.
    Fulfilling,
}

/// Which item goes into the vault, and for fulfilment, of which option.
#[derive(Debug)]
pub struct DepositAssetsToVaultParams {
    pub swap_token_vault_bump: u8,
    pub proposal_id: String,
    pub swap_item_id: String,
    pub option_id: String,
    pub action_type: DepositActionType,
}

/// The records that a transfer into the vault reads and writes.
#[derive(Debug)]
pub struct DepositAssetsContext {
    pub participant: Address,
    pub mint_account: Address,
    pub participant_token_account: Address,
    pub swap_registry: SwapPlatformRegistry,
    pub swap_token_vault: Address,
    pub swap_proposal: SwapProposal,
    pub swap_proposal_key: Address,
    pub now: u64,
}

/// Why `signer` cannot deposit offered item `item_id` of `p` at time `now`, if they cannot.
pub open spec fn deposit_error(
    p: SwapProposalView,
    entries: Seq<MintInfo>,
    signer: Address,
    mint: Address,
    vault: Address,
    item_id: Seq<char>,
    now: u64,
) -> Option<SwapError> {
    let i = item_index(p.offered_items, item_id);
    if !p.open_for_depositing(now) || signer != p.owner {
        Some(SwapError::DepositIsNotAvailable)
    } else if i < 0 || p.offered_items[i].status != SwapItemStatus::Created {
        Some(SwapError::DepositIsNotAvailable)
    } else if p.offered_items[i].mint_account != mint || !vault_accepted(entries, mint, vault) {
        Some(SwapError::UnAllowedMintToken)
    } else {
        None
    }
}

/// `p` after its owner deposited offered item `item_id`: `Deposited` once every offered item is.
pub open spec fn deposit_result(p: SwapProposalView, item_id: Seq<char>) -> SwapProposalView {
    let i = item_index(p.offered_items, item_id);
    let q = p.with_offered_item(i, p.offered_items[i].with_status(SwapItemStatus::Deposited));
    if all_items_have_status(q.offered_items, SwapItemStatus::Deposited) {
        q.with_status(SwapProposalStatus::Deposited)
    } else {
        q
    }
}

/// Why `signer` cannot deposit asking item `item_id` of option `option_id` of `p`
/// at time `now`, if they cannot.
pub open spec fn fulfil_error(
    p: SwapProposalView,
    entries: Seq<MintInfo>,
    signer: Address,
    mint: Address,
    vault: Address,
    option_id: Seq<char>,
    item_id: Seq<char>,
    now: u64,
) -> Option<SwapError> {
    let oi = option_index(p.swap_options, option_id);
    let ii = item_index(p.swap_options[oi].asking_items, item_id);
    if !p.open_for_fulfilling(option_id, signer, now) || oi < 0 {
        Some(SwapError::FulfillingIsNotAvailable)
    } else if ii < 0 || p.swap_options[oi].asking_items[ii].status != SwapItemStatus::Created {
        Some(SwapError::FulfillingIsNotAvailable)
    } else if p.swap_options[oi].asking_items[ii].mint_account != mint || !vault_accepted(
        entries,
        mint,
        vault,
    ) {
        Some(SwapError::UnAllowedMintToken)
    } else {
        None
    }
}

/// `p` after `signer` claimed option `option_id` and deposited its asking item
/// `item_id`: `Fulfilled` once every asking item of that option is deposited.
pub open spec fn fulfil_result(
    p: SwapProposalView,
    signer: Address,
    option_id: Seq<char>,
    item_id: Seq<char>,
) -> SwapProposalView {
    let oi = option_index(p.swap_options, option_id);
    let ii = item_index(p.swap_options[oi].asking_items, item_id);
    let item = SwapItemView {
        status: SwapItemStatus::Deposited,
        owner: signer,
        ..p.swap_options[oi].asking_items[ii]
    };
    let q = SwapProposalView {
        fulfilled_by: signer,
        fulfilled_with_option_id: option_id,
        ..p.with_asking_item(oi, ii, item)
    };
    if all_items_have_status(q.swap_options[oi].asking_items, SwapItemStatus::Deposited) {
        q.with_status(SwapProposalStatus::Fulfilled)
    } else {
        q
    }
}

/// Why `params` cannot be carried out on `p` by `signer`, if they cannot.
pub open spec fn to_vault_error(
    p: SwapProposalView,
    entries: Seq<MintInfo>,
    signer: Address,
    mint: Address,
    vault: Address,
    params: DepositAssetsToVaultParams,
    now: u64,
) -> Option<SwapError> {
    if params.action_type == DepositActionType::Depositing {
        deposit_error(p, entries, signer, mint, vault, params.swap_item_id@, now)
    } else {
        fulfil_error(p, entries, signer, mint, vault, params.option_id@, params.swap_item_id@, now)
    }
}

/// `p` after `signer` carried out `params`.
pub open spec fn to_vault_result(
    p: SwapProposalView,
    signer: Address,
    params: DepositAssetsToVaultParams,
) -> SwapProposalView {
    if params.action_type == DepositActionType::Depositing {
        deposit_result(p, params.swap_item_id@)
    } else {
        fulfil_result(p, signer, params.option_id@, params.swap_item_id@)
    }
}

/// The amount of the item that `params` moves into the vault.
pub open spec fn to_vault_amount(p: SwapProposalView, params: DepositAssetsToVaultParams) -> u64 {
    if params.action_type == DepositActionType::Depositing {
        p.offered_items[item_index(p.offered_items, params.swap_item_id@)].amount
    } else {
        let oi = option_index(p.swap_options, params.option_id@);
        p.swap_options[oi].asking_items[item_index(
            p.swap_options[oi].asking_items,
            params.swap_item_id@,
        )].amount
    }
}

/// Putting an item into the vault redeems nothing, so a well-formed proposal stays
/// consistent about redemption.
pub proof fn lemma_to_vault_keeps_settlement_consistent(
    p: SwapProposalView,
    entries: Seq<MintInfo>,
    signer: Address,
    mint: Address,
    vault: Address,
    params: DepositAssetsToVaultParams,
    now: u64,
)
    requires
        to_vault_error(p, entries, signer, mint, vault, params, now) is None,
        p.wf(),
        p.settlement_consistent(),
    ensures
        to_vault_result(p, signer, params).settlement_consistent(),
{
    if params.action_type == DepositActionType::Depositing {
        let i = item_index(p.offered_items, params.swap_item_id@);
        lemma_item_index_bounds(p.offered_items, params.swap_item_id@);
        let item = p.offered_items[i].with_status(SwapItemStatus::Deposited);
        lemma_offered_update_unredeemed(p, i, item);
        lemma_advance_offered(p, i, item);
        let q = p.with_offered_item(i, item);
        lemma_advance_preserves_wf(p, q);
        lemma_unredeemed_is_not_fully_redeemed(q);
    } else {
        let oi = option_index(p.swap_options, params.option_id@);
        lemma_option_index_bounds(p.swap_options, params.option_id@);
        let ii = item_index(p.swap_options[oi].asking_items, params.swap_item_id@);
        lemma_item_index_bounds(p.swap_options[oi].asking_items, params.swap_item_id@);
        let item = SwapItemView {
            status: SwapItemStatus::Deposited,
            owner: signer,
            ..p.swap_options[oi].asking_items[ii]
        };
        lemma_asking_update_unredeemed(p, oi, ii, item);
        lemma_advance_asking(p, oi, ii, item);
        let q0 = p.with_asking_item(oi, ii, item);
        lemma_advance_preserves_wf(p, q0);
        let q = SwapProposalView {
            fulfilled_by: signer,
            fulfilled_with_option_id: params.option_id@,
            ..q0
        };
        lemma_unredeemed_is_not_fully_redeemed(q);
    }
}

/// Once a participant has claimed a proposal, no other participant, and no other
/// option, can fulfil it.
pub proof fn lemma_fulfilment_is_exclusive(
    p: SwapProposalView,
    entries: Seq<MintInfo>,
    signer: Address,
    mint: Address,
    vault: Address,
    option_id: Seq<char>,
    item_id: Seq<char>,
    now: u64,
)
    ensures
        !p.fulfilled_by.spec_is_zero() && signer != p.fulfilled_by ==> fulfil_error(
            p,
            entries,
            signer,
            mint,
            vault,
            option_id,
            item_id,
            now,
        ) == Some(SwapError::FulfillingIsNotAvailable),
        p.fulfilled_with_option_id.len() > 0 && option_id != p.fulfilled_with_option_id
            ==> fulfil_error(p, entries, signer, mint, vault, option_id, item_id, now) == Some(
            SwapError::FulfillingIsNotAvailable,
        ),
{
}

impl DepositAssetsContext {
    /// Moves one item into the vault: an offered item from the proposer, or an
    /// asking item of the chosen option from a participant, who thereby claims the
    /// proposal. Advances the proposal once the whole side is deposited. On any
    /// failure nothing changes.
    pub fn execute(&mut self, params: DepositAssetsToVaultParams) -> (r: Result<
        TransferOutcome,
        SwapError,
    >)
        ensures
            final(self).participant == old(self).participant,
            final(self).mint_account == old(self).mint_account,
            final(self).participant_token_account == old(self).participant_token_account,
            final(self).swap_registry == old(self).swap_registry,
            final(self).swap_token_vault == old(self).swap_token_vault,
            final(self).swap_proposal_key == old(self).swap_proposal_key,
            final(self).now == old(self).now,
            old(self).swap_proposal@.wf() ==> final(self).swap_proposal@.wf(),
            old(self).swap_proposal@.wf() && old(self).swap_proposal@.settlement_consistent()
                ==> final(self).swap_proposal@.settlement_consistent(),
            ({
                let p = old(self).swap_proposal@;
                let entries = old(self).swap_registry.allowed_mint_accounts@;
                let depositing = params.action_type == DepositActionType::Depositing;
                let error = to_vault_error(
                    p,
                    entries,
                    old(self).participant,
                    old(self).mint_account,
                    old(self).swap_token_vault,
                    params,
                    old(self).now,
                );
                let next = to_vault_result(p, old(self).participant, params);
                match r {
                    Ok(out) => {
                        &&& error is None
                        &&& final(self).swap_proposal@ == next
                        &&& p.items_advance_to(next)
                        &&& out.transfer.amount == to_vault_amount(p, params)
                        &&& out.transfer.mint_account == old(self).mint_account
                        &&& out.transfer.from == old(self).participant_token_account
                        &&& out.transfer.to == old(self).swap_token_vault
                        &&& out.transfer.authority == old(self).participant
                        &&& out.events@.len() >= 1
                        &&& out.events@[0].is_item_deposited(
                            old(self).participant,
                            old(self).swap_proposal_key,
                            params.swap_item_id@,
                        )
                        &&& out.events@.len() == if next.status == p.status {
                            1int
                        } else {
                            2int
                        }
                        &&& next.status != p.status ==> if depositing {
                            out.events@[1].is_proposal_deposited(
                                old(self).participant,
                                old(self).swap_proposal_key,
                                p.id,
                            )
                        } else {
                            out.events@[1].is_proposal_fulfilled(
                                old(self).participant,
                                old(self).swap_proposal_key,
                                p.id,
                            )
                        }
                    },
                    Err(e) => {
                        &&& error == Some(e)
                        &&& final(self).swap_proposal == old(self).swap_proposal
                    },
                }
            }),
    {
        let ghost p = self.swap_proposal@;
        let r = match params.action_type {
            DepositActionType::Depositing => self.deposit(&params),
            DepositActionType::Fulfilling => self.fulfil(&params),
        };
        proof {
            if r.is_ok() && p.wf() {
                lemma_advance_preserves_wf(p, self.swap_proposal@);
                if p.settlement_consistent() {
                    lemma_to_vault_keeps_settlement_consistent(
                        p,
                        self.swap_registry.allowed_mint_accounts@,
                        self.participant,
                        self.mint_account,
                        self.swap_token_vault,
                        params,
                        self.now,
                    );
                }
            }
        }
        r
    }

    fn deposit(&mut self, params: &DepositAssetsToVaultParams) -> (r: Result<
        TransferOutcome,
        SwapError,
    >)
        ensures
            final(self).participant == old(self).participant,
            final(self).mint_account == old(self).mint_account,
            final(self).participant_token_account == old(self).participant_token_account,
            final(self).swap_registry == old(self).swap_registry,
            final(self).swap_token_vault == old(self).swap_token_vault,
            final(self).swap_proposal_key == old(self).swap_proposal_key,
            final(self).now == old(self).now,
            ({
                let p = old(self).swap_proposal@;
                let error = deposit_error(
                    p,
                    old(self).swap_registry.allowed_mint_accounts@,
                    old(self).participant,
                    old(self).mint_account,
                    old(self).swap_token_vault,
                    params.swap_item_id@,
                    old(self).now,
                );
                let next = deposit_result(p, params.swap_item_id@);
                match r {
                    Ok(out) => {
                        &&& error is None
                        &&& final(self).swap_proposal@ == next
                        &&& p.items_advance_to(next)
                        &&& out.transfer == (TokenTransfer {
                            mint_account: old(self).mint_account,
                            from: old(self).participant_token_account,
                            to: old(self).swap_token_vault,
                            authority: old(self).participant,
                            amount: p.offered_items[item_index(
                                p.offered_items,
                                params.swap_item_id@,
                            )].amount,
                        })
                        &&& out.events@.len() >= 1
                        &&& out.events@[0].is_item_deposited(
                            old(self).participant,
                            old(self).swap_proposal_key,
                            params.swap_item_id@,
                        )
                        &&& out.events@.len() == if next.status == p.status {
                            1int
                        } else {
                            2int
                        }
                        &&& next.status != p.status ==> out.events@[1].is_proposal_deposited(
                            old(self).participant,
                            old(self).swap_proposal_key,
                            p.id,
                        )
                    },
                    Err(e) => {
                        &&& error == Some(e)
                        &&& final(self).swap_proposal == old(self).swap_proposal
                    },
                }
            }),
    {
        let ghost p = self.swap_proposal@;
        let signer = self.participant;
        if !self.swap_proposal.is_proposal_open_for_depositing(self.now)
            || !self.swap_proposal.is_proposal_owner(signer) {
            return Err(SwapError::DepositIsNotAvailable);
        }
        let i = match find_item_index(&self.swap_proposal.offered_items, &params.swap_item_id) {
            Some(i) => i,
            None => {
                return Err(SwapError::DepositIsNotAvailable);
            },
        };
        proof {
            lemma_item_index_bounds(p.offered_items, params.swap_item_id@);
        }
        let item = &self.swap_proposal.offered_items[i];
        assert(p.offered_items[i as int] == item@);
        if item.status != SwapItemStatus::Created {
            return Err(SwapError::DepositIsNotAvailable);
        }
        if item.mint_account != self.mint_account || !self.swap_registry.is_vault_accepted(
            self.mint_account,
            self.swap_token_vault,
        ) {
            return Err(SwapError::UnAllowedMintToken);
        }
        let amount = item.amount;
        self.swap_proposal.set_offered_item_status(i, SwapItemStatus::Deposited);
        proof {
            lemma_advance_offered(
                p,
                i as int,
                p.offered_items[i as int].with_status(SwapItemStatus::Deposited),
            );
        }
        let mut events: Vec<SwapEvent> = Vec::new();
        events.push(
            SwapEvent::ItemDeposited(
                ItemDeposited {
                    actor: signer,
                    proposal_key: self.swap_proposal_key,
                    id: params.swap_item_id.clone(),
                    status: SwapItemStatus::Deposited,
                },
            ),
        );
        if all_items_with_status(&self.swap_proposal.offered_items, SwapItemStatus::Deposited) {
            self.swap_proposal.status = SwapProposalStatus::Deposited;
            events.push(
                SwapEvent::ProposalDeposited(
                    ProposalDeposited {
                        actor: signer,
                        proposal_key: self.swap_proposal_key,
                        id: self.swap_proposal.id.clone(),
                        status: SwapProposalStatus::Deposited,
                    },
                ),
            );
        }
        let transfer = TokenTransfer {
            mint_account: self.mint_account,
            from: self.participant_token_account,
            to: self.swap_token_vault,
            authority: signer,
            amount: amount,
        };
        Ok(TransferOutcome { transfer, events })
    }

    fn fulfil(&mut self, params: &DepositAssetsToVaultParams) -> (r: Result<
        TransferOutcome,
        SwapError,
    >)
        ensures
            final(self).participant == old(self).participant,
            final(self).mint_account == old(self).mint_account,
            final(self).participant_token_account == old(self).participant_token_account,
            final(self).swap_registry == old(self).swap_registry,
            final(self).swap_token_vault == old(self).swap_token_vault,
            final(self).swap_proposal_key == old(self).swap_proposal_key,
            final(self).now == old(self).now,
            ({
                let p = old(self).swap_proposal@;
                let error = fulfil_error(
                    p,
                    old(self).swap_registry.allowed_mint_accounts@,
                    old(self).participant,
                    old(self).mint_account,
                    old(self).swap_token_vault,
                    params.option_id@,
                    params.swap_item_id@,
                    old(self).now,
                );
                let next = fulfil_result(
                    p,
                    old(self).participant,
                    params.option_id@,
                    params.swap_item_id@,
                );
                let oi = option_index(p.swap_options, params.option_id@);
                match r {
                    Ok(out) => {
                        &&& error is None
                        &&& final(self).swap_proposal@ == next
                        &&& p.items_advance_to(next)
                        &&& out.transfer == (TokenTransfer {
                            mint_account: old(self).mint_account,
                            from: old(self).participant_token_account,
                            to: old(self).swap_token_vault,
                            authority: old(self).participant,
                            amount: p.swap_options[oi].asking_items[item_index(
                                p.swap_options[oi].asking_items,
                                params.swap_item_id@,
                            )].amount,
                        })
                        &&& out.events@.len() >= 1
                        &&& out.events@[0].is_item_deposited(
                            old(self).participant,
                            old(self).swap_proposal_key,
                            params.swap_item_id@,
                        )
                        &&& out.events@.len() == if next.status == p.status {
                            1int
                        } else {
                            2int
                        }
                        &&& next.status != p.status ==> out.events@[1].is_proposal_fulfilled(
                            old(self).participant,
                            old(self).swap_proposal_key,
                            p.id,
                        )
                    },
                    Err(e) => {
                        &&& error == Some(e)
                        &&& final(self).swap_proposal == old(self).swap_proposal
                    },
                }
            }),
    {
        let ghost p = self.swap_proposal@;
        let signer = self.participant;
        if !self.swap_proposal.is_proposal_open_for_fulfilling(&params.option_id, signer, self.now) {
            return Err(SwapError::FulfillingIsNotAvailable);
        }
        let oi = match find_option_index(&self.swap_proposal.swap_options, &params.option_id) {
            Some(oi) => oi,
            None => {
                return Err(SwapError::FulfillingIsNotAvailable);
            },
        };
        proof {
            lemma_option_index_bounds(p.swap_options, params.option_id@);
            assert(p.swap_options[oi as int] == self.swap_proposal.swap_options@[oi as int]@);
        }
        let ii = match find_item_index(
            &self.swap_proposal.swap_options[oi].asking_items,
            &params.swap_item_id,
        ) {
            Some(ii) => ii,
            None => {
                return Err(SwapError::FulfillingIsNotAvailable);
            },
        };
        proof {
            lemma_item_index_bounds(p.swap_options[oi as int].asking_items, params.swap_item_id@);
        }
        let item = &self.swap_proposal.swap_options[oi].asking_items[ii];
        assert(p.swap_options[oi as int].asking_items[ii as int] == item@);
        if item.status != SwapItemStatus::Created {
            return Err(SwapError::FulfillingIsNotAvailable);
        }
        if item.mint_account != self.mint_account || !self.swap_registry.is_vault_accepted(
            self.mint_account,
            self.swap_token_vault,
        ) {
            return Err(SwapError::UnAllowedMintToken);
        }
        let amount = item.amount;
        self.swap_proposal.fulfilled_by = signer;
        self.swap_proposal.fulfilled_with_option_id = params.option_id.clone();
        self.swap_proposal.set_asking_item(oi, ii, SwapItemStatus::Deposited, signer);
        proof {
            let x = p.swap_options[oi as int].asking_items[ii as int];
            lemma_advance_asking(
                p,
                oi as int,
                ii as int,
                SwapItemView { status: SwapItemStatus::Deposited, owner: signer, ..x },
            );
        }
        let mut events: Vec<SwapEvent> = Vec::new();
        events.push(
            SwapEvent::ItemDeposited(
                ItemDeposited {
                    actor: signer,
                    proposal_key: self.swap_proposal_key,
                    id: params.swap_item_id.clone(),
                    status: SwapItemStatus::Deposited,
                },
            ),
        );
        if all_items_with_status(
            &self.swap_proposal.swap_options[oi].asking_items,
            SwapItemStatus::Deposited,
        ) {
            self.swap_proposal.status = SwapProposalStatus::Fulfilled;
            events.push(
                SwapEvent::ProposalFulfilled(
                    ProposalFulfilled {
                        actor: signer,
                        proposal_key: self.swap_proposal_key,
                        id: self.swap_proposal.id.clone(),
                        status: SwapProposalStatus::Fulfilled,
                    },
                ),
            );
        }
        let transfer = TokenTransfer {
            mint_account: self.mint_account,
            from: self.participant_token_account,
            to: self.swap_token_vault,
            authority: signer,
            amount: amount,
        };
        Ok(TransferOutcome { transfer, events })
    }
}

} // verus!
