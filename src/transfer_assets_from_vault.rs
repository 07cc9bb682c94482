use vstd::prelude::*;

use crate::address::Address;
use crate::error::SwapError;
use crate::event::{ItemRedeemed, ItemWithdrawn, SwapEvent};
use crate::state::{
    find_item_index, find_option_index, item_index, lemma_advance_asking, lemma_advance_offered, lemma_advance_preserves_wf, lemma_asking_update_unredeemed, lemma_offered_update_unredeemed,
    lemma_unredeemed_is_not_fully_redeemed,
    lemma_asking_update_keeps_option, lemma_item_index_bounds, lemma_option_index_bounds,
    vault_accepted, MintInfo, SwapItemStatus, SwapItemView, SwapPlatformRegistry, SwapProposal,
    SwapProposalStatus, SwapProposalView,
};
use crate::vault::{TokenTransfer, TransferOutcome};

verus! {

/// Which way escrowed assets leave the vault.
#[derive(Clone, Copy, Debug, PartialEq, Eq, Structural)]
pub enum TransferActionType {
    /// After a completed swap: each party takes what the other deposited.
    Redeeming,
    /// After a cancellation: each party takes back what it deposited.
    Withdrawing,
}

/// Which item leaves the vault, and how.
#[derive(Debug)]
pub struct TransferAssetsFromVaultParams {
    pub swap_registry_bump: u8,
    pub swap_token_vault_bump: u8,
    pub proposal_id: String,
    pub action_type: TransferActionType,
    pub swap_item_id: String,
}

/// The records that a transfer out of the vault reads and writes. The registry's
/// own address signs outgoing transfers.
#[derive(Debug)]
pub struct TransferAssetsFromVaultContext {
    pub signer: Address,
    pub mint_account: Address,
    pub swap_registry: SwapPlatformRegistry,
    pub swap_registry_key: Address,
    pub signer_token_account: Address,
    pub swap_proposal: SwapProposal,
    pub swap_proposal_key: Address,
    pub swap_token_vault: Address,
    pub now: u64,
}

/// The asking items of the option that the participant fulfilled.
pub open spec fn fulfilled_asking_items(p: SwapProposalView) -> Seq<SwapItemView> {
    p.swap_options[p.fulfilled_option_index()].asking_items
}

/// Why item `item_id` of `items` cannot leave vault `vault` of token type `mint`, if it cannot.
pub open spec fn vault_item_error(
    items: Seq<SwapItemView>,
    item_id: Seq<char>,
    entries: Seq<MintInfo>,
    mint: Address,
    vault: Address,
) -> Option<SwapError> {
    let i = item_index(items, item_id);
    if i < 0 || items[i].status != SwapItemStatus::Deposited || items[i].mint_account != mint
        || !vault_accepted(entries, mint, vault) {
        Some(SwapError::TransferTokenFromVaultIsNotAvailable)
    } else {
        None
    }
}

/// Why `signer` cannot redeem item `item_id` of `p`, if they cannot. The owner
/// redeems the fulfilled option's asking items, the participant the offered items.
pub open spec fn redeem_error(
    p: SwapProposalView,
    entries: Seq<MintInfo>,
    signer: Address,
    mint: Address,
    vault: Address,
    item_id: Seq<char>,
) -> Option<SwapError> {
    if !p.redeemable() || p.fulfilled_option_index() < 0 {
        Some(SwapError::RedeemIsNotAvailable)
    } else if signer == p.owner {
        vault_item_error(fulfilled_asking_items(p), item_id, entries, mint, vault)
    } else if p.is_fulfilled_participant(signer) {
        vault_item_error(p.offered_items, item_id, entries, mint, vault)
    } else {
        Some(SwapError::InvalidValue)
    }
}

/// Why `signer` cannot withdraw item `item_id` of `p`, if they cannot. The owner
/// withdraws offered items, the participant the fulfilled option's asking items.
pub open spec fn withdraw_error(
    p: SwapProposalView,
    entries: Seq<MintInfo>,
    signer: Address,
    mint: Address,
    vault: Address,
    item_id: Seq<char>,
) -> Option<SwapError> {
    if !p.withdrawable() || (p.fulfilled_with_option_id.len() > 0 && p.fulfilled_option_index()
        < 0) {
        Some(SwapError::WithdrawalIsNotAvailable)
    } else if signer == p.owner {
        vault_item_error(p.offered_items, item_id, entries, mint, vault)
    } else if p.is_fulfilled_participant(signer) {
        if p.fulfilled_with_option_id.len() == 0 {
            Some(SwapError::TransferTokenFromVaultIsNotAvailable)
        } else {
            vault_item_error(fulfilled_asking_items(p), item_id, entries, mint, vault)
        }
    } else {
        Some(SwapError::InvalidValue)
    }
}

/// `p` after item `item_id` left the vault with status `s`: an asking item of the
/// fulfilled option if `asking`, else an offered item.
pub open spec fn settled_item(
    p: SwapProposalView,
    asking: bool,
    item_id: Seq<char>,
    s: SwapItemStatus,
) -> SwapProposalView {
    if asking {
        let oi = p.fulfilled_option_index();
        let ii = item_index(p.swap_options[oi].asking_items, item_id);
        p.with_asking_item(oi, ii, p.swap_options[oi].asking_items[ii].with_status(s))
    } else {
        let i = item_index(p.offered_items, item_id);
        p.with_offered_item(i, p.offered_items[i].with_status(s))
    }
}

/// `p` after `signer` redeemed item `item_id`.
pub open spec fn redeem_result(p: SwapProposalView, signer: Address, item_id: Seq<char>) -> SwapProposalView {
    let q = settled_item(p, signer == p.owner, item_id, SwapItemStatus::Redeemed);
    q.with_status(
        if q.fully_redeemed() {
            SwapProposalStatus::Redeemed
        } else {
            q.status
        },
    )
}

/// `p` after `signer` withdrew item `item_id`.
pub open spec fn withdraw_result(p: SwapProposalView, signer: Address, item_id: Seq<char>) -> SwapProposalView {
    let q = settled_item(p, signer != p.owner, item_id, SwapItemStatus::Withdrawn);
    q.with_status(
        if q.fully_withdrawn() {
            SwapProposalStatus::Withdrawn
        } else {
            q.status
        },
    )
}

/// Why `params` cannot be carried out on `p` by `signer`, if they cannot.
pub open spec fn from_vault_error(
    p: SwapProposalView,
    entries: Seq<MintInfo>,
    signer: Address,
    mint: Address,
    vault: Address,
    params: TransferAssetsFromVaultParams,
) -> Option<SwapError> {
    if params.action_type == TransferActionType::Redeeming {
        redeem_error(p, entries, signer, mint, vault, params.swap_item_id@)
    } else {
        withdraw_error(p, entries, signer, mint, vault, params.swap_item_id@)
    }
}

/// `p` after `signer` carried out `params`.
pub open spec fn from_vault_result(
    p: SwapProposalView,
    signer: Address,
    params: TransferAssetsFromVaultParams,
) -> SwapProposalView {
    if params.action_type == TransferActionType::Redeeming {
        redeem_result(p, signer, params.swap_item_id@)
    } else {
        withdraw_result(p, signer, params.swap_item_id@)
    }
}

/// The amount of the item that `params` moves out of the vault for `signer`.
pub open spec fn from_vault_amount(
    p: SwapProposalView,
    signer: Address,
    params: TransferAssetsFromVaultParams,
) -> u64 {
    if params.action_type == TransferActionType::Redeeming {
        settled_amount(p, signer == p.owner, params.swap_item_id@)
    } else {
        settled_amount(p, signer != p.owner, params.swap_item_id@)
    }
}

/// The amount of item `item_id`: an asking item of the fulfilled option if
/// `asking`, else an offered item.
pub open spec fn settled_amount(p: SwapProposalView, asking: bool, item_id: Seq<char>) -> u64 {
    if asking {
        fulfilled_asking_items(p)[item_index(fulfilled_asking_items(p), item_id)].amount
    } else {
        p.offered_items[item_index(p.offered_items, item_id)].amount
    }
}

/// Redeeming is refused unless the proposal is exactly `Fulfilled`, with its
/// fulfilled option in place; withdrawing is refused unless it is exactly `Canceled`.
pub proof fn lemma_settlement_gates(
    p: SwapProposalView,
    entries: Seq<MintInfo>,
    signer: Address,
    mint: Address,
    vault: Address,
    item_id: Seq<char>,
)
    ensures
        p.status != SwapProposalStatus::Fulfilled ==> redeem_error(
            p,
            entries,
            signer,
            mint,
            vault,
            item_id,
        ) == Some(SwapError::RedeemIsNotAvailable),
        p.fulfilled_option_index() < 0 ==> redeem_error(p, entries, signer, mint, vault, item_id)
            == Some(SwapError::RedeemIsNotAvailable),
        p.status != SwapProposalStatus::Canceled ==> withdraw_error(
            p,
            entries,
            signer,
            mint,
            vault,
            item_id,
        ) == Some(SwapError::WithdrawalIsNotAvailable),
{
}

/// A successful redemption leaves the proposal `Redeemed` exactly when every
/// offered item and every asking item of the fulfilled option is redeemed; a
/// successful withdrawal leaves it `Withdrawn` exactly when every deposited item is
/// withdrawn.
pub proof fn lemma_settled_exactly_when_all_items_settled(
    p: SwapProposalView,
    entries: Seq<MintInfo>,
    signer: Address,
    mint: Address,
    vault: Address,
    item_id: Seq<char>,
)
    ensures
        redeem_error(p, entries, signer, mint, vault, item_id) is None ==> (redeem_result(
            p,
            signer,
            item_id,
        ).status == SwapProposalStatus::Redeemed <==> redeem_result(
            p,
            signer,
            item_id,
        ).fully_redeemed()),
        withdraw_error(p, entries, signer, mint, vault, item_id) is None ==> (withdraw_result(
            p,
            signer,
            item_id,
        ).status == SwapProposalStatus::Withdrawn <==> withdraw_result(
            p,
            signer,
            item_id,
        ).fully_withdrawn()),
{
}

/// Taking an item out of the vault keeps a well-formed proposal consistent about
/// redemption: only a redemption of the last outstanding item makes it `Redeemed`.
pub proof fn lemma_from_vault_keeps_settlement_consistent(
    p: SwapProposalView,
    entries: Seq<MintInfo>,
    signer: Address,
    mint: Address,
    vault: Address,
    params: TransferAssetsFromVaultParams,
)
    requires
        from_vault_error(p, entries, signer, mint, vault, params) is None,
        p.wf(),
        p.settlement_consistent(),
    ensures
        from_vault_result(p, signer, params).settlement_consistent(),
{
    if params.action_type == TransferActionType::Withdrawing {
        let id = params.swap_item_id@;
        let item_status = SwapItemStatus::Withdrawn;
        if signer != p.owner {
            let oi = p.fulfilled_option_index();
            lemma_option_index_bounds(p.swap_options, p.fulfilled_with_option_id);
            let ii = item_index(p.swap_options[oi].asking_items, id);
            lemma_item_index_bounds(p.swap_options[oi].asking_items, id);
            let item = p.swap_options[oi].asking_items[ii].with_status(item_status);
            lemma_asking_update_unredeemed(p, oi, ii, item);
            lemma_advance_asking(p, oi, ii, item);
            lemma_advance_preserves_wf(p, p.with_asking_item(oi, ii, item));
            lemma_unredeemed_is_not_fully_redeemed(p.with_asking_item(oi, ii, item));
        } else {
            let i = item_index(p.offered_items, id);
            lemma_item_index_bounds(p.offered_items, id);
            let item = p.offered_items[i].with_status(item_status);
            lemma_offered_update_unredeemed(p, i, item);
            lemma_advance_offered(p, i, item);
            lemma_advance_preserves_wf(p, p.with_offered_item(i, item));
            lemma_unredeemed_is_not_fully_redeemed(p.with_offered_item(i, item));
        }
    }
}

impl TransferAssetsFromVaultContext {
    /// Moves one escrowed item out of the vault, to its new owner after a swap or
    /// back to its depositor after a cancellation, and advances the proposal once
    /// nothing is left to move. On any failure nothing changes.
    pub fn execute(&mut self, params: TransferAssetsFromVaultParams) -> (r: Result<
        TransferOutcome,
        SwapError,
    >)
        ensures
            final(self).signer == old(self).signer,
            final(self).mint_account == old(self).mint_account,
            final(self).swap_registry == old(self).swap_registry,
            final(self).swap_registry_key == old(self).swap_registry_key,
            final(self).signer_token_account == old(self).signer_token_account,
            final(self).swap_proposal_key == old(self).swap_proposal_key,
            final(self).swap_token_vault == old(self).swap_token_vault,
            final(self).now == old(self).now,
            old(self).swap_proposal@.wf() ==> final(self).swap_proposal@.wf(),
            old(self).swap_proposal@.wf() && old(self).swap_proposal@.settlement_consistent()
                ==> final(self).swap_proposal@.settlement_consistent(),
            ({
                let p = old(self).swap_proposal@;
                let error = from_vault_error(
                    p,
                    old(self).swap_registry.allowed_mint_accounts@,
                    old(self).signer,
                    old(self).mint_account,
                    old(self).swap_token_vault,
                    params,
                );
                match r {
                    Ok(out) => {
                        &&& error is None
                        &&& final(self).swap_proposal@ == from_vault_result(
                            p,
                            old(self).signer,
                            params,
                        )
                        &&& p.items_advance_to(final(self).swap_proposal@)
                        &&& out.transfer.amount == from_vault_amount(p, old(self).signer, params)
                        &&& out.transfer.mint_account == old(self).mint_account
                        &&& out.transfer.from == old(self).swap_token_vault
                        &&& out.transfer.to == old(self).signer_token_account
                        &&& out.transfer.authority == old(self).swap_registry_key
                        &&& out.events@.len() == 1
                        &&& if params.action_type == TransferActionType::Redeeming {
                            out.events@[0].is_item_redeemed(
                                old(self).signer,
                                old(self).swap_proposal_key,
                                params.swap_item_id@,
                            )
                        } else {
                            out.events@[0].is_item_withdrawn(
                                old(self).signer,
                                old(self).swap_proposal_key,
                                params.swap_item_id@,
                            )
                        }
                    },
                    Err(e) => {
                        &&& error == Some(e)
                        &&& final(self).swap_proposal == old(self).swap_proposal
                    },
                }
            }),
    {
        let ghost p = self.swap_proposal@;
        let r = match params.action_type {
            TransferActionType::Redeeming => self.redeem(&params),
            TransferActionType::Withdrawing => self.withdraw(&params),
        };
        proof {
            if r.is_ok() && p.wf() {
                lemma_advance_preserves_wf(p, self.swap_proposal@);
                if p.settlement_consistent() {
                    lemma_from_vault_keeps_settlement_consistent(
                        p,
                        self.swap_registry.allowed_mint_accounts@,
                        self.signer,
                        self.mint_account,
                        self.swap_token_vault,
                        params,
                    );
                }
            }
        }
        r
    }

    /// Redeems one item: the owner takes an asking item of the fulfilled option,
    /// the participant an offered item. On any failure nothing changes.
    pub fn redeem(&mut self, params: &TransferAssetsFromVaultParams) -> (r: Result<
        TransferOutcome,
        SwapError,
    >)
        ensures
            final(self).signer == old(self).signer,
            final(self).mint_account == old(self).mint_account,
            final(self).swap_registry == old(self).swap_registry,
            final(self).swap_registry_key == old(self).swap_registry_key,
            final(self).signer_token_account == old(self).signer_token_account,
            final(self).swap_proposal_key == old(self).swap_proposal_key,
            final(self).swap_token_vault == old(self).swap_token_vault,
            final(self).now == old(self).now,
            ({
                let p = old(self).swap_proposal@;
                let error = redeem_error(
                    p,
                    old(self).swap_registry.allowed_mint_accounts@,
                    old(self).signer,
                    old(self).mint_account,
                    old(self).swap_token_vault,
                    params.swap_item_id@,
                );
                match r {
                    Ok(out) => {
                        &&& error is None
                        &&& final(self).swap_proposal@ == redeem_result(
                            p,
                            old(self).signer,
                            params.swap_item_id@,
                        )
                        &&& p.items_advance_to(final(self).swap_proposal@)
                        &&& out.transfer.amount == settled_amount(p, old(self).signer == p.owner, params.swap_item_id@)
                        &&& out.transfer.mint_account == old(self).mint_account
                        &&& out.transfer.from == old(self).swap_token_vault
                        &&& out.transfer.to == old(self).signer_token_account
                        &&& out.transfer.authority == old(self).swap_registry_key
                        &&& out.events@.len() == 1
                        &&& out.events@[0].is_item_redeemed(
                            old(self).signer,
                            old(self).swap_proposal_key,
                            params.swap_item_id@,
                        )
                    },
                    Err(e) => {
                        &&& error == Some(e)
                        &&& final(self).swap_proposal == old(self).swap_proposal
                    },
                }
            }),
    {
        let now = self.now;
        if !self.swap_proposal.is_proposal_redeemable(now) {
            return Err(SwapError::RedeemIsNotAvailable);
        }
        let found = find_option_index(
            &self.swap_proposal.swap_options,
            &self.swap_proposal.fulfilled_with_option_id,
        );
        if found.is_none() {
            return Err(SwapError::RedeemIsNotAvailable);
        }
        let signer = self.signer;
        let transfer = if self.swap_proposal.is_proposal_owner(signer) {
            self.transfer_asking_items(params, SwapItemStatus::Redeemed)
        } else if self.swap_proposal.is_fulfilled_participant(signer) {
            self.transfer_offered_items(params, SwapItemStatus::Redeemed)
        } else {
            Err(SwapError::InvalidValue)
        };
        let transfer = match transfer {
            Ok(t) => t,
            Err(e) => {
                return Err(e);
            },
        };
        let updated = self.swap_proposal.update_redeemed_status();
        assert(updated is Ok);
        let mut events: Vec<SwapEvent> = Vec::new();
        events.push(
            SwapEvent::ItemRedeemed(
                ItemRedeemed {
                    actor: signer,
                    proposal_key: self.swap_proposal_key,
                    id: params.swap_item_id.clone(),
                    status: SwapItemStatus::Redeemed,
                },
            ),
        );
        Ok(TransferOutcome { transfer, events })
    }

    /// Withdraws one item: the owner takes back an offered item, the participant an
    /// asking item of the option it claimed. On any failure nothing changes.
    pub fn withdraw(&mut self, params: &TransferAssetsFromVaultParams) -> (r: Result<
        TransferOutcome,
        SwapError,
    >)
        ensures
            final(self).signer == old(self).signer,
            final(self).mint_account == old(self).mint_account,
            final(self).swap_registry == old(self).swap_registry,
            final(self).swap_registry_key == old(self).swap_registry_key,
            final(self).signer_token_account == old(self).signer_token_account,
            final(self).swap_proposal_key == old(self).swap_proposal_key,
            final(self).swap_token_vault == old(self).swap_token_vault,
            final(self).now == old(self).now,
            ({
                let p = old(self).swap_proposal@;
                let error = withdraw_error(
                    p,
                    old(self).swap_registry.allowed_mint_accounts@,
                    old(self).signer,
                    old(self).mint_account,
                    old(self).swap_token_vault,
                    params.swap_item_id@,
                );
                match r {
                    Ok(out) => {
                        &&& error is None
                        &&& final(self).swap_proposal@ == withdraw_result(
                            p,
                            old(self).signer,
                            params.swap_item_id@,
                        )
                        &&& p.items_advance_to(final(self).swap_proposal@)
                        &&& out.transfer.amount == settled_amount(p, old(self).signer != p.owner, params.swap_item_id@)
                        &&& out.transfer.mint_account == old(self).mint_account
                        &&& out.transfer.from == old(self).swap_token_vault
                        &&& out.transfer.to == old(self).signer_token_account
                        &&& out.transfer.authority == old(self).swap_registry_key
                        &&& out.events@.len() == 1
                        &&& out.events@[0].is_item_withdrawn(
                            old(self).signer,
                            old(self).swap_proposal_key,
                            params.swap_item_id@,
                        )
                    },
                    Err(e) => {
                        &&& error == Some(e)
                        &&& final(self).swap_proposal == old(self).swap_proposal
                    },
                }
            }),
    {
        let now = self.now;
        if !self.swap_proposal.is_proposal_withdrawable(now) {
            return Err(SwapError::WithdrawalIsNotAvailable);
        }
        let claimed = !self.swap_proposal.fulfilled_with_option_id.as_str().is_empty();
        if claimed {
            let found = find_option_index(
                &self.swap_proposal.swap_options,
                &self.swap_proposal.fulfilled_with_option_id,
            );
            if found.is_none() {
                return Err(SwapError::WithdrawalIsNotAvailable);
            }
        }
        let signer = self.signer;
        let transfer = if self.swap_proposal.is_proposal_owner(signer) {
            self.transfer_offered_items(params, SwapItemStatus::Withdrawn)
        } else if self.swap_proposal.is_fulfilled_participant(signer) {
            if claimed {
                self.transfer_asking_items(params, SwapItemStatus::Withdrawn)
            } else {
                Err(SwapError::TransferTokenFromVaultIsNotAvailable)
            }
        } else {
            Err(SwapError::InvalidValue)
        };
        let transfer = match transfer {
            Ok(t) => t,
            Err(e) => {
                return Err(e);
            },
        };
        let updated = self.swap_proposal.update_withdrawn_status();
        assert(updated is Ok);
        let mut events: Vec<SwapEvent> = Vec::new();
        events.push(
            SwapEvent::ItemWithdrawn(
                ItemWithdrawn {
                    actor: signer,
                    proposal_key: self.swap_proposal_key,
                    id: params.swap_item_id.clone(),
                    status: SwapItemStatus::Withdrawn,
                },
            ),
        );
        Ok(TransferOutcome { transfer, events })
    }

    /// Moves asking item `params.swap_item_id` of the fulfilled option out of the
    /// vault, leaving it with status `desired_item_status`.
    fn transfer_asking_items(
        &mut self,
        params: &TransferAssetsFromVaultParams,
        desired_item_status: SwapItemStatus,
    ) -> (r: Result<TokenTransfer, SwapError>)
        requires
            old(self).swap_proposal@.fulfilled_option_index() >= 0,
            desired_item_status == SwapItemStatus::Redeemed || desired_item_status
                == SwapItemStatus::Withdrawn,
        ensures
            final(self).signer == old(self).signer,
            final(self).mint_account == old(self).mint_account,
            final(self).swap_registry == old(self).swap_registry,
            final(self).swap_registry_key == old(self).swap_registry_key,
            final(self).signer_token_account == old(self).signer_token_account,
            final(self).swap_proposal_key == old(self).swap_proposal_key,
            final(self).swap_token_vault == old(self).swap_token_vault,
            final(self).now == old(self).now,
            ({
                let p = old(self).swap_proposal@;
                let error = vault_item_error(
                    fulfilled_asking_items(p),
                    params.swap_item_id@,
                    old(self).swap_registry.allowed_mint_accounts@,
                    old(self).mint_account,
                    old(self).swap_token_vault,
                );
                match r {
                    Ok(t) => {
                        &&& error is None
                        &&& final(self).swap_proposal@ == settled_item(
                            p,
                            true,
                            params.swap_item_id@,
                            desired_item_status,
                        )
                        &&& final(self).swap_proposal@.fulfilled_option_index()
                            == p.fulfilled_option_index()
                        &&& p.items_advance_to(final(self).swap_proposal@)
                        &&& t == (TokenTransfer {
                            mint_account: old(self).mint_account,
                            from: old(self).swap_token_vault,
                            to: old(self).signer_token_account,
                            authority: old(self).swap_registry_key,
                            amount: fulfilled_asking_items(p)[item_index(
                                fulfilled_asking_items(p),
                                params.swap_item_id@,
                            )].amount,
                        })
                    },
                    Err(e) => {
                        &&& error == Some(e)
                        &&& final(self).swap_proposal == old(self).swap_proposal
                    },
                }
            }),
    {
        let ghost p = self.swap_proposal@;
        let oi = match find_option_index(
            &self.swap_proposal.swap_options,
            &self.swap_proposal.fulfilled_with_option_id,
        ) {
            Some(oi) => oi,
            None => {
                return Err(SwapError::TransferTokenFromVaultIsNotAvailable);
            },
        };
        proof {
            lemma_option_index_bounds(p.swap_options, p.fulfilled_with_option_id);
            assert(p.swap_options[oi as int] == self.swap_proposal.swap_options@[oi as int]@);
        }
        let ii = match find_item_index(
            &self.swap_proposal.swap_options[oi].asking_items,
            &params.swap_item_id,
        ) {
            Some(ii) => ii,
            None => {
                return Err(SwapError::TransferTokenFromVaultIsNotAvailable);
            },
        };
        proof {
            lemma_item_index_bounds(p.swap_options[oi as int].asking_items, params.swap_item_id@);
        }
        let item = &self.swap_proposal.swap_options[oi].asking_items[ii];
        assert(p.swap_options[oi as int].asking_items[ii as int] == item@);
        if item.status != SwapItemStatus::Deposited || item.mint_account != self.mint_account
            || !self.swap_registry.is_vault_accepted(self.mint_account, self.swap_token_vault) {
            return Err(SwapError::TransferTokenFromVaultIsNotAvailable);
        }
        let amount = item.amount;
        let owner = item.owner;
        self.swap_proposal.set_asking_item(oi, ii, desired_item_status, owner);
        proof {
            let x = p.swap_options[oi as int].asking_items[ii as int];
            assert(SwapItemView { status: desired_item_status, owner: owner, ..x } == x.with_status(
                desired_item_status,
            ));
            lemma_advance_asking(p, oi as int, ii as int, x.with_status(desired_item_status));
            lemma_asking_update_keeps_option(
                p,
                oi as int,
                ii as int,
                x.with_status(desired_item_status),
            );
        }
        Ok(
            TokenTransfer {
                mint_account: self.mint_account,
                from: self.swap_token_vault,
                to: self.signer_token_account,
                authority: self.swap_registry_key,
                amount: amount,
            },
        )
    }

    /// Moves offered item `params.swap_item_id` out of the vault, leaving it with
    /// status `status`.
    fn transfer_offered_items(
        &mut self,
        params: &TransferAssetsFromVaultParams,
        status: SwapItemStatus,
    ) -> (r: Result<TokenTransfer, SwapError>)
        requires
            status == SwapItemStatus::Redeemed || status == SwapItemStatus::Withdrawn,
        ensures
            final(self).signer == old(self).signer,
            final(self).mint_account == old(self).mint_account,
            final(self).swap_registry == old(self).swap_registry,
            final(self).swap_registry_key == old(self).swap_registry_key,
            final(self).signer_token_account == old(self).signer_token_account,
            final(self).swap_proposal_key == old(self).swap_proposal_key,
            final(self).swap_token_vault == old(self).swap_token_vault,
            final(self).now == old(self).now,
            ({
                let p = old(self).swap_proposal@;
                let error = vault_item_error(
                    p.offered_items,
                    params.swap_item_id@,
                    old(self).swap_registry.allowed_mint_accounts@,
                    old(self).mint_account,
                    old(self).swap_token_vault,
                );
                match r {
                    Ok(t) => {
                        &&& error is None
                        &&& final(self).swap_proposal@ == settled_item(
                            p,
                            false,
                            params.swap_item_id@,
                            status,
                        )
                        &&& p.items_advance_to(final(self).swap_proposal@)
                        &&& t == (TokenTransfer {
                            mint_account: old(self).mint_account,
                            from: old(self).swap_token_vault,
                            to: old(self).signer_token_account,
                            authority: old(self).swap_registry_key,
                            amount: p.offered_items[item_index(
                                p.offered_items,
                                params.swap_item_id@,
                            )].amount,
                        })
                    },
                    Err(e) => {
                        &&& error == Some(e)
                        &&& final(self).swap_proposal == old(self).swap_proposal
                    },
                }
            }),
    {
        let ghost p = self.swap_proposal@;
        let i = match find_item_index(&self.swap_proposal.offered_items, &params.swap_item_id) {
            Some(i) => i,
            None => {
                return Err(SwapError::TransferTokenFromVaultIsNotAvailable);
            },
        };
        proof {
            lemma_item_index_bounds(p.offered_items, params.swap_item_id@);
        }
        let item = &self.swap_proposal.offered_items[i];
        assert(p.offered_items[i as int] == item@);
        if item.status != SwapItemStatus::Deposited || item.mint_account != self.mint_account
            || !self.swap_registry.is_vault_accepted(self.mint_account, self.swap_token_vault) {
            return Err(SwapError::TransferTokenFromVaultIsNotAvailable);
        }
        let amount = item.amount;
        self.swap_proposal.set_offered_item_status(i, status);
        proof {
            lemma_advance_offered(p, i as int, p.offered_items[i as int].with_status(status));
        }
        Ok(
            TokenTransfer {
                mint_account: self.mint_account,
                from: self.swap_token_vault,
                to: self.signer_token_account,
                authority: self.swap_registry_key,
                amount: amount,
            },
        )
    }
}

} // verus!
