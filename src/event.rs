use vstd::prelude::*;

use crate::address::Address;
use crate::state::{SwapItemStatus, SwapProposalStatus};

verus! {

/// Emitted when the platform limits change.
#[derive(Clone, Copy, Debug, PartialEq, Eq, Structural)]
pub struct SwapConfigUpdated {
    pub actor: Address,
    pub max_allowed_items: u8,
    pub max_allowed_options: u8,
}

/// Emitted when a vault is registered for a token type.
#[derive(Clone, Copy, Debug, PartialEq, Eq, Structural)]
pub struct VaultCreated {
    pub actor: Address,
    pub authority: Address,
    pub mint_account: Address,
    pub associated_account: Address,
}

/// Emitted when a proposal is created.
#[derive(Debug)]
pub struct ProposalCreated {
    pub actor: Address,
    pub proposal_key: Address,
    pub id: String,
    pub expired_at: u64,
}

/// Emitted when every offered item of a proposal is in the vault.
#[derive(Debug)]
pub struct ProposalDeposited {
    pub actor: Address,
    pub proposal_key: Address,
    pub id: String,
    pub status: SwapProposalStatus,
}

/// Emitted when every asking item of the chosen option is in the vault.
#[derive(Debug)]
pub struct ProposalFulfilled {
    pub actor: Address,
    pub proposal_key: Address,
    pub id: String,
    pub status: SwapProposalStatus,
}

/// Emitted when a proposal is canceled.
#[derive(Debug)]
pub struct ProposalCanceled {
    pub actor: Address,
    pub proposal_key: Address,
    pub id: String,
    pub status: SwapProposalStatus,
}

/// Emitted when one item reaches the vault.
#[derive(Debug)]
pub struct ItemDeposited {
    pub actor: Address,
    pub proposal_key: Address,
    pub id: String,
    pub status: SwapItemStatus,
}

/// Emitted when one item goes back to its depositor.
#[derive(Debug)]
pub struct ItemWithdrawn {
    pub actor: Address,
    pub proposal_key: Address,
    pub id: String,
    pub status: SwapItemStatus,
}

/// Emitted when one item goes to its new owner.
#[derive(Debug)]
pub struct ItemRedeemed {
    pub actor: Address,
    pub proposal_key: Address,
    pub id: String,
    pub status: SwapItemStatus,
}

/// One record of the engine's append-only notification stream.
#[derive(Debug)]
pub enum SwapEvent {
    SwapConfigUpdated(SwapConfigUpdated),
    VaultCreated(VaultCreated),
    ProposalCreated(ProposalCreated),
    ProposalDeposited(ProposalDeposited),
    ProposalFulfilled(ProposalFulfilled),
    ProposalCanceled(ProposalCanceled),
    ItemDeposited(ItemDeposited),
    ItemWithdrawn(ItemWithdrawn),
    ItemRedeemed(ItemRedeemed),
}

impl SwapEvent {
    pub open spec fn is_item_deposited(self, actor: Address, key: Address, id: Seq<char>) -> bool {
        match self {
            SwapEvent::ItemDeposited(e) => e.actor == actor && e.proposal_key == key && e.id@ == id
                && e.status == SwapItemStatus::Deposited,
            _ => false,
        }
    }

    pub open spec fn is_item_redeemed(self, actor: Address, key: Address, id: Seq<char>) -> bool {
        match self {
            SwapEvent::ItemRedeemed(e) => e.actor == actor && e.proposal_key == key && e.id@ == id
                && e.status == SwapItemStatus::Redeemed,
            _ => false,
        }
    }

    pub open spec fn is_item_withdrawn(self, actor: Address, key: Address, id: Seq<char>) -> bool {
        match self {
            SwapEvent::ItemWithdrawn(e) => e.actor == actor && e.proposal_key == key && e.id@ == id
                && e.status == SwapItemStatus::Withdrawn,
            _ => false,
        }
    }

    pub open spec fn is_proposal_deposited(self, actor: Address, key: Address, id: Seq<char>) -> bool {
        match self {
            SwapEvent::ProposalDeposited(e) => e.actor == actor && e.proposal_key == key && e.id@
                == id && e.status == SwapProposalStatus::Deposited,
            _ => false,
        }
    }

    pub open spec fn is_proposal_fulfilled(self, actor: Address, key: Address, id: Seq<char>) -> bool {
        match self {
            SwapEvent::ProposalFulfilled(e) => e.actor == actor && e.proposal_key == key && e.id@
                == id && e.status == SwapProposalStatus::Fulfilled,
            _ => false,
        }
    }
}

} // verus!
