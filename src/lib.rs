//! A multi-party, multi-asset swap engine with verified contracts.
//!
//! A proposer offers a set of items and lists one or more baskets of asking items
//! it accepts in return. The proposer deposits the offered items into per-token
//! vaults; one participant claims a basket by depositing its asking items; each
//! side then redeems what the other put up. Either side may cancel before the swap
//! completes, after which each withdraws what it deposited.
//!
//! Each operation takes the records it reads and writes (a context), the ledger
//! time, and hands back the token transfer the ledger must perform and the
//! notifications that describe the transition. [`SwapLedger`] stores proposals by
//! id and runs the operations against them.

pub mod address;
pub mod cancel_proposal;
pub mod create_proposal;
pub mod deposit_assets_to_vault;
pub mod error;
pub mod event;
pub mod ledger;
pub mod lookup_table;
pub mod platform;
pub mod state;
pub mod transfer_assets_from_vault;
pub mod utils;
pub mod vault;

pub use address::Address;
pub use cancel_proposal::{CancelProposalContext, CancelProposalParams};
pub use create_proposal::{
    CreateProposalContext, CreateProposalParams, SwapItemInfo, SwapItemOptionInfo,
};
pub use deposit_assets_to_vault::{DepositActionType, DepositAssetsContext, DepositAssetsToVaultParams};
pub use error::SwapError;
pub use event::{
    ItemDeposited, ItemRedeemed, ItemWithdrawn, ProposalCanceled, ProposalCreated,
    ProposalDeposited, ProposalFulfilled, SwapConfigUpdated, SwapEvent, VaultCreated,
};
pub use ledger::{ProposalRecord, SwapLedger};
pub use lookup_table::{
    CreateAddressLookupTableContext, CreateAddressLookupTableParams,
    InitializeAddressLookupTableContext, LookupTableRegistry, ModifyAddressLookupTableActionType,
    ModifyAddressLookupTableContext, ModifyAddressLookupTableParams,
};
pub use platform::{
    CreateTokenVaultContext, InitializeSwapPlatformContext, InitializeSwapPlatformParams,
    UpdateSwapPlatformContext, UpdateSwapPlatformParams,
};
pub use state::{
    MintInfo, SwapItem, SwapItemStatus, SwapItemType, SwapOption, SwapPlatformRegistry,
    SwapProposal, SwapProposalStatus,
};
pub use transfer_assets_from_vault::{
    TransferActionType, TransferAssetsFromVaultContext, TransferAssetsFromVaultParams,
};
pub use utils::random_number;
pub use vault::{TokenTransfer, TransferOutcome};
