use vstd::prelude::*;

use crate::address::Address;
use crate::error::SwapError;
use crate::event::{SwapConfigUpdated, VaultCreated};
use crate::state::{mint_existed, MintInfo, SwapPlatformRegistry};

verus! {

/// The limits that the platform starts with.
#[derive(Clone, Copy, Debug, PartialEq, Eq, Structural)]
pub struct InitializeSwapPlatformParams {
    pub max_allowed_items: u8,
    pub max_allowed_options: u8,
}

/// The administrator and the registry to set up.
#[derive(Debug)]
pub struct InitializeSwapPlatformContext {
    pub owner: Address,
    pub swap_registry: SwapPlatformRegistry,
}

impl InitializeSwapPlatformContext {
    /// Sets up the registry once, with the signer as its administrator.
    pub fn execute(&mut self, params: InitializeSwapPlatformParams, bump: u8) -> (r: Result<
        (),
        SwapError,
    >)
        ensures
            final(self).owner == old(self).owner,
            old(self).swap_registry.was_initialized ==> r == Err::<(), SwapError>(
                SwapError::AlreadyInitialized,
            ) && final(self).swap_registry == old(self).swap_registry,
            !old(self).swap_registry.was_initialized ==> {
                &&& r is Ok
                &&& final(self).swap_registry.was_initialized
                &&& final(self).swap_registry.bump == bump
                &&& final(self).swap_registry.owner == old(self).owner
                &&& final(self).swap_registry.max_allowed_items == params.max_allowed_items
                &&& final(self).swap_registry.max_allowed_options == params.max_allowed_options
                &&& final(self).swap_registry.allowed_mint_accounts == old(
                    self,
                ).swap_registry.allowed_mint_accounts
                &&& final(self).swap_registry.address_lookup_table == old(
                    self,
                ).swap_registry.address_lookup_table
            },
    {
        let initialized = self.swap_registry.handle_post_initialized();
        if initialized.is_err() {
            return initialized;
        }
        self.swap_registry.bump = bump;
        self.swap_registry.owner = self.owner;
        self.swap_registry.max_allowed_items = params.max_allowed_items;
        self.swap_registry.max_allowed_options = params.max_allowed_options;
        Ok(())
    }
}

/// New per-proposal limits.
#[derive(Clone, Copy, Debug, PartialEq, Eq, Structural)]
pub struct UpdateSwapPlatformParams {
    pub max_allowed_items: u8,
    pub max_allowed_options: u8,
}

/// The signer and the registry to change.
#[derive(Debug)]
pub struct UpdateSwapPlatformContext {
    pub owner: Address,
    pub swap_registry: SwapPlatformRegistry,
}

impl UpdateSwapPlatformContext {
    /// Lets the administrator change the per-proposal limits, each at least one.
    pub fn execute(&mut self, params: UpdateSwapPlatformParams) -> (r: Result<
        SwapConfigUpdated,
        SwapError,
    >)
        ensures
            final(self).owner == old(self).owner,
            old(self).owner != old(self).swap_registry.owner ==> r == Err::<
                SwapConfigUpdated,
                SwapError,
            >(SwapError::OnlyAdministrator) && final(self).swap_registry == old(self).swap_registry,
            old(self).owner == old(self).swap_registry.owner && (params.max_allowed_options < 1
                || params.max_allowed_items < 1) ==> r == Err::<SwapConfigUpdated, SwapError>(
                SwapError::InvalidValue,
            ) && final(self).swap_registry == old(self).swap_registry,
            old(self).owner == old(self).swap_registry.owner && params.max_allowed_options >= 1
                && params.max_allowed_items >= 1 ==> {
                &&& r == Ok::<SwapConfigUpdated, SwapError>(
                    SwapConfigUpdated {
                        actor: old(self).owner,
                        max_allowed_items: params.max_allowed_items,
                        max_allowed_options: params.max_allowed_options,
                    },
                )
                &&& final(self).swap_registry.max_allowed_items == params.max_allowed_items
                &&& final(self).swap_registry.max_allowed_options == params.max_allowed_options
                &&& final(self).swap_registry.owner == old(self).swap_registry.owner
                &&& final(self).swap_registry.was_initialized == old(
                    self,
                ).swap_registry.was_initialized
                &&& final(self).swap_registry.bump == old(self).swap_registry.bump
                &&& final(self).swap_registry.allowed_mint_accounts == old(
                    self,
                ).swap_registry.allowed_mint_accounts
                &&& final(self).swap_registry.address_lookup_table == old(
                    self,
                ).swap_registry.address_lookup_table
            },
    {
        if self.owner != self.swap_registry.owner {
            return Err(SwapError::OnlyAdministrator);
        }
        if params.max_allowed_options < 1 {
            return Err(SwapError::InvalidValue);
        }
        if params.max_allowed_items < 1 {
            return Err(SwapError::InvalidValue);
        }
        self.swap_registry.max_allowed_options = params.max_allowed_options;
        self.swap_registry.max_allowed_items = params.max_allowed_items;
        Ok(
            SwapConfigUpdated {
                actor: self.owner,
                max_allowed_items: params.max_allowed_items,
                max_allowed_options: params.max_allowed_options,
            },
        )
    }
}

/// The records that registering a vault reads and writes.
#[derive(Debug)]
pub struct CreateTokenVaultContext {
    pub signer: Address,
    pub swap_registry: SwapPlatformRegistry,
    pub swap_registry_key: Address,
    pub mint_account: Address,
    pub swap_token_vault: Address,
}

impl CreateTokenVaultContext {
    /// Registers `swap_token_vault` as the escrow of a new token type, enabled for trading.
    pub fn execute(&mut self, bump: u8) -> (r: Result<VaultCreated, SwapError>)
        ensures
            final(self).signer == old(self).signer,
            final(self).swap_registry_key == old(self).swap_registry_key,
            final(self).mint_account == old(self).mint_account,
            final(self).swap_token_vault == old(self).swap_token_vault,
            mint_existed(old(self).swap_registry.allowed_mint_accounts@, old(self).mint_account)
                ==> r == Err::<VaultCreated, SwapError>(SwapError::MintAccountExisted)
                && final(self).swap_registry == old(self).swap_registry,
            !mint_existed(old(self).swap_registry.allowed_mint_accounts@, old(self).mint_account)
                ==> {
                &&& r == Ok::<VaultCreated, SwapError>(
                    VaultCreated {
                        actor: old(self).signer,
                        authority: old(self).swap_registry_key,
                        mint_account: old(self).mint_account,
                        associated_account: old(self).swap_token_vault,
                    },
                )
                &&& final(self).swap_registry.allowed_mint_accounts@ == old(
                    self,
                ).swap_registry.allowed_mint_accounts@.push(
                    MintInfo {
                        is_enabled: true,
                        mint_account: old(self).mint_account,
                        token_account: old(self).swap_token_vault,
                        bump: bump,
                    },
                )
                &&& final(self).swap_registry.owner == old(self).swap_registry.owner
                &&& final(self).swap_registry.was_initialized == old(
                    self,
                ).swap_registry.was_initialized
                &&& final(self).swap_registry.bump == old(self).swap_registry.bump
                &&& final(self).swap_registry.max_allowed_items == old(
                    self,
                ).swap_registry.max_allowed_items
                &&& final(self).swap_registry.max_allowed_options == old(
                    self,
                ).swap_registry.max_allowed_options
                &&& final(self).swap_registry.address_lookup_table == old(
                    self,
                ).swap_registry.address_lookup_table
            },
    {
        if self.swap_registry.is_mint_account_existed(self.mint_account) {
            return Err(SwapError::MintAccountExisted);
        }
        self.swap_registry.allowed_mint_accounts.push(
            MintInfo {
                mint_account: self.mint_account,
                token_account: self.swap_token_vault,
                bump: bump,
                is_enabled: true,
            },
        );
        Ok(
            VaultCreated {
                actor: self.signer,
                authority: self.swap_registry_key,
                associated_account: self.swap_token_vault,
                mint_account: self.mint_account,
            },
        )
    }
}

} // verus!
