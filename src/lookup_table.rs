use vstd::prelude::*;

use crate::address::Address;
use crate::error::SwapError;
use crate::state::SwapPlatformRegistry;

verus! {

/// The address lookup tables that one account has created.
#[derive(Debug)]
pub struct LookupTableRegistry {
    pub owner: Address,
    pub bump: u8,
    pub lookup_table_addresses: Vec<Address>,
}

/// The signer and the lookup-table record to set up.
#[derive(Debug)]
pub struct InitializeAddressLookupTableContext {
    pub signer: Address,
    pub lookup_table_registry: LookupTableRegistry,
}

impl InitializeAddressLookupTableContext {
    /// Makes the signer the owner of the lookup-table record.
    pub fn execute(&mut self, bump: u8) -> (r: Result<(), SwapError>)
        ensures
            r is Ok,
            final(self).signer == old(self).signer,
            final(self).lookup_table_registry.bump == bump,
            final(self).lookup_table_registry.owner == old(self).signer,
            final(self).lookup_table_registry.lookup_table_addresses == old(
                self,
            ).lookup_table_registry.lookup_table_addresses,
    {
        self.lookup_table_registry.bump = bump;
        self.lookup_table_registry.owner = self.signer;
        Ok(())
    }
}

/// The slot from which the new table's address is derived.
#[derive(Clone, Copy, Debug, PartialEq, Eq, Structural)]
pub struct CreateAddressLookupTableParams {
    pub slot: u64,
}

/// The records that creating a lookup table for the signer reads and writes.
#[derive(Debug)]
pub struct CreateAddressLookupTableContext {
    pub signer: Address,
    pub lookup_table_registry: LookupTableRegistry,
    pub lookup_table_account: Address,
}

impl CreateAddressLookupTableContext {
    /// Records `table_address`, the table that the ledger created for `params.slot`,
    /// in the signer's lookup-table record.
    pub fn execute(&mut self, params: CreateAddressLookupTableParams, table_address: Address) -> (r:
        Result<(), SwapError>)
        ensures
            r is Ok,
            final(self).signer == old(self).signer,
            final(self).lookup_table_account == old(self).lookup_table_account,
            final(self).lookup_table_registry.owner == old(self).lookup_table_registry.owner,
            final(self).lookup_table_registry.bump == old(self).lookup_table_registry.bump,
            final(self).lookup_table_registry.lookup_table_addresses@ == old(
                self,
            ).lookup_table_registry.lookup_table_addresses@.push(table_address),
    {
        self.create_lookup_table(params.slot, table_address)
    }

    fn create_lookup_table(&mut self, slot: u64, table_address: Address) -> (r: Result<
        (),
        SwapError,
    >)
        ensures
            r is Ok,
            final(self).signer == old(self).signer,
            final(self).lookup_table_account == old(self).lookup_table_account,
            final(self).lookup_table_registry.owner == old(self).lookup_table_registry.owner,
            final(self).lookup_table_registry.bump == old(self).lookup_table_registry.bump,
            final(self).lookup_table_registry.lookup_table_addresses@ == old(
                self,
            ).lookup_table_registry.lookup_table_addresses@.push(table_address),
    {
        self.lookup_table_registry.lookup_table_addresses.push(table_address);
        Ok(())
    }
}

/// What to do with the platform's lookup tables.
#[derive(Clone, Copy, Debug, PartialEq, Eq, Structural)]
pub enum ModifyAddressLookupTableActionType {
    CreateLookupTable,
    ExtendLookupTable,
}

/// A lookup-table change for the platform.
#[derive(Debug)]
pub struct ModifyAddressLookupTableParams {
    pub whitelisted_addresses: Vec<Address>,
    pub action_type: ModifyAddressLookupTableActionType,
    pub slot: u64,
}

/// The records that a platform lookup-table change reads and writes.
#[derive(Debug)]
pub struct ModifyAddressLookupTableContext {
    pub signer: Address,
    pub swap_registry: SwapPlatformRegistry,
    pub lookup_table_account: Address,
}

impl ModifyAddressLookupTableContext {
    /// On `CreateLookupTable`, records `table_address`, the table that the ledger
    /// created for `params.slot` under the registry's authority; otherwise records nothing.
    pub fn execute(&mut self, params: ModifyAddressLookupTableParams, table_address: Address) -> (r:
        Result<(), SwapError>)
        ensures
            r is Ok,
            final(self).signer == old(self).signer,
            final(self).lookup_table_account == old(self).lookup_table_account,
            final(self).swap_registry.owner == old(self).swap_registry.owner,
            final(self).swap_registry.was_initialized == old(self).swap_registry.was_initialized,
            final(self).swap_registry.bump == old(self).swap_registry.bump,
            final(self).swap_registry.max_allowed_items == old(self).swap_registry.max_allowed_items,
            final(self).swap_registry.max_allowed_options == old(
                self,
            ).swap_registry.max_allowed_options,
            final(self).swap_registry.allowed_mint_accounts == old(
                self,
            ).swap_registry.allowed_mint_accounts,
            final(self).swap_registry.address_lookup_table@ == if params.action_type
                == ModifyAddressLookupTableActionType::CreateLookupTable {
                old(self).swap_registry.address_lookup_table@.push(table_address)
            } else {
                old(self).swap_registry.address_lookup_table@
            },
    {
        if params.action_type == ModifyAddressLookupTableActionType::CreateLookupTable {
            return self.create_lookup_table(params.slot, table_address);
        }
        Ok(())
    }

    fn create_lookup_table(&mut self, slot: u64, table_address: Address) -> (r: Result<
        (),
        SwapError,
    >)
        ensures
            r is Ok,
            final(self).signer == old(self).signer,
            final(self).lookup_table_account == old(self).lookup_table_account,
            final(self).swap_registry.owner == old(self).swap_registry.owner,
            final(self).swap_registry.was_initialized == old(self).swap_registry.was_initialized,
            final(self).swap_registry.bump == old(self).swap_registry.bump,
            final(self).swap_registry.max_allowed_items == old(self).swap_registry.max_allowed_items,
            final(self).swap_registry.max_allowed_options == old(
                self,
            ).swap_registry.max_allowed_options,
            final(self).swap_registry.allowed_mint_accounts == old(
                self,
            ).swap_registry.allowed_mint_accounts,
            final(self).swap_registry.address_lookup_table@ == old(
                self,
            ).swap_registry.address_lookup_table@.push(table_address),
    {
        self.swap_registry.address_lookup_table.push(table_address);
        Ok(())
    }
}

} // verus!
