use swap::{
    random_number, Address, CreateAddressLookupTableContext, CreateAddressLookupTableParams,
    CreateTokenVaultContext, InitializeAddressLookupTableContext, InitializeSwapPlatformContext,
    InitializeSwapPlatformParams, LookupTableRegistry, MintInfo, ModifyAddressLookupTableActionType,
    ModifyAddressLookupTableContext, ModifyAddressLookupTableParams, SwapError, SwapItem,
    SwapItemStatus, SwapPlatformRegistry, SwapProposal, SwapProposalStatus, UpdateSwapPlatformContext,
    UpdateSwapPlatformParams,
};

fn addr(n: u64) -> Address {
    Address::from_u64(n)
}

fn initialized(owner: Address) -> SwapPlatformRegistry {
    let mut ctx = InitializeSwapPlatformContext {
        owner,
        swap_registry: SwapPlatformRegistry::new(),
    };
    ctx.execute(
        InitializeSwapPlatformParams {
            max_allowed_items: 4,
            max_allowed_options: 2,
        },
        9,
    )
    .unwrap();
    ctx.swap_registry
}

#[test]
fn initialize_sets_up_once() {
    let mut ctx = InitializeSwapPlatformContext {
        owner: addr(1),
        swap_registry: SwapPlatformRegistry::new(),
    };
    let params = InitializeSwapPlatformParams {
        max_allowed_items: 4,
        max_allowed_options: 2,
    };
    ctx.execute(params, 9).unwrap();
    assert!(ctx.swap_registry.was_initialized);
    assert_eq!(ctx.swap_registry.owner, addr(1));
    assert_eq!(ctx.swap_registry.bump, 9);
    assert_eq!(ctx.swap_registry.max_allowed_items, 4);
    assert_eq!(ctx.swap_registry.max_allowed_options, 2);
    ctx.owner = addr(2);
    assert_eq!(ctx.execute(params, 7).unwrap_err(), SwapError::AlreadyInitialized);
    assert_eq!(ctx.swap_registry.owner, addr(1));
    assert_eq!(ctx.swap_registry.bump, 9);
}

#[test]
fn registry_handle_post_initialized_only_once() {
    let mut registry = SwapPlatformRegistry::new();
    assert!(registry.handle_post_initialized().is_ok());
    assert_eq!(registry.handle_post_initialized().unwrap_err(), SwapError::AlreadyInitialized);
}

#[test]
fn update_limits_only_by_administrator() {
    let mut ctx = UpdateSwapPlatformContext {
        owner: addr(5),
        swap_registry: initialized(addr(1)),
    };
    let params = UpdateSwapPlatformParams {
        max_allowed_items: 6,
        max_allowed_options: 3,
    };
    assert_eq!(ctx.execute(params).unwrap_err(), SwapError::OnlyAdministrator);
    ctx.owner = addr(1);
    let event = ctx.execute(params).unwrap();
    assert_eq!(event.actor, addr(1));
    assert_eq!(event.max_allowed_items, 6);
    assert_eq!(event.max_allowed_options, 3);
    assert_eq!(ctx.swap_registry.max_allowed_items, 6);
    assert_eq!(ctx.swap_registry.max_allowed_options, 3);
}

#[test]
fn update_limits_rejects_zero() {
    let mut ctx = UpdateSwapPlatformContext {
        owner: addr(1),
        swap_registry: initialized(addr(1)),
    };
    let r = ctx.execute(UpdateSwapPlatformParams {
        max_allowed_items: 6,
        max_allowed_options: 0,
    });
    assert_eq!(r.unwrap_err(), SwapError::InvalidValue);
    let r = ctx.execute(UpdateSwapPlatformParams {
        max_allowed_items: 0,
        max_allowed_options: 1,
    });
    assert_eq!(r.unwrap_err(), SwapError::InvalidValue);
    assert_eq!(ctx.swap_registry.max_allowed_items, 4);
    assert_eq!(ctx.swap_registry.max_allowed_options, 2);
}

#[test]
fn vault_registration_is_unique_per_token_type() {
    let mut ctx = CreateTokenVaultContext {
        signer: addr(1),
        swap_registry: initialized(addr(1)),
        swap_registry_key: addr(2),
        mint_account: addr(100),
        swap_token_vault: addr(101),
    };
    let event = ctx.execute(17).unwrap();
    assert_eq!(event.actor, addr(1));
    assert_eq!(event.authority, addr(2));
    assert_eq!(event.mint_account, addr(100));
    assert_eq!(event.associated_account, addr(101));
    assert_eq!(
        ctx.swap_registry.allowed_mint_accounts,
        vec![MintInfo {
            is_enabled: true,
            mint_account: addr(100),
            token_account: addr(101),
            bump: 17,
        }]
    );
    ctx.swap_token_vault = addr(102);
    assert_eq!(ctx.execute(18).unwrap_err(), SwapError::MintAccountExisted);
    assert_eq!(ctx.swap_registry.allowed_mint_accounts.len(), 1);
}

#[test]
fn registry_lookups() {
    let mut registry = initialized(addr(1));
    registry.allowed_mint_accounts.push(MintInfo {
        is_enabled: false,
        mint_account: addr(100),
        token_account: addr(101),
        bump: 1,
    });
    registry.allowed_mint_accounts.push(MintInfo {
        is_enabled: true,
        mint_account: addr(200),
        token_account: addr(201),
        bump: 2,
    });
    assert!(registry.is_mint_account_existed(addr(100)));
    assert!(!registry.is_mint_account_existed(addr(300)));
    assert!(!registry.is_mint_account_enabled(addr(100)));
    assert!(registry.is_mint_account_enabled(addr(200)));
    assert!(registry.is_vault_accepted(addr(200), addr(201)));
    assert!(!registry.is_vault_accepted(addr(200), addr(101)));
    assert!(!registry.is_vault_accepted(addr(100), addr(101)));
    assert_eq!(registry.get_mint_info(addr(200)).unwrap().bump, 2);
    assert_eq!(registry.get_mint_info(addr(100)).unwrap().token_account, addr(101));
    assert!(registry.get_mint_info(addr(300)).is_none());
}

#[test]
fn item_status_handlers() {
    let mut item = SwapItem::default();
    assert_eq!(item.status, SwapItemStatus::Created);
    assert_eq!(item.amount, 0);
    item.handle_post_deposited();
    assert_eq!(item.status, SwapItemStatus::Deposited);
    item.handle_post_redeemed();
    assert_eq!(item.status, SwapItemStatus::Redeemed);
    let mut other = SwapItem::default();
    other.handle_post_deposited();
    other.handle_post_withdrawn();
    assert_eq!(other.status, SwapItemStatus::Withdrawn);
}

#[test]
fn proposal_predicates() {
    let mut p = SwapProposal::default();
    p.owner = addr(10);
    p.expired_at = 1000;
    assert_eq!(p.status, SwapProposalStatus::Created);
    assert!(p.is_proposal_still_in_time_window(999));
    assert!(!p.is_proposal_still_in_time_window(1000));
    assert!(p.is_proposal_owner(addr(10)));
    assert!(!p.is_fulfilled_participant(addr(0)));
    assert!(p.is_proposal_open_for_depositing(10));
    assert!(!p.is_proposal_open_for_participants(10));
    assert!(p.is_proposal_cancelable_for(addr(10), 10));
    assert!(!p.is_proposal_cancelable_for(addr(20), 10));

    p.status = SwapProposalStatus::Deposited;
    assert!(p.is_proposal_open_for_participants(10));
    assert!(p.is_proposal_open_for_fulfilling(&"opt".to_string(), addr(20), 10));
    assert!(!p.is_proposal_open_for_fulfilling(&"opt".to_string(), addr(20), 1000));
    assert!(!p.is_proposal_open_for_fulfilling(&"opt".to_string(), addr(10), 10));
    assert!(!p.is_proposal_open_for_fulfilling(&String::new(), addr(20), 10));
    p.fulfilled_by = addr(20);
    p.fulfilled_with_option_id = "opt".to_string();
    assert!(!p.is_proposal_open_for_participants(10));
    assert!(p.is_fulfilled_participant(addr(20)));
    assert!(p.is_proposal_open_for_fulfilling(&"opt".to_string(), addr(20), 10));
    assert!(!p.is_proposal_open_for_fulfilling(&"other".to_string(), addr(20), 10));
    assert!(!p.is_proposal_open_for_fulfilling(&"opt".to_string(), addr(21), 10));
    assert!(p.is_proposal_cancelable_for(addr(20), 10));

    p.status = SwapProposalStatus::Fulfilled;
    assert!(p.is_proposal_redeemable(10));
    assert!(!p.is_proposal_withdrawable(10));
    assert!(!p.is_proposal_cancelable_for(addr(10), 10));
    p.status = SwapProposalStatus::Canceled;
    assert!(p.is_proposal_withdrawable(10));
    assert!(!p.is_proposal_cancelable_for(addr(10), 10));
    p.status = SwapProposalStatus::Redeemed;
    assert!(!p.is_proposal_cancelable_for(addr(10), 10));
}

#[test]
fn update_status_needs_the_fulfilled_option() {
    let mut p = SwapProposal::default();
    p.status = SwapProposalStatus::Fulfilled;
    p.fulfilled_with_option_id = "missing".to_string();
    assert_eq!(p.update_redeemed_status().unwrap_err(), SwapError::RedeemIsNotAvailable);
    p.status = SwapProposalStatus::Canceled;
    assert_eq!(p.update_withdrawn_status().unwrap_err(), SwapError::WithdrawalIsNotAvailable);
    p.fulfilled_with_option_id = String::new();
    p.update_withdrawn_status().unwrap();
    assert_eq!(p.status, SwapProposalStatus::Withdrawn);
}

#[test]
fn lookup_tables_are_recorded() {
    let mut init = InitializeAddressLookupTableContext {
        signer: addr(3),
        lookup_table_registry: LookupTableRegistry {
            owner: Address::zero(),
            bump: 0,
            lookup_table_addresses: vec![],
        },
    };
    init.execute(12).unwrap();
    assert_eq!(init.lookup_table_registry.owner, addr(3));
    assert_eq!(init.lookup_table_registry.bump, 12);

    let mut create = CreateAddressLookupTableContext {
        signer: addr(3),
        lookup_table_registry: init.lookup_table_registry,
        lookup_table_account: addr(40),
    };
    create.execute(CreateAddressLookupTableParams { slot: 77 }, addr(40)).unwrap();
    assert_eq!(create.lookup_table_registry.lookup_table_addresses, vec![addr(40)]);

    let mut modify = ModifyAddressLookupTableContext {
        signer: addr(1),
        swap_registry: initialized(addr(1)),
        lookup_table_account: addr(41),
    };
    let params = |action_type| ModifyAddressLookupTableParams {
        whitelisted_addresses: vec![addr(7)],
        action_type,
        slot: 78,
    };
    modify
        .execute(params(ModifyAddressLookupTableActionType::ExtendLookupTable), addr(41))
        .unwrap();
    assert!(modify.swap_registry.address_lookup_table.is_empty());
    modify
        .execute(params(ModifyAddressLookupTableActionType::CreateLookupTable), addr(41))
        .unwrap();
    assert_eq!(modify.swap_registry.address_lookup_table, vec![addr(41)]);
}

fn seed_with_word(word: &[u8; 8]) -> String {
    let mut seed = "s".repeat(96);
    seed.push_str(std::str::from_utf8(word).unwrap());
    seed
}

#[test]
fn random_number_mixes_slot_hash_seed_and_time() {
    let mut slothashes = vec![0u8; 20];
    slothashes[12..20].copy_from_slice(&1000u64.to_le_bytes());
    let seed = seed_with_word(b"AAAAAAAA");
    assert_eq!(random_number(&slothashes, &seed, 400), Some(0x4141_4141_4141_4141 - 600));
    assert_eq!(random_number(&slothashes, &seed, 5000), Some(0x4141_4141_4141_4141));
    let small_seed = seed_with_word(b"\x01\0\0\0\0\0\0\0");
    assert_eq!(random_number(&slothashes, &small_seed, 0), Some(0));
}

#[test]
fn random_number_needs_long_enough_inputs() {
    let slothashes = vec![0u8; 19];
    let seed = seed_with_word(b"AAAAAAAA");
    assert_eq!(random_number(&slothashes, &seed, 0), None);
    let slothashes = vec![0u8; 20];
    assert_eq!(random_number(&slothashes, "short", 0), None);
}

#[test]
fn error_messages() {
    assert_eq!(SwapError::AlreadyInitialized.message(), "The program was already initialized");
    assert_eq!(SwapError::ProposalCannotBeCanceled.message(), "Proposal cannot be canceled");
}
