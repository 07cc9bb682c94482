use swap::{
    Address, CancelProposalParams, CreateProposalParams, CreateTokenVaultContext,
    DepositActionType, DepositAssetsToVaultParams, InitializeSwapPlatformContext,
    InitializeSwapPlatformParams, SwapError, SwapEvent, SwapItemInfo, SwapItemOptionInfo,
    SwapItemStatus, SwapLedger, SwapPlatformRegistry, SwapProposal, SwapProposalStatus,
    TransferActionType, TransferAssetsFromVaultParams,
};

const NOW: u64 = 1_700_000_000;
const HOUR: u64 = 3600;

fn addr(n: u64) -> Address {
    Address::from_u64(n)
}

fn admin() -> Address {
    addr(1)
}
fn registry_key() -> Address {
    addr(2)
}
fn owner() -> Address {
    addr(10)
}
fn owner_account_a() -> Address {
    addr(11)
}
fn owner_account_b() -> Address {
    addr(12)
}
fn participant() -> Address {
    addr(20)
}
fn participant_account_a() -> Address {
    addr(21)
}
fn participant_account_b() -> Address {
    addr(22)
}
fn stranger() -> Address {
    addr(30)
}
fn mint_a() -> Address {
    addr(100)
}
fn vault_a() -> Address {
    addr(101)
}
fn mint_b() -> Address {
    addr(200)
}
fn vault_b() -> Address {
    addr(201)
}
fn mint_c() -> Address {
    addr(300)
}

fn registry() -> SwapPlatformRegistry {
    let mut init = InitializeSwapPlatformContext {
        owner: admin(),
        swap_registry: SwapPlatformRegistry::new(),
    };
    init.execute(
        InitializeSwapPlatformParams {
            max_allowed_items: 3,
            max_allowed_options: 2,
        },
        254,
    )
    .unwrap();
    let mut vault = CreateTokenVaultContext {
        signer: admin(),
        swap_registry: init.swap_registry,
        swap_registry_key: registry_key(),
        mint_account: mint_a(),
        swap_token_vault: vault_a(),
    };
    vault.execute(250).unwrap();
    vault.mint_account = mint_b();
    vault.swap_token_vault = vault_b();
    vault.execute(251).unwrap();
    vault.swap_registry
}

fn ledger() -> SwapLedger {
    SwapLedger::new(registry(), registry_key())
}

fn item(id: &str, mint: Address, amount: u64) -> SwapItemInfo {
    SwapItemInfo {
        id: id.to_string(),
        mint_account: mint,
        amount,
    }
}

fn option(id: &str, items: Vec<SwapItemInfo>) -> SwapItemOptionInfo {
    SwapItemOptionInfo {
        id: id.to_string(),
        asking_items: items,
    }
}

fn simple_params(id: &str) -> CreateProposalParams {
    CreateProposalParams {
        id: id.to_string(),
        offered_items: vec![item("o1", mint_a(), 100)],
        swap_options: vec![option("opt1", vec![item("a1", mint_b(), 50)])],
        expired_at: NOW + HOUR,
    }
}

fn create(ledger: &mut SwapLedger, params: CreateProposalParams) -> Result<(), SwapError> {
    ledger
        .create_proposal(owner(), addr(500), params, 255, NOW)
        .map(|_| ())
}

fn deposit(ledger: &mut SwapLedger, proposal: &str, item_id: &str) -> Result<swap::TransferOutcome, SwapError> {
    ledger.transfer_assets_to_vault(
        owner(),
        mint_a(),
        owner_account_a(),
        vault_a(),
        DepositAssetsToVaultParams {
            swap_token_vault_bump: 250,
            proposal_id: proposal.to_string(),
            swap_item_id: item_id.to_string(),
            option_id: String::new(),
            action_type: DepositActionType::Depositing,
        },
        NOW,
    )
}

fn fulfil(
    ledger: &mut SwapLedger,
    who: Address,
    proposal: &str,
    option_id: &str,
    item_id: &str,
) -> Result<swap::TransferOutcome, SwapError> {
    ledger.transfer_assets_to_vault(
        who,
        mint_b(),
        participant_account_b(),
        vault_b(),
        DepositAssetsToVaultParams {
            swap_token_vault_bump: 251,
            proposal_id: proposal.to_string(),
            swap_item_id: item_id.to_string(),
            option_id: option_id.to_string(),
            action_type: DepositActionType::Fulfilling,
        },
        NOW,
    )
}

fn take_out(
    ledger: &mut SwapLedger,
    who: Address,
    mint: Address,
    account: Address,
    vault: Address,
    proposal: &str,
    item_id: &str,
    action_type: TransferActionType,
) -> Result<swap::TransferOutcome, SwapError> {
    ledger.transfer_assets_from_vault(
        who,
        mint,
        account,
        vault,
        TransferAssetsFromVaultParams {
            swap_registry_bump: 254,
            swap_token_vault_bump: 0,
            proposal_id: proposal.to_string(),
            action_type,
            swap_item_id: item_id.to_string(),
        },
        NOW,
    )
}

fn proposal(ledger: &SwapLedger, index: usize) -> &SwapProposal {
    &ledger.records[index].proposal
}

#[test]
fn full_swap_reaches_redeemed() {
    let mut l = ledger();
    create(&mut l, simple_params("p1")).unwrap();
    assert_eq!(proposal(&l, 0).status, SwapProposalStatus::Created);
    assert_eq!(proposal(&l, 0).offered_items[0].status, SwapItemStatus::Created);

    let out = deposit(&mut l, "p1", "o1").unwrap();
    assert_eq!(out.transfer.amount, 100);
    assert_eq!(out.transfer.from, owner_account_a());
    assert_eq!(out.transfer.to, vault_a());
    assert_eq!(out.transfer.authority, owner());
    assert_eq!(out.events.len(), 2);
    assert!(matches!(out.events[1], SwapEvent::ProposalDeposited(_)));
    assert_eq!(proposal(&l, 0).offered_items[0].status, SwapItemStatus::Deposited);
    assert_eq!(proposal(&l, 0).status, SwapProposalStatus::Deposited);

    let out = fulfil(&mut l, participant(), "p1", "opt1", "a1").unwrap();
    assert_eq!(out.transfer.amount, 50);
    assert_eq!(out.transfer.from, participant_account_b());
    assert_eq!(out.transfer.to, vault_b());
    assert!(matches!(out.events[1], SwapEvent::ProposalFulfilled(_)));
    assert_eq!(proposal(&l, 0).status, SwapProposalStatus::Fulfilled);
    assert_eq!(proposal(&l, 0).fulfilled_by, participant());
    assert_eq!(proposal(&l, 0).fulfilled_with_option_id, "opt1");
    assert_eq!(proposal(&l, 0).swap_options[0].asking_items[0].owner, participant());

    let out = take_out(&mut l, owner(), mint_b(), owner_account_b(), vault_b(), "p1", "a1", TransferActionType::Redeeming).unwrap();
    assert_eq!(out.transfer.amount, 50);
    assert_eq!(out.transfer.from, vault_b());
    assert_eq!(out.transfer.to, owner_account_b());
    assert_eq!(out.transfer.authority, registry_key());
    assert!(matches!(out.events[0], SwapEvent::ItemRedeemed(_)));
    assert_eq!(proposal(&l, 0).swap_options[0].asking_items[0].status, SwapItemStatus::Redeemed);
    assert_eq!(proposal(&l, 0).status, SwapProposalStatus::Fulfilled);

    let out = take_out(&mut l, participant(), mint_a(), participant_account_a(), vault_a(), "p1", "o1", TransferActionType::Redeeming).unwrap();
    assert_eq!(out.transfer.amount, 100);
    assert_eq!(out.transfer.to, participant_account_a());
    assert_eq!(proposal(&l, 0).offered_items[0].status, SwapItemStatus::Redeemed);
    assert_eq!(proposal(&l, 0).status, SwapProposalStatus::Redeemed);
}

#[test]
fn cancel_after_deposit_then_withdraw() {
    let mut l = ledger();
    create(&mut l, simple_params("p1")).unwrap();
    deposit(&mut l, "p1", "o1").unwrap();
    let event = l.cancel_proposal(owner(), CancelProposalParams { id: "p1".to_string() }, NOW).unwrap();
    assert_eq!(event.status, SwapProposalStatus::Canceled);
    assert_eq!(event.actor, owner());
    assert_eq!(proposal(&l, 0).status, SwapProposalStatus::Canceled);

    let out = take_out(&mut l, owner(), mint_a(), owner_account_a(), vault_a(), "p1", "o1", TransferActionType::Withdrawing).unwrap();
    assert_eq!(out.transfer.amount, 100);
    assert_eq!(out.transfer.to, owner_account_a());
    assert!(matches!(out.events[0], SwapEvent::ItemWithdrawn(_)));
    assert_eq!(proposal(&l, 0).offered_items[0].status, SwapItemStatus::Withdrawn);
    assert_eq!(proposal(&l, 0).status, SwapProposalStatus::Withdrawn);
}

#[test]
fn cancel_before_deposit_leaves_nothing_to_withdraw() {
    let mut l = ledger();
    create(&mut l, simple_params("p1")).unwrap();
    l.cancel_proposal(owner(), CancelProposalParams { id: "p1".to_string() }, NOW).unwrap();
    assert_eq!(proposal(&l, 0).status, SwapProposalStatus::Canceled);
    let r = take_out(&mut l, owner(), mint_a(), owner_account_a(), vault_a(), "p1", "o1", TransferActionType::Withdrawing);
    assert_eq!(r.unwrap_err(), SwapError::TransferTokenFromVaultIsNotAvailable);
    assert_eq!(proposal(&l, 0).status, SwapProposalStatus::Canceled);
}

#[test]
fn fulfilling_a_fulfilled_proposal_with_another_option_fails() {
    let mut l = ledger();
    let mut params = simple_params("p1");
    params.swap_options.push(option("opt2", vec![item("b1", mint_b(), 70)]));
    create(&mut l, params).unwrap();
    deposit(&mut l, "p1", "o1").unwrap();
    fulfil(&mut l, participant(), "p1", "opt1", "a1").unwrap();
    let r = fulfil(&mut l, participant(), "p1", "opt2", "b1");
    assert_eq!(r.unwrap_err(), SwapError::FulfillingIsNotAvailable);
    let p = proposal(&l, 0);
    assert_eq!(p.status, SwapProposalStatus::Fulfilled);
    assert_eq!(p.fulfilled_with_option_id, "opt1");
    assert_eq!(p.swap_options[1].asking_items[0].status, SwapItemStatus::Created);
}

#[test]
fn claim_is_exclusive_while_fulfilment_is_in_flight() {
    let mut l = ledger();
    let params = CreateProposalParams {
        id: "p1".to_string(),
        offered_items: vec![item("o1", mint_a(), 100)],
        swap_options: vec![
            option("opt1", vec![item("a1", mint_b(), 50), item("a2", mint_b(), 5)]),
            option("opt2", vec![item("b1", mint_b(), 70)]),
        ],
        expired_at: NOW + HOUR,
    };
    create(&mut l, params).unwrap();
    deposit(&mut l, "p1", "o1").unwrap();
    let out = fulfil(&mut l, participant(), "p1", "opt1", "a1").unwrap();
    assert_eq!(out.events.len(), 1);
    assert_eq!(proposal(&l, 0).status, SwapProposalStatus::Deposited);
    assert_eq!(proposal(&l, 0).fulfilled_by, participant());

    assert_eq!(fulfil(&mut l, stranger(), "p1", "opt1", "a2").unwrap_err(), SwapError::FulfillingIsNotAvailable);
    assert_eq!(fulfil(&mut l, participant(), "p1", "opt2", "b1").unwrap_err(), SwapError::FulfillingIsNotAvailable);
    assert_eq!(proposal(&l, 0).fulfilled_by, participant());
    assert_eq!(proposal(&l, 0).fulfilled_with_option_id, "opt1");

    fulfil(&mut l, participant(), "p1", "opt1", "a2").unwrap();
    assert_eq!(proposal(&l, 0).status, SwapProposalStatus::Fulfilled);
}

#[test]
fn owner_cannot_fulfil_own_proposal() {
    let mut l = ledger();
    create(&mut l, simple_params("p1")).unwrap();
    deposit(&mut l, "p1", "o1").unwrap();
    assert_eq!(fulfil(&mut l, owner(), "p1", "opt1", "a1").unwrap_err(), SwapError::FulfillingIsNotAvailable);
    assert_eq!(fulfil(&mut l, participant(), "p1", "nope", "a1").unwrap_err(), SwapError::FulfillingIsNotAvailable);
    assert_eq!(fulfil(&mut l, participant(), "p1", "opt1", "zz").unwrap_err(), SwapError::FulfillingIsNotAvailable);
}

#[test]
fn second_creation_with_same_id_fails() {
    let mut l = ledger();
    create(&mut l, simple_params("p1")).unwrap();
    deposit(&mut l, "p1", "o1").unwrap();
    let mut again = simple_params("p1");
    again.expired_at = NOW + 2 * HOUR;
    assert_eq!(create(&mut l, again).unwrap_err(), SwapError::AlreadyInitialized);
    assert_eq!(l.records.len(), 1);
    assert_eq!(proposal(&l, 0).status, SwapProposalStatus::Deposited);
    assert_eq!(proposal(&l, 0).expired_at, NOW + HOUR);
    create(&mut l, simple_params("p2")).unwrap();
    assert_eq!(l.records.len(), 2);
}

#[test]
fn creation_rejects_disabled_token_types() {
    let mut l = ledger();
    let mut params = simple_params("p1");
    params.offered_items[0].mint_account = mint_c();
    assert_eq!(create(&mut l, params).unwrap_err(), SwapError::UnAllowedMintToken);
    let mut params = simple_params("p1");
    params.swap_options[0].asking_items.push(item("a2", mint_c(), 1));
    assert_eq!(create(&mut l, params).unwrap_err(), SwapError::UnAllowedMintToken);
    l.registry.allowed_mint_accounts[1].is_enabled = false;
    assert_eq!(create(&mut l, simple_params("p1")).unwrap_err(), SwapError::UnAllowedMintToken);
    assert_eq!(l.records.len(), 0);
}

#[test]
fn creation_rejects_counts_over_limits() {
    let mut l = ledger();
    let mut params = simple_params("p1");
    for k in 0..3 {
        params.offered_items.push(item(&format!("x{}", k), mint_a(), 1));
    }
    assert_eq!(create(&mut l, params).unwrap_err(), SwapError::InvalidValue);
    let mut params = simple_params("p1");
    params.swap_options.push(option("opt2", vec![item("b1", mint_b(), 1)]));
    params.swap_options.push(option("opt3", vec![item("c1", mint_b(), 1)]));
    assert_eq!(create(&mut l, params).unwrap_err(), SwapError::InvalidValue);
    let mut params = simple_params("p1");
    params.swap_options[0].asking_items = vec![
        item("a1", mint_b(), 1),
        item("a2", mint_b(), 1),
        item("a3", mint_b(), 1),
        item("a4", mint_b(), 1),
    ];
    assert_eq!(create(&mut l, params).unwrap_err(), SwapError::InvalidValue);
    let mut params = simple_params("p1");
    params.swap_options[0].asking_items.clear();
    assert_eq!(create(&mut l, params).unwrap_err(), SwapError::InvalidValue);
    let mut params = simple_params("p1");
    params.offered_items.clear();
    assert_eq!(create(&mut l, params).unwrap_err(), SwapError::InvalidValue);
    let mut params = simple_params("p1");
    params.swap_options.clear();
    assert_eq!(create(&mut l, params).unwrap_err(), SwapError::InvalidValue);
    assert_eq!(l.records.len(), 0);
}

#[test]
fn creation_limits_are_inclusive() {
    let mut l = ledger();
    let params = CreateProposalParams {
        id: "p1".to_string(),
        offered_items: vec![item("o1", mint_a(), 1), item("o2", mint_a(), 2), item("o3", mint_b(), 3)],
        swap_options: vec![
            option("opt1", vec![item("a1", mint_b(), 1), item("a2", mint_b(), 1), item("a3", mint_a(), 1)]),
            option("opt2", vec![item("b1", mint_b(), 1)]),
        ],
        expired_at: NOW + 1,
    };
    create(&mut l, params).unwrap();
    assert_eq!(proposal(&l, 0).offered_items.len(), 3);
    assert_eq!(proposal(&l, 0).swap_options.len(), 2);
}

#[test]
fn creation_rejects_malformed_input() {
    let mut l = ledger();
    assert_eq!(create(&mut l, simple_params("")).unwrap_err(), SwapError::InvalidValue);
    let mut params = simple_params("p1");
    params.expired_at = NOW;
    assert_eq!(create(&mut l, params).unwrap_err(), SwapError::InvalidValue);
    let mut params = simple_params("p1");
    params.offered_items[0].amount = 0;
    assert_eq!(create(&mut l, params).unwrap_err(), SwapError::InvalidValue);
    let r = l.create_proposal(owner(), addr(500), simple_params("p1"), 0, NOW);
    assert_eq!(r.unwrap_err(), SwapError::InvalidValue);
    let r = l.create_proposal(Address::zero(), addr(500), simple_params("p1"), 255, NOW);
    assert_eq!(r.unwrap_err(), SwapError::InvalidValue);
}

#[test]
fn expired_check_comes_after_token_check() {
    let mut l = ledger();
    let mut params = simple_params("p1");
    params.expired_at = NOW - 1;
    params.offered_items[0].mint_account = mint_c();
    assert_eq!(create(&mut l, params).unwrap_err(), SwapError::UnAllowedMintToken);
}

#[test]
fn created_proposal_records_the_declaration() {
    let mut l = ledger();
    let event = l.create_proposal(owner(), addr(500), simple_params("p1"), 255, NOW).unwrap();
    assert_eq!(event.id, "p1");
    assert_eq!(event.actor, owner());
    assert_eq!(event.proposal_key, addr(500));
    assert_eq!(event.expired_at, NOW + HOUR);
    let p = proposal(&l, 0);
    assert_eq!(p.id, "p1");
    assert_eq!(p.owner, owner());
    assert!(p.fulfilled_by.is_zero());
    assert_eq!(p.fulfilled_with_option_id, "");
    assert_eq!(p.offered_items[0].id, "o1");
    assert_eq!(p.offered_items[0].amount, 100);
    assert_eq!(p.offered_items[0].owner, owner());
    assert_eq!(p.swap_options[0].id, "opt1");
    assert_eq!(p.swap_options[0].asking_items[0].id, "a1");
    assert_eq!(p.swap_options[0].asking_items[0].amount, 50);
    assert_eq!(l.records[0].key, addr(500));
}

#[test]
fn redeem_requires_fulfilled_status() {
    let mut l = ledger();
    create(&mut l, simple_params("p1")).unwrap();
    deposit(&mut l, "p1", "o1").unwrap();
    let r = take_out(&mut l, owner(), mint_a(), owner_account_a(), vault_a(), "p1", "o1", TransferActionType::Redeeming);
    assert_eq!(r.unwrap_err(), SwapError::RedeemIsNotAvailable);
    let r = take_out(&mut l, owner(), mint_a(), owner_account_a(), vault_a(), "p1", "o1", TransferActionType::Withdrawing);
    assert_eq!(r.unwrap_err(), SwapError::WithdrawalIsNotAvailable);
    assert_eq!(proposal(&l, 0).offered_items[0].status, SwapItemStatus::Deposited);
}

#[test]
fn withdraw_requires_canceled_status() {
    let mut l = ledger();
    create(&mut l, simple_params("p1")).unwrap();
    deposit(&mut l, "p1", "o1").unwrap();
    fulfil(&mut l, participant(), "p1", "opt1", "a1").unwrap();
    let r = take_out(&mut l, participant(), mint_b(), participant_account_b(), vault_b(), "p1", "a1", TransferActionType::Withdrawing);
    assert_eq!(r.unwrap_err(), SwapError::WithdrawalIsNotAvailable);
}

#[test]
fn cancel_is_refused_once_redeemable_or_by_strangers() {
    let mut l = ledger();
    create(&mut l, simple_params("p1")).unwrap();
    let r = l.cancel_proposal(stranger(), CancelProposalParams { id: "p1".to_string() }, NOW);
    assert_eq!(r.unwrap_err(), SwapError::ProposalCannotBeCanceled);
    deposit(&mut l, "p1", "o1").unwrap();
    fulfil(&mut l, participant(), "p1", "opt1", "a1").unwrap();
    let r = l.cancel_proposal(owner(), CancelProposalParams { id: "p1".to_string() }, NOW);
    assert_eq!(r.unwrap_err(), SwapError::ProposalCannotBeCanceled);
    let r = l.cancel_proposal(participant(), CancelProposalParams { id: "p1".to_string() }, NOW);
    assert_eq!(r.unwrap_err(), SwapError::ProposalCannotBeCanceled);
    assert_eq!(proposal(&l, 0).status, SwapProposalStatus::Fulfilled);
    let r = l.cancel_proposal(owner(), CancelProposalParams { id: "nope".to_string() }, NOW);
    assert_eq!(r.unwrap_err(), SwapError::InvalidValue);
}

#[test]
fn claimed_participant_may_cancel_and_both_withdraw() {
    let mut l = ledger();
    let params = CreateProposalParams {
        id: "p1".to_string(),
        offered_items: vec![item("o1", mint_a(), 100)],
        swap_options: vec![option("opt1", vec![item("a1", mint_b(), 50), item("a2", mint_b(), 5)])],
        expired_at: NOW + HOUR,
    };
    create(&mut l, params).unwrap();
    deposit(&mut l, "p1", "o1").unwrap();
    fulfil(&mut l, participant(), "p1", "opt1", "a1").unwrap();
    l.cancel_proposal(participant(), CancelProposalParams { id: "p1".to_string() }, NOW).unwrap();
    assert_eq!(proposal(&l, 0).status, SwapProposalStatus::Canceled);
    // a second cancel is refused: the proposal is withdrawable now
    let r = l.cancel_proposal(owner(), CancelProposalParams { id: "p1".to_string() }, NOW);
    assert_eq!(r.unwrap_err(), SwapError::ProposalCannotBeCanceled);

    let out = take_out(&mut l, participant(), mint_b(), participant_account_b(), vault_b(), "p1", "a1", TransferActionType::Withdrawing).unwrap();
    assert_eq!(out.transfer.amount, 50);
    assert_eq!(proposal(&l, 0).status, SwapProposalStatus::Canceled);
    let r = take_out(&mut l, participant(), mint_b(), participant_account_b(), vault_b(), "p1", "a2", TransferActionType::Withdrawing);
    assert_eq!(r.unwrap_err(), SwapError::TransferTokenFromVaultIsNotAvailable);
    take_out(&mut l, owner(), mint_a(), owner_account_a(), vault_a(), "p1", "o1", TransferActionType::Withdrawing).unwrap();
    assert_eq!(proposal(&l, 0).swap_options[0].asking_items[1].status, SwapItemStatus::Created);
    assert_eq!(proposal(&l, 0).status, SwapProposalStatus::Withdrawn);
}

#[test]
fn statuses_never_move_backwards() {
    let mut l = ledger();
    create(&mut l, simple_params("p1")).unwrap();
    deposit(&mut l, "p1", "o1").unwrap();
    assert_eq!(deposit(&mut l, "p1", "o1").unwrap_err(), SwapError::DepositIsNotAvailable);
    fulfil(&mut l, participant(), "p1", "opt1", "a1").unwrap();
    take_out(&mut l, owner(), mint_b(), owner_account_b(), vault_b(), "p1", "a1", TransferActionType::Redeeming).unwrap();
    let r = take_out(&mut l, owner(), mint_b(), owner_account_b(), vault_b(), "p1", "a1", TransferActionType::Redeeming);
    assert_eq!(r.unwrap_err(), SwapError::TransferTokenFromVaultIsNotAvailable);
    assert_eq!(proposal(&l, 0).swap_options[0].asking_items[0].status, SwapItemStatus::Redeemed);
}

#[test]
fn redeemed_only_after_every_item_is_redeemed() {
    let mut l = ledger();
    let params = CreateProposalParams {
        id: "p1".to_string(),
        offered_items: vec![item("o1", mint_a(), 100), item("o2", mint_a(), 7)],
        swap_options: vec![option("opt1", vec![item("a1", mint_b(), 50)])],
        expired_at: NOW + HOUR,
    };
    create(&mut l, params).unwrap();
    let out = deposit(&mut l, "p1", "o1").unwrap();
    assert_eq!(out.events.len(), 1);
    assert_eq!(proposal(&l, 0).status, SwapProposalStatus::Created);
    deposit(&mut l, "p1", "o2").unwrap();
    assert_eq!(proposal(&l, 0).status, SwapProposalStatus::Deposited);
    fulfil(&mut l, participant(), "p1", "opt1", "a1").unwrap();
    take_out(&mut l, participant(), mint_a(), participant_account_a(), vault_a(), "p1", "o2", TransferActionType::Redeeming).unwrap();
    assert_eq!(proposal(&l, 0).status, SwapProposalStatus::Fulfilled);
    take_out(&mut l, participant(), mint_a(), participant_account_a(), vault_a(), "p1", "o1", TransferActionType::Redeeming).unwrap();
    assert_eq!(proposal(&l, 0).status, SwapProposalStatus::Fulfilled);
    let r = take_out(&mut l, stranger(), mint_b(), owner_account_b(), vault_b(), "p1", "a1", TransferActionType::Redeeming);
    assert_eq!(r.unwrap_err(), SwapError::InvalidValue);
    take_out(&mut l, owner(), mint_b(), owner_account_b(), vault_b(), "p1", "a1", TransferActionType::Redeeming).unwrap();
    assert_eq!(proposal(&l, 0).status, SwapProposalStatus::Redeemed);
}

#[test]
fn deposit_checks_owner_time_and_token() {
    let mut l = ledger();
    create(&mut l, simple_params("p1")).unwrap();
    let params = |item_id: &str| DepositAssetsToVaultParams {
        swap_token_vault_bump: 250,
        proposal_id: "p1".to_string(),
        swap_item_id: item_id.to_string(),
        option_id: String::new(),
        action_type: DepositActionType::Depositing,
    };
    let r = l.transfer_assets_to_vault(stranger(), mint_a(), owner_account_a(), vault_a(), params("o1"), NOW);
    assert_eq!(r.unwrap_err(), SwapError::DepositIsNotAvailable);
    let r = l.transfer_assets_to_vault(owner(), mint_a(), owner_account_a(), vault_a(), params("o1"), NOW + HOUR);
    assert_eq!(r.unwrap_err(), SwapError::DepositIsNotAvailable);
    let r = l.transfer_assets_to_vault(owner(), mint_a(), owner_account_a(), vault_a(), params("zz"), NOW);
    assert_eq!(r.unwrap_err(), SwapError::DepositIsNotAvailable);
    let r = l.transfer_assets_to_vault(owner(), mint_b(), owner_account_b(), vault_b(), params("o1"), NOW);
    assert_eq!(r.unwrap_err(), SwapError::UnAllowedMintToken);
    let r = l.transfer_assets_to_vault(owner(), mint_a(), owner_account_a(), vault_b(), params("o1"), NOW);
    assert_eq!(r.unwrap_err(), SwapError::UnAllowedMintToken);
    let mut unknown = params("o1");
    unknown.proposal_id = "nope".to_string();
    let r = l.transfer_assets_to_vault(owner(), mint_a(), owner_account_a(), vault_a(), unknown, NOW);
    assert_eq!(r.unwrap_err(), SwapError::InvalidValue);
    assert_eq!(proposal(&l, 0).offered_items[0].status, SwapItemStatus::Created);
    assert_eq!(proposal(&l, 0).status, SwapProposalStatus::Created);
}

#[test]
fn redeem_from_wrong_vault_is_refused() {
    let mut l = ledger();
    create(&mut l, simple_params("p1")).unwrap();
    deposit(&mut l, "p1", "o1").unwrap();
    fulfil(&mut l, participant(), "p1", "opt1", "a1").unwrap();
    let r = take_out(&mut l, owner(), mint_a(), owner_account_a(), vault_a(), "p1", "a1", TransferActionType::Redeeming);
    assert_eq!(r.unwrap_err(), SwapError::TransferTokenFromVaultIsNotAvailable);
    assert_eq!(proposal(&l, 0).swap_options[0].asking_items[0].status, SwapItemStatus::Deposited);
}

#[test]
fn occupied_slot_refuses_second_creation() {
    let mut ctx = swap::CreateProposalContext {
        proposal_owner: owner(),
        swap_proposal: SwapProposal::default(),
        swap_proposal_key: addr(500),
        swap_registry: registry(),
        now: NOW,
    };
    ctx.execute(simple_params("p1"), 255).unwrap();
    let mut again = simple_params("p1");
    again.expired_at = NOW + 2 * HOUR;
    assert_eq!(ctx.execute(again, 255).unwrap_err(), SwapError::AlreadyInitialized);
    assert_eq!(ctx.swap_proposal.id, "p1");
    assert_eq!(ctx.swap_proposal.expired_at, NOW + HOUR);
    assert_eq!(ctx.swap_proposal.status, SwapProposalStatus::Created);
}

#[test]
fn too_many_items_is_reported_before_disabled_tokens() {
    let mut l = ledger();
    let mut params = simple_params("p1");
    for k in 0..3 {
        params.offered_items.push(item(&format!("x{}", k), mint_c(), 1));
    }
    assert_eq!(create(&mut l, params).unwrap_err(), SwapError::InvalidValue);
}

#[test]
fn redeem_and_withdraw_check_the_status_directly() {
    let mut l = ledger();
    create(&mut l, simple_params("p1")).unwrap();
    deposit(&mut l, "p1", "o1").unwrap();
    let mut ctx = swap::TransferAssetsFromVaultContext {
        signer: owner(),
        mint_account: mint_a(),
        swap_registry: registry(),
        swap_registry_key: registry_key(),
        signer_token_account: owner_account_a(),
        swap_proposal: std::mem::replace(&mut l.records[0].proposal, SwapProposal::default()),
        swap_proposal_key: addr(500),
        swap_token_vault: vault_a(),
        now: NOW,
    };
    let params = || TransferAssetsFromVaultParams {
        swap_registry_bump: 254,
        swap_token_vault_bump: 250,
        proposal_id: "p1".to_string(),
        action_type: TransferActionType::Redeeming,
        swap_item_id: "o1".to_string(),
    };
    assert_eq!(ctx.redeem(&params()).unwrap_err(), SwapError::RedeemIsNotAvailable);
    assert_eq!(ctx.withdraw(&params()).unwrap_err(), SwapError::WithdrawalIsNotAvailable);
    ctx.swap_proposal.status = SwapProposalStatus::Canceled;
    let out = ctx.withdraw(&params()).unwrap();
    assert_eq!(out.transfer.amount, 100);
    assert_eq!(ctx.swap_proposal.status, SwapProposalStatus::Withdrawn);
}
