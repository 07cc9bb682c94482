use vstd::prelude::*;

use crate::address::Address;
use crate::error::SwapError;
use crate::event::ProposalCreated;
use crate::state::{
    items_view, items_well_formed, lemma_unredeemed_is_not_fully_redeemed, mint_enabled, none_redeemed, options_view, MintInfo, SwapItem, SwapItemStatus, SwapItemType,
    SwapItemView, SwapOption, SwapOptionView, SwapPlatformRegistry, SwapProposal,
    SwapProposalStatus, SwapProposalView,
};

verus! {

/// An item as the proposer declares it.
#[derive(Debug)]
pub struct SwapItemInfo {
    pub id: String,
    pub mint_account: Address,
    pub amount: u64,
}

/// A basket of asking items as the proposer declares it.
#[derive(Debug)]
pub struct SwapItemOptionInfo {
    pub id: String,
    pub asking_items: Vec<SwapItemInfo>,
}

/// What a proposer submits to open a proposal.
#[derive(Debug)]
pub struct CreateProposalParams {
    pub id: String,
    pub swap_options: Vec<SwapItemOptionInfo>,
    pub offered_items: Vec<SwapItemInfo>,
    pub expired_at: u64,
}

/// The records that proposal creation reads and writes: the proposer, the fresh
/// proposal slot with its key, the registry, and the ledger time.
#[derive(Debug)]
pub struct CreateProposalContext {
    pub proposal_owner: Address,
    pub swap_proposal: SwapProposal,
    pub swap_proposal_key: Address,
    pub swap_registry: SwapPlatformRegistry,
    pub now: u64,
}

/// The item that `info` declares, not yet deposited, held by `owner`.
pub open spec fn item_of_info(info: SwapItemInfo, owner: Address) -> SwapItemView {
    SwapItemView {
        id: info.id@,
        mint_account: info.mint_account,
        amount: info.amount,
        status: SwapItemStatus::Created,
        item_type: SwapItemType::NFT,
        owner: owner,
    }
}

pub open spec fn items_of_infos(infos: Seq<SwapItemInfo>, owner: Address) -> Seq<SwapItemView> {
    infos.map_values(|info: SwapItemInfo| item_of_info(info, owner))
}

/// The option that `info` declares; its items have no holder until a participant deposits them.
pub open spec fn option_of_info(info: SwapItemOptionInfo) -> SwapOptionView {
    SwapOptionView {
        id: info.id@,
        asking_items: items_of_infos(info.asking_items@, Address::spec_zero()),
    }
}

/// The proposal that `params` declare for `owner`.
pub open spec fn proposal_of_params(
    params: CreateProposalParams,
    owner: Address,
    bump: u8,
) -> SwapProposalView {
    SwapProposalView {
        id: params.id@,
        bump: bump,
        owner: owner,
        fulfilled_by: Address::spec_zero(),
        fulfilled_with_option_id: Seq::<char>::empty(),
        offered_items: items_of_infos(params.offered_items@, owner),
        swap_options: params.swap_options@.map_values(
            |info: SwapItemOptionInfo| option_of_info(info),
        ),
        expired_at: params.expired_at,
        status: SwapProposalStatus::Created,
    }
}

/// Between one and `max` items, each of a positive amount.
pub open spec fn items_within_limit(items: Seq<SwapItemView>, max: u8) -> bool {
    &&& 1 <= items.len() <= max
    &&& forall|i: int| 0 <= i < items.len() ==> (#[trigger] items[i]).amount > 0
}

/// Between one and `max_options` options, each within the item limit.
pub open spec fn options_within_limits(
    options: Seq<SwapOptionView>,
    max_items: u8,
    max_options: u8,
) -> bool {
    &&& 1 <= options.len() <= max_options
    &&& forall|i: int|
        0 <= i < options.len() ==> items_within_limit(
            (#[trigger] options[i]).asking_items,
            max_items,
        )
}

/// Every item's token type is enabled.
pub open spec fn items_enabled(items: Seq<SwapItemView>, entries: Seq<MintInfo>) -> bool {
    forall|i: int| 0 <= i < items.len() ==> mint_enabled(entries, (#[trigger] items[i]).mint_account)
}

/// Every asking item's token type is enabled.
pub open spec fn options_enabled(options: Seq<SwapOptionView>, entries: Seq<MintInfo>) -> bool {
    forall|i: int| 0 <= i < options.len() ==> items_enabled((#[trigger] options[i]).asking_items, entries)
}

/// Why one list of items fails the registry's checks, count first: more than
/// `max_items` items, or an item whose token type is not enabled.
pub open spec fn item_list_error(items: Seq<SwapItemView>, max_items: u8, entries: Seq<MintInfo>) -> Option<SwapError> {
    if items.len() > max_items {
        Some(SwapError::InvalidValue)
    } else if !items_enabled(items, entries) {
        Some(SwapError::UnAllowedMintToken)
    } else {
        None
    }
}

/// The first rule, in order, that the new proposal `p` breaks, if any.
pub open spec fn creation_error(
    p: SwapProposalView,
    max_items: u8,
    max_options: u8,
    entries: Seq<MintInfo>,
    now: u64,
) -> Option<SwapError> {
    if p.id.len() == 0 || p.bump == 0 || p.owner.spec_is_zero() {
        Some(SwapError::InvalidValue)
    } else if !items_within_limit(p.offered_items, max_items) || !options_within_limits(
        p.swap_options,
        max_items,
        max_options,
    ) {
        Some(SwapError::InvalidValue)
    } else if !items_enabled(p.offered_items, entries) || !options_enabled(p.swap_options, entries) {
        Some(SwapError::UnAllowedMintToken)
    } else if p.expired_at <= now {
        Some(SwapError::InvalidValue)
    } else {
        None
    }
}

/// Proposal creation rejects an offered or asking item whose token type is not
/// enabled, and more offered items, options or asking items than the registry allows.
pub proof fn lemma_creation_rejects_disallowed(
    p: SwapProposalView,
    max_items: u8,
    max_options: u8,
    entries: Seq<MintInfo>,
    now: u64,
)
    ensures
        (exists|i: int|
            0 <= i < p.offered_items.len() && !mint_enabled(
                entries,
                (#[trigger] p.offered_items[i]).mint_account,
            )) ==> creation_error(p, max_items, max_options, entries, now) is Some,
        (exists|oi: int, i: int|
            0 <= oi < p.swap_options.len() && 0 <= i < p.swap_options[oi].asking_items.len()
                && !mint_enabled(
                entries,
                (#[trigger] p.swap_options[oi].asking_items[i]).mint_account,
            )) ==> creation_error(p, max_items, max_options, entries, now) is Some,
        p.offered_items.len() > max_items ==> creation_error(p, max_items, max_options, entries, now)
            == Some(SwapError::InvalidValue),
        p.swap_options.len() > max_options ==> creation_error(
            p,
            max_items,
            max_options,
            entries,
            now,
        ) == Some(SwapError::InvalidValue),
        (exists|oi: int|
            0 <= oi < p.swap_options.len() && (#[trigger] p.swap_options[oi]).asking_items.len()
                > max_items) ==> creation_error(p, max_items, max_options, entries, now) == Some(
            SwapError::InvalidValue,
        ),
{
    if exists|oi: int, i: int|
        0 <= oi < p.swap_options.len() && 0 <= i < p.swap_options[oi].asking_items.len()
            && !mint_enabled(entries, (#[trigger] p.swap_options[oi].asking_items[i]).mint_account) {
        let (oi, i) = choose|oi: int, i: int|
            0 <= oi < p.swap_options.len() && 0 <= i < p.swap_options[oi].asking_items.len()
                && !mint_enabled(
                entries,
                (#[trigger] p.swap_options[oi].asking_items[i]).mint_account,
            );
        assert(!items_enabled(p.swap_options[oi].asking_items, entries));
    }
    if exists|oi: int|
        0 <= oi < p.swap_options.len() && (#[trigger] p.swap_options[oi]).asking_items.len()
            > max_items {
        let oi = choose|oi: int|
            0 <= oi < p.swap_options.len() && (#[trigger] p.swap_options[oi]).asking_items.len()
                > max_items;
        assert(!items_within_limit(p.swap_options[oi].asking_items, max_items));
    }
}

/// A proposal that passes every creation rule is well formed.
pub proof fn lemma_creation_establishes_wf(
    p: SwapProposalView,
    max_items: u8,
    max_options: u8,
    entries: Seq<MintInfo>,
    now: u64,
)
    requires
        creation_error(p, max_items, max_options, entries, now) is None,
    ensures
        p.wf(),
{
    assert forall|oi: int| 0 <= oi < p.swap_options.len() implies items_well_formed(
        (#[trigger] p.swap_options[oi]).asking_items,
    ) by {
        assert(items_within_limit(p.swap_options[oi].asking_items, max_items));
    }
}

/// A freshly created proposal has no redeemed item and is not `Redeemed`.
pub proof fn lemma_created_is_settlement_consistent(
    params: CreateProposalParams,
    owner: Address,
    bump: u8,
    max_items: u8,
    max_options: u8,
    entries: Seq<MintInfo>,
    now: u64,
)
    requires
        creation_error(proposal_of_params(params, owner, bump), max_items, max_options, entries, now)
            is None,
    ensures
        proposal_of_params(params, owner, bump).settlement_consistent(),
{
    let p = proposal_of_params(params, owner, bump);
    lemma_creation_establishes_wf(p, max_items, max_options, entries, now);
    assert forall|oi: int| 0 <= oi < p.swap_options.len() implies none_redeemed(
        (#[trigger] p.swap_options[oi]).asking_items,
    ) by {
        let a = p.swap_options[oi].asking_items;
        assert(a == items_of_infos(params.swap_options@[oi].asking_items@, Address::spec_zero()));
        assert forall|i: int| 0 <= i < a.len() implies (#[trigger] a[i]).status
            != SwapItemStatus::Redeemed by {
            assert(a[i].status == SwapItemStatus::Created);
        }
    }
    assert(none_redeemed(p.offered_items));
    lemma_unredeemed_is_not_fully_redeemed(p);
}

/// A proposal that creation stored has an id, so a second creation in its slot is
/// refused with `AlreadyInitialized` and leaves it as it was.
pub proof fn lemma_created_slot_is_taken(p: SwapProposalView)
    requires
        p.wf(),
    ensures
        p.id.len() > 0,
{
}

fn build_item(info: &SwapItemInfo, owner: Address) -> (r: SwapItem)
    ensures
        r@ == item_of_info(*info, owner),
{
    SwapItem {
        id: info.id.clone(),
        mint_account: info.mint_account,
        amount: info.amount,
        status: SwapItemStatus::Created,
        item_type: SwapItemType::NFT,
        owner: owner,
    }
}

fn build_items(infos: &Vec<SwapItemInfo>, owner: Address) -> (r: Vec<SwapItem>)
    ensures
        items_view(r@) == items_of_infos(infos@, owner),
{
    let mut items: Vec<SwapItem> = Vec::new();
    let n = infos.len();
    let mut i: usize = 0;
    while i < n
        invariant
            n == infos@.len(),
            i <= n,
            items@.len() == i,
            forall|j: int| 0 <= j < i ==> (#[trigger] items@[j])@ == item_of_info(infos@[j], owner),
        decreases n - i,
    {
        let item = build_item(&infos[i], owner);
        items.push(item);
        i = i + 1;
    }
    assert(items_view(items@) =~= items_of_infos(infos@, owner));
    items
}

fn build_options(infos: &Vec<SwapItemOptionInfo>) -> (r: Vec<SwapOption>)
    ensures
        options_view(r@) == infos@.map_values(|info: SwapItemOptionInfo| option_of_info(info)),
{
    let mut options: Vec<SwapOption> = Vec::new();
    let n = infos.len();
    let mut i: usize = 0;
    while i < n
        invariant
            n == infos@.len(),
            i <= n,
            options@.len() == i,
            forall|j: int| 0 <= j < i ==> (#[trigger] options@[j])@ == option_of_info(infos@[j]),
        decreases n - i,
    {
        let info = &infos[i];
        let option = SwapOption {
            id: info.id.clone(),
            asking_items: build_items(&info.asking_items, Address::zero()),
        };
        options.push(option);
        i = i + 1;
    }
    assert(options_view(options@) =~= infos@.map_values(
        |info: SwapItemOptionInfo| option_of_info(info),
    ));
    options
}

/// Whether `items` holds between one and `max` items, each of a positive amount.
fn check_items_within_limit(items: &Vec<SwapItem>, max: u8) -> (r: bool)
    ensures
        r == items_within_limit(items_view(items@), max),
{
    let ghost v = items_view(items@);
    let n = items.len();
    if n < 1 || n > max as usize {
        return false;
    }
    let mut i: usize = 0;
    while i < n
        invariant
            n == items@.len(),
            v == items_view(items@),
            i <= n,
            forall|j: int| 0 <= j < i ==> (#[trigger] v[j]).amount > 0,
        decreases n - i,
    {
        if items[i].amount == 0 {
            assert(v[i as int].amount == 0);
            return false;
        }
        i = i + 1;
    }
    true
}

/// Whether `options` holds between one and `max_options` options, each within the item limit.
fn check_options_within_limits(options: &Vec<SwapOption>, max_items: u8, max_options: u8) -> (r:
    bool)
    ensures
        r == options_within_limits(options_view(options@), max_items, max_options),
{
    let ghost v = options_view(options@);
    let n = options.len();
    if n < 1 || n > max_options as usize {
        return false;
    }
    let mut i: usize = 0;
    while i < n
        invariant
            n == options@.len(),
            v == options_view(options@),
            i <= n,
            forall|j: int| 0 <= j < i ==> items_within_limit((#[trigger] v[j]).asking_items, max_items),
        decreases n - i,
    {
        if !check_items_within_limit(&options[i].asking_items, max_items) {
            assert(!items_within_limit(v[i as int].asking_items, max_items));
            return false;
        }
        i = i + 1;
    }
    true
}

impl CreateProposalContext {
    /// Opens the proposal that `params` declare in the context's slot, owned by the
    /// proposer. A slot that already holds a proposal (its id is set) fails with
    /// `AlreadyInitialized`. On any failure the slot is left as it was.
    pub fn execute(&mut self, params: CreateProposalParams, bump: u8) -> (r: Result<
        ProposalCreated,
        SwapError,
    >)
        ensures
            final(self).proposal_owner == old(self).proposal_owner,
            final(self).swap_proposal_key == old(self).swap_proposal_key,
            final(self).swap_registry == old(self).swap_registry,
            final(self).now == old(self).now,
            old(self).swap_proposal@.id.len() > 0 ==> r == Err::<ProposalCreated, SwapError>(
                SwapError::AlreadyInitialized,
            ) && final(self).swap_proposal == old(self).swap_proposal,
            old(self).swap_proposal@.id.len() == 0 ==> match r {
                Ok(event) => {
                    &&& creation_error(
                        proposal_of_params(params, old(self).proposal_owner, bump),
                        old(self).swap_registry.max_allowed_items,
                        old(self).swap_registry.max_allowed_options,
                        old(self).swap_registry.allowed_mint_accounts@,
                        old(self).now,
                    ) is None
                    &&& final(self).swap_proposal@ == proposal_of_params(
                        params,
                        old(self).proposal_owner,
                        bump,
                    )
                    &&& final(self).swap_proposal@.wf()
                    &&& final(self).swap_proposal@.settlement_consistent()
                    &&& event.actor == old(self).proposal_owner
                    &&& event.proposal_key == old(self).swap_proposal_key
                    &&& event.id@ == params.id@
                    &&& event.expired_at == params.expired_at
                },
                Err(e) => {
                    &&& creation_error(
                        proposal_of_params(params, old(self).proposal_owner, bump),
                        old(self).swap_registry.max_allowed_items,
                        old(self).swap_registry.max_allowed_options,
                        old(self).swap_registry.allowed_mint_accounts@,
                        old(self).now,
                    ) == Some(e)
                    &&& final(self).swap_proposal == old(self).swap_proposal
                },
            },
    {
        if !self.swap_proposal.id.as_str().is_empty() {
            return Err(SwapError::AlreadyInitialized);
        }
        let owner = self.proposal_owner;
        let swap_options = build_options(&params.swap_options);
        let offered_items = build_items(&params.offered_items, owner);
        let mut proposal = SwapProposal {
            id: params.id.clone(),
            bump: bump,
            owner: owner,
            fulfilled_by: Address::zero(),
            fulfilled_with_option_id: String::new(),
            offered_items: offered_items,
            swap_options: swap_options,
            expired_at: params.expired_at,
            status: SwapProposalStatus::Created,
        };
        assert(proposal@ == proposal_of_params(params, owner, bump));
        std::mem::swap(&mut self.swap_proposal, &mut proposal);
        match self.handle_post_initialized() {
            Ok(()) => {
                proof {
                    lemma_creation_establishes_wf(
                        self.swap_proposal@,
                        self.swap_registry.max_allowed_items,
                        self.swap_registry.max_allowed_options,
                        self.swap_registry.allowed_mint_accounts@,
                        self.now,
                    );
                    lemma_created_is_settlement_consistent(
                        params,
                        owner,
                        bump,
                        self.swap_registry.max_allowed_items,
                        self.swap_registry.max_allowed_options,
                        self.swap_registry.allowed_mint_accounts@,
                        self.now,
                    );
                }
                Ok(
                    ProposalCreated {
                        actor: owner,
                        proposal_key: self.swap_proposal_key,
                        id: self.swap_proposal.id.clone(),
                        expired_at: self.swap_proposal.expired_at,
                    },
                )
            },
            Err(e) => {
                std::mem::swap(&mut self.swap_proposal, &mut proposal);
                Err(e)
            },
        }
    }

    /// Rejects more items than the registry allows with `InvalidValue`, then an item
    /// whose token type is not enabled with `UnAllowedMintToken`.
    fn validate_mint_accounts(&self, items: &Vec<SwapItem>) -> (r: Result<(), SwapError>)
        ensures
            r == (match item_list_error(
                items_view(items@),
                self.swap_registry.max_allowed_items,
                self.swap_registry.allowed_mint_accounts@,
            ) {
                Some(e) => Err(e),
                None => Ok::<(), SwapError>(()),
            }),
    {
        if items.len() > self.swap_registry.max_allowed_items as usize {
            return Err(SwapError::InvalidValue);
        }
        let ghost v = items_view(items@);
        let ghost entries = self.swap_registry.allowed_mint_accounts@;
        let n = items.len();
        let mut i: usize = 0;
        while i < n
            invariant
                n == items@.len(),
                v == items_view(items@),
                entries == self.swap_registry.allowed_mint_accounts@,
                n <= self.swap_registry.max_allowed_items,
                i <= n,
                forall|j: int| 0 <= j < i ==> mint_enabled(entries, (#[trigger] v[j]).mint_account),
            decreases n - i,
        {
            if !self.swap_registry.is_mint_account_enabled(items[i].mint_account) {
                assert(!mint_enabled(entries, v[i as int].mint_account));
                return Err(SwapError::UnAllowedMintToken);
            }
            i = i + 1;
        }
        Ok(())
    }

    /// Rejects more options than the registry allows with `InvalidValue`, then
    /// checks each option's asking items in turn; the first failing option decides.
    fn validate_swap_options(&self, options: &Vec<SwapOption>) -> (r: Result<(), SwapError>)
        ensures
            options@.len() > self.swap_registry.max_allowed_options ==> r == Err::<(), SwapError>(
                SwapError::InvalidValue,
            ),
            options@.len() <= self.swap_registry.max_allowed_options ==> match r {
                Ok(()) => forall|j: int|
                    0 <= j < options@.len() ==> item_list_error(
                        (#[trigger] options_view(options@)[j]).asking_items,
                        self.swap_registry.max_allowed_items,
                        self.swap_registry.allowed_mint_accounts@,
                    ) is None,
                Err(e) => exists|k: int|
                    0 <= k < options@.len() && item_list_error(
                        (#[trigger] options_view(options@)[k]).asking_items,
                        self.swap_registry.max_allowed_items,
                        self.swap_registry.allowed_mint_accounts@,
                    ) == Some(e) && forall|j: int|
                        0 <= j < k ==> item_list_error(
                            (#[trigger] options_view(options@)[j]).asking_items,
                            self.swap_registry.max_allowed_items,
                            self.swap_registry.allowed_mint_accounts@,
                        ) is None,
            },
    {
        if options.len() > self.swap_registry.max_allowed_options as usize {
            return Err(SwapError::InvalidValue);
        }
        let ghost v = options_view(options@);
        let ghost entries = self.swap_registry.allowed_mint_accounts@;
        let ghost max = self.swap_registry.max_allowed_items;
        let n = options.len();
        let mut i: usize = 0;
        while i < n
            invariant
                n == options@.len(),
                v == options_view(options@),
                entries == self.swap_registry.allowed_mint_accounts@,
                max == self.swap_registry.max_allowed_items,
                n <= self.swap_registry.max_allowed_options,
                i <= n,
                forall|j: int| 0 <= j < i ==> item_list_error((#[trigger] v[j]).asking_items, max, entries) is None,
            decreases n - i,
        {
            let checked = self.validate_mint_accounts(&options[i].asking_items);
            match checked {
                Ok(()) => {},
                Err(e) => {
                    assert(v[i as int] == options@[i as int]@);
                    assert(item_list_error(v[i as int].asking_items, max, entries) == Some(e));
                    return Err(e);
                },
            }
            assert(v[i as int] == options@[i as int]@);
            i = i + 1;
        }
        Ok(())
    }

    /// Checks the proposal in the slot against the creation rules, in order.
    fn handle_post_initialized(&self) -> (r: Result<(), SwapError>)
        ensures
            r == (match creation_error(
                self.swap_proposal@,
                self.swap_registry.max_allowed_items,
                self.swap_registry.max_allowed_options,
                self.swap_registry.allowed_mint_accounts@,
                self.now,
            ) {
                Some(e) => Err(e),
                None => Ok::<(), SwapError>(()),
            }),
    {
        let proposal = &self.swap_proposal;
        if proposal.id.as_str().is_empty() || proposal.bump == 0 || proposal.owner.is_zero() {
            return Err(SwapError::InvalidValue);
        }
        if !check_items_within_limit(&proposal.offered_items, self.swap_registry.max_allowed_items)
            || !check_options_within_limits(
            &proposal.swap_options,
            self.swap_registry.max_allowed_items,
            self.swap_registry.max_allowed_options,
        ) {
            return Err(SwapError::InvalidValue);
        }
        let offered = self.validate_mint_accounts(&proposal.offered_items);
        if offered.is_err() {
            return Err(SwapError::UnAllowedMintToken);
        }
        let asked = self.validate_swap_options(&proposal.swap_options);
        proof {
            let v = proposal@.swap_options;
            let entries = self.swap_registry.allowed_mint_accounts@;
            let max = self.swap_registry.max_allowed_items;
            assert(v == options_view(proposal.swap_options@));
            match asked {
                Ok(()) => {
                    assert forall|j: int| 0 <= j < v.len() implies items_enabled(
                        (#[trigger] v[j]).asking_items,
                        entries,
                    ) by {
                        assert(item_list_error(v[j].asking_items, max, entries) is None);
                    }
                },
                Err(e) => {
                    let k = choose|k: int|
                        0 <= k < v.len() && item_list_error(
                            (#[trigger] v[k]).asking_items,
                            max,
                            entries,
                        ) == Some(e) && forall|j: int|
                            0 <= j < k ==> item_list_error(
                                (#[trigger] v[j]).asking_items,
                                max,
                                entries,
                            ) is None;
                    assert(items_within_limit(v[k].asking_items, max));
                    assert(!items_enabled(v[k].asking_items, entries));
                },
            }
        }
        if asked.is_err() {
            return Err(SwapError::UnAllowedMintToken);
        }
        if proposal.expired_at <= self.now {
            return Err(SwapError::InvalidValue);
        }
        Ok(())
    }
}

} // verus!
