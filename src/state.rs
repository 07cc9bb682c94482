use vstd::prelude::*;

use crate::address::Address;
use crate::error::SwapError;

verus! {

// ================ Platform registry ================ //

/// One allowed token type and the vault that holds its escrowed balance.
#[derive(Clone, Copy, Debug, PartialEq, Eq, Structural)]
pub struct MintInfo {
    pub is_enabled: bool,
    pub mint_account: Address,
    pub token_account: Address,
    pub bump: u8,
}

/// Some entry of `entries` is registered for `mint`.
pub open spec fn mint_existed(entries: Seq<MintInfo>, mint: Address) -> bool {
    exists|i: int| 0 <= i < entries.len() && (#[trigger] entries[i]).mint_account == mint
}

/// Some enabled entry of `entries` is registered for `mint`.
pub open spec fn mint_enabled(entries: Seq<MintInfo>, mint: Address) -> bool {
    exists|i: int|
        0 <= i < entries.len() && (#[trigger] entries[i]).mint_account == mint
            && entries[i].is_enabled
}

/// Some enabled entry of `entries` registers `vault` as the escrow of `mint`.
pub open spec fn vault_accepted(entries: Seq<MintInfo>, mint: Address, vault: Address) -> bool {
    exists|i: int|
        0 <= i < entries.len() && (#[trigger] entries[i]).mint_account == mint
            && entries[i].is_enabled && entries[i].token_account == vault
}

/// Platform-wide configuration: the administrator, the allowlist of token
/// types with their vaults, and the per-proposal size limits.
#[derive(Debug)]
pub struct SwapPlatformRegistry {
    pub owner: Address,
    pub was_initialized: bool,
    pub bump: u8,
    pub max_allowed_items: u8,
    pub max_allowed_options: u8,
    pub allowed_mint_accounts: Vec<MintInfo>,
    pub address_lookup_table: Vec<Address>,
}

impl SwapPlatformRegistry {
    /// A registry that has not been initialized yet.
    pub fn new() -> (r: SwapPlatformRegistry)
        ensures
            r.owner == Address::spec_zero(),
            !r.was_initialized,
            r.bump == 0,
            r.max_allowed_items == 0,
            r.max_allowed_options == 0,
            r.allowed_mint_accounts@ == Seq::<MintInfo>::empty(),
            r.address_lookup_table@ == Seq::<Address>::empty(),
    {
        SwapPlatformRegistry {
            owner: Address::zero(),
            was_initialized: false,
            bump: 0,
            max_allowed_items: 0,
            max_allowed_options: 0,
            allowed_mint_accounts: Vec::new(),
            address_lookup_table: Vec::new(),
        }
    }

    /// Marks the registry initialized; a registry is initialized only once.
    pub fn handle_post_initialized(&mut self) -> (r: Result<(), SwapError>)
        ensures
            old(self).was_initialized ==> r == Err::<(), SwapError>(SwapError::AlreadyInitialized)
                && *final(self) == *old(self),
            !old(self).was_initialized ==> r is Ok && final(self).was_initialized
                && final(self).owner == old(self).owner && final(self).bump == old(self).bump
                && final(self).max_allowed_items == old(self).max_allowed_items
                && final(self).max_allowed_options == old(self).max_allowed_options
                && final(self).allowed_mint_accounts == old(self).allowed_mint_accounts
                && final(self).address_lookup_table == old(self).address_lookup_table,
    {
        if !self.was_initialized {
            self.was_initialized = true;
            return Ok(());
        }
        Err(SwapError::AlreadyInitialized)
    }

    /// Whether a vault was registered for `mint_account`.
    pub fn is_mint_account_existed(&self, mint_account: Address) -> (r: bool)
        ensures
            r == mint_existed(self.allowed_mint_accounts@, mint_account),
    {
        let n = self.allowed_mint_accounts.len();
        let mut i: usize = 0;
        while i < n
            invariant
                n == self.allowed_mint_accounts@.len(),
                i <= n,
                forall|j: int|
                    0 <= j < i ==> (#[trigger] self.allowed_mint_accounts@[j]).mint_account
                        != mint_account,
            decreases n - i,
        {
            if self.allowed_mint_accounts[i].mint_account == mint_account {
                return true;
            }
            i = i + 1;
        }
        false
    }

    /// Whether `mint_account` is registered and enabled for trading.
    pub fn is_mint_account_enabled(&self, mint_account: Address) -> (r: bool)
        ensures
            r == mint_enabled(self.allowed_mint_accounts@, mint_account),
    {
        let n = self.allowed_mint_accounts.len();
        let mut i: usize = 0;
        while i < n
            invariant
                n == self.allowed_mint_accounts@.len(),
                i <= n,
                forall|j: int|
                    0 <= j < i ==> !((#[trigger] self.allowed_mint_accounts@[j]).mint_account
                        == mint_account && self.allowed_mint_accounts@[j].is_enabled),
            decreases n - i,
        {
            let info = self.allowed_mint_accounts[i];
            if info.mint_account == mint_account && info.is_enabled {
                return true;
            }
            i = i + 1;
        }
        false
    }

    /// Whether `vault` is the escrow registered for the enabled token type `mint_account`.
    pub fn is_vault_accepted(&self, mint_account: Address, vault: Address) -> (r: bool)
        ensures
            r == vault_accepted(self.allowed_mint_accounts@, mint_account, vault),
    {
        let n = self.allowed_mint_accounts.len();
        let mut i: usize = 0;
        while i < n
            invariant
                n == self.allowed_mint_accounts@.len(),
                i <= n,
                forall|j: int|
                    0 <= j < i ==> !((#[trigger] self.allowed_mint_accounts@[j]).mint_account
                        == mint_account && self.allowed_mint_accounts@[j].is_enabled
                        && self.allowed_mint_accounts@[j].token_account == vault),
            decreases n - i,
        {
            let info = self.allowed_mint_accounts[i];
            if info.mint_account == mint_account && info.is_enabled && info.token_account == vault {
                return true;
            }
            i = i + 1;
        }
        false
    }

    /// The first entry registered for `mint_account`, if any.
    pub fn get_mint_info(&self, mint_account: Address) -> (r: Option<MintInfo>)
        ensures
            r is None <==> !mint_existed(self.allowed_mint_accounts@, mint_account),
            r matches Some(m) ==> exists|i: int|
                0 <= i < self.allowed_mint_accounts@.len()
                    && self.allowed_mint_accounts@[i] == m && m.mint_account == mint_account
                    && forall|j: int|
                    0 <= j < i ==> (#[trigger] self.allowed_mint_accounts@[j]).mint_account
                        != mint_account,
    {
        let n = self.allowed_mint_accounts.len();
        let mut i: usize = 0;
        while i < n
            invariant
                n == self.allowed_mint_accounts@.len(),
                i <= n,
                forall|j: int|
                    0 <= j < i ==> (#[trigger] self.allowed_mint_accounts@[j]).mint_account
                        != mint_account,
            decreases n - i,
        {
            let info = self.allowed_mint_accounts[i];
            if info.mint_account == mint_account {
                return Some(info);
            }
            i = i + 1;
        }
        None
    }
}

// ================ Swap items ================ //

/// Whether an item is a unique asset or a fungible currency amount.
#[derive(Clone, Copy, Debug, PartialEq, Eq, Structural)]
pub enum SwapItemType {
    NFT,
    Currency,
}

/// Where an item stands in escrow: `Created -> Deposited -> {Redeemed | Withdrawn}`.
#[derive(Clone, Copy, Debug, PartialEq, Eq, Structural)]
pub enum SwapItemStatus {
    Created,
    Deposited,
    Redeemed,
    Withdrawn,
}

/// One step of an item's status: it stays, or moves one step forward.
pub open spec fn status_advances(a: SwapItemStatus, b: SwapItemStatus) -> bool {
    a == b || (a == SwapItemStatus::Created && b == SwapItemStatus::Deposited) || (a
        == SwapItemStatus::Deposited && (b == SwapItemStatus::Redeemed || b
        == SwapItemStatus::Withdrawn))
}

/// How far along its lifecycle a status is.
pub open spec fn status_rank(s: SwapItemStatus) -> int {
    match s {
        SwapItemStatus::Created => 0,
        SwapItemStatus::Deposited => 1,
        SwapItemStatus::Redeemed => 2,
        SwapItemStatus::Withdrawn => 2,
    }
}

/// `b` can follow `a` after any number of steps.
pub open spec fn status_reachable(a: SwapItemStatus, b: SwapItemStatus) -> bool {
    a == b || status_rank(a) < status_rank(b)
}

/// One unit of value to be transferred through escrow.
#[derive(Debug)]
pub struct SwapItem {
    pub id: String,
    pub mint_account: Address,
    pub amount: u64,
    pub status: SwapItemStatus,
    pub item_type: SwapItemType,
    pub owner: Address,
}

/// The mathematical value of a [`SwapItem`].
pub struct SwapItemView {
    pub id: Seq<char>,
    pub mint_account: Address,
    pub amount: u64,
    pub status: SwapItemStatus,
    pub item_type: SwapItemType,
    pub owner: Address,
}

impl View for SwapItem {
    type V = SwapItemView;

    open spec fn view(&self) -> SwapItemView {
        SwapItemView {
            id: self.id@,
            mint_account: self.mint_account,
            amount: self.amount,
            status: self.status,
            item_type: self.item_type,
            owner: self.owner,
        }
    }
}

impl SwapItemView {
    pub open spec fn with_status(self, s: SwapItemStatus) -> SwapItemView {
        SwapItemView { status: s, ..self }
    }

    /// `next` is this item after one step: the same asset, its status one step on.
    pub open spec fn advances_to(self, next: SwapItemView) -> bool {
        &&& next.id == self.id
        &&& next.mint_account == self.mint_account
        &&& next.amount == self.amount
        &&& next.item_type == self.item_type
        &&& status_advances(self.status, next.status)
    }
}

pub open spec fn items_view(items: Seq<SwapItem>) -> Seq<SwapItemView> {
    items.map_values(|item: SwapItem| item@)
}

/// Every item of `next` is the item at the same place of `items`, one step on.
pub open spec fn items_advance(items: Seq<SwapItemView>, next: Seq<SwapItemView>) -> bool {
    &&& next.len() == items.len()
    &&& forall|i: int| 0 <= i < items.len() ==> (#[trigger] items[i]).advances_to(next[i])
}

/// Every item of `items` has status `s`.
pub open spec fn all_items_have_status(items: Seq<SwapItemView>, s: SwapItemStatus) -> bool {
    forall|i: int| 0 <= i < items.len() ==> (#[trigger] items[i]).status == s
}

/// Every item of `items` that was ever deposited has been withdrawn.
pub open spec fn all_deposits_withdrawn(items: Seq<SwapItemView>) -> bool {
    forall|i: int|
        0 <= i < items.len() ==> (#[trigger] items[i]).status == SwapItemStatus::Created
            || items[i].status == SwapItemStatus::Withdrawn
}

/// `i` is the first place in `items` that holds an item with id `id`.
pub open spec fn is_first_item(items: Seq<SwapItemView>, id: Seq<char>, i: int) -> bool {
    &&& 0 <= i < items.len()
    &&& items[i].id == id
    &&& forall|j: int| 0 <= j < i ==> (#[trigger] items[j]).id != id
}

/// The first place in `items` of an item with id `id`, or -1.
pub open spec fn item_index(items: Seq<SwapItemView>, id: Seq<char>) -> int {
    if exists|i: int| is_first_item(items, id, i) {
        choose|i: int| is_first_item(items, id, i)
    } else {
        -1
    }
}

pub proof fn lemma_item_index_is_first(items: Seq<SwapItemView>, id: Seq<char>, i: int)
    requires
        is_first_item(items, id, i),
    ensures
        item_index(items, id) == i,
{
    let k = item_index(items, id);
    assert(is_first_item(items, id, k));
    if k < i {
        assert(items[k].id != id);
    } else if i < k {
        assert(items[i].id != id);
    }
}

pub proof fn lemma_item_index_bounds(items: Seq<SwapItemView>, id: Seq<char>)
    ensures
        item_index(items, id) == -1 || is_first_item(items, id, item_index(items, id)),
{
}

/// The place of the first item with id `id` in `items`.
pub fn find_item_index(items: &Vec<SwapItem>, id: &String) -> (r: Option<usize>)
    ensures
        match r {
            Some(i) => i as int == item_index(items_view(items@), id@),
            None => item_index(items_view(items@), id@) == -1,
        },
{
    let ghost v = items_view(items@);
    let n = items.len();
    let mut i: usize = 0;
    while i < n
        invariant
            n == items@.len(),
            v == items_view(items@),
            i <= n,
            forall|j: int| 0 <= j < i ==> (#[trigger] v[j]).id != id@,
        decreases n - i,
    {
        if items[i].id == *id {
            proof {
                lemma_item_index_is_first(v, id@, i as int);
            }
            return Some(i);
        }
        i = i + 1;
    }
    proof {
        if exists|k: int| is_first_item(v, id@, k) {
            let k = choose|k: int| is_first_item(v, id@, k);
            assert(v[k].id == id@);
        }
    }
    None
}

/// Whether every item of `items` has status `s`.
pub fn all_items_with_status(items: &Vec<SwapItem>, s: SwapItemStatus) -> (r: bool)
    ensures
        r == all_items_have_status(items_view(items@), s),
{
    let ghost v = items_view(items@);
    let n = items.len();
    let mut i: usize = 0;
    while i < n
        invariant
            n == items@.len(),
            v == items_view(items@),
            i <= n,
            forall|j: int| 0 <= j < i ==> (#[trigger] v[j]).status == s,
        decreases n - i,
    {
        if items[i].status != s {
            assert(v[i as int].status != s);
            return false;
        }
        i = i + 1;
    }
    true
}

/// Whether every item of `items` that was deposited has been withdrawn.
pub fn all_items_withdrawn_or_untouched(items: &Vec<SwapItem>) -> (r: bool)
    ensures
        r == all_deposits_withdrawn(items_view(items@)),
{
    let ghost v = items_view(items@);
    let n = items.len();
    let mut i: usize = 0;
    while i < n
        invariant
            n == items@.len(),
            v == items_view(items@),
            i <= n,
            forall|j: int|
                0 <= j < i ==> (#[trigger] v[j]).status == SwapItemStatus::Created || v[j].status
                    == SwapItemStatus::Withdrawn,
        decreases n - i,
    {
        let s = items[i].status;
        if s != SwapItemStatus::Created && s != SwapItemStatus::Withdrawn {
            assert(v[i as int].status == s);
            return false;
        }
        i = i + 1;
    }
    true
}

impl SwapItem {
    /// An empty item in status `Created`.
    pub fn default() -> (r: SwapItem)
        ensures
            r@ == (SwapItemView {
                id: Seq::<char>::empty(),
                mint_account: Address::spec_zero(),
                amount: 0,
                status: SwapItemStatus::Created,
                item_type: SwapItemType::NFT,
                owner: Address::spec_zero(),
            }),
    {
        SwapItem {
            id: String::new(),
            owner: Address::zero(),
            mint_account: Address::zero(),
            item_type: SwapItemType::NFT,
            status: SwapItemStatus::Created,
            amount: 0,
        }
    }

    /// Records that the item has reached the vault.
    pub fn handle_post_deposited(&mut self)
        requires
            old(self).status == SwapItemStatus::Created,
        ensures
            final(self)@ == old(self)@.with_status(SwapItemStatus::Deposited),
    {
        self.status = SwapItemStatus::Deposited;
    }

    /// Records that the item has left the vault to its new owner.
    pub fn handle_post_redeemed(&mut self)
        requires
            old(self).status == SwapItemStatus::Deposited,
        ensures
            final(self)@ == old(self)@.with_status(SwapItemStatus::Redeemed),
    {
        self.status = SwapItemStatus::Redeemed;
    }

    /// Records that the item has gone back from the vault to its depositor.
    pub fn handle_post_withdrawn(&mut self)
        requires
            old(self).status == SwapItemStatus::Deposited,
        ensures
            final(self)@ == old(self)@.with_status(SwapItemStatus::Withdrawn),
    {
        self.status = SwapItemStatus::Withdrawn;
    }
}

// ================ Swap options ================ //

/// One basket of asking items that the proposer accepts in return.
#[derive(Debug)]
pub struct SwapOption {
    pub id: String,
    pub asking_items: Vec<SwapItem>,
}

/// The mathematical value of a [`SwapOption`].
pub struct SwapOptionView {
    pub id: Seq<char>,
    pub asking_items: Seq<SwapItemView>,
}

impl View for SwapOption {
    type V = SwapOptionView;

    open spec fn view(&self) -> SwapOptionView {
        SwapOptionView { id: self.id@, asking_items: items_view(self.asking_items@) }
    }
}

pub open spec fn options_view(options: Seq<SwapOption>) -> Seq<SwapOptionView> {
    options.map_values(|option: SwapOption| option@)
}

/// `i` is the first place in `options` that holds an option with id `id`.
pub open spec fn is_first_option(options: Seq<SwapOptionView>, id: Seq<char>, i: int) -> bool {
    &&& 0 <= i < options.len()
    &&& options[i].id == id
    &&& forall|j: int| 0 <= j < i ==> (#[trigger] options[j]).id != id
}

/// The first place in `options` of an option with id `id`, or -1.
pub open spec fn option_index(options: Seq<SwapOptionView>, id: Seq<char>) -> int {
    if exists|i: int| is_first_option(options, id, i) {
        choose|i: int| is_first_option(options, id, i)
    } else {
        -1
    }
}

pub proof fn lemma_option_index_is_first(options: Seq<SwapOptionView>, id: Seq<char>, i: int)
    requires
        is_first_option(options, id, i),
    ensures
        option_index(options, id) == i,
{
    let k = option_index(options, id);
    assert(is_first_option(options, id, k));
    if k < i {
        assert(options[k].id != id);
    } else if i < k {
        assert(options[i].id != id);
    }
}

pub proof fn lemma_option_index_bounds(options: Seq<SwapOptionView>, id: Seq<char>)
    ensures
        option_index(options, id) == -1 || is_first_option(options, id, option_index(options, id)),
{
}

/// The place of the first option with id `id` in `options`.
pub fn find_option_index(options: &Vec<SwapOption>, id: &String) -> (r: Option<usize>)
    ensures
        match r {
            Some(i) => i as int == option_index(options_view(options@), id@),
            None => option_index(options_view(options@), id@) == -1,
        },
{
    let ghost v = options_view(options@);
    let n = options.len();
    let mut i: usize = 0;
    while i < n
        invariant
            n == options@.len(),
            v == options_view(options@),
            i <= n,
            forall|j: int| 0 <= j < i ==> (#[trigger] v[j]).id != id@,
        decreases n - i,
    {
        if options[i].id == *id {
            proof {
                lemma_option_index_is_first(v, id@, i as int);
            }
            return Some(i);
        }
        i = i + 1;
    }
    proof {
        if exists|k: int| is_first_option(v, id@, k) {
            let k = choose|k: int| is_first_option(v, id@, k);
            assert(v[k].id == id@);
        }
    }
    None
}

// ================ Swap proposals ================ //

/// Lifecycle of a proposal:
/// `Created -> Deposited -> Fulfilled -> Redeemed`, or
/// `{Created, Deposited} -> Canceled -> Withdrawn`.
#[derive(Clone, Copy, Debug, PartialEq, Eq, Structural)]
pub enum SwapProposalStatus {
    Created,
    Deposited,
    Fulfilled,
    Canceled,
    Redeemed,
    Withdrawn,
}

/// The root record of one swap offer.
#[derive(Debug)]
pub struct SwapProposal {
    pub id: String,
    pub bump: u8,
    pub owner: Address,
    pub fulfilled_by: Address,
    pub fulfilled_with_option_id: String,
    pub offered_items: Vec<SwapItem>,
    pub swap_options: Vec<SwapOption>,
    pub expired_at: u64,
    pub status: SwapProposalStatus,
}

/// The mathematical value of a [`SwapProposal`].
pub struct SwapProposalView {
    pub id: Seq<char>,
    pub bump: u8,
    pub owner: Address,
    pub fulfilled_by: Address,
    pub fulfilled_with_option_id: Seq<char>,
    pub offered_items: Seq<SwapItemView>,
    pub swap_options: Seq<SwapOptionView>,
    pub expired_at: u64,
    pub status: SwapProposalStatus,
}

impl View for SwapProposal {
    type V = SwapProposalView;

    open spec fn view(&self) -> SwapProposalView {
        SwapProposalView {
            id: self.id@,
            bump: self.bump,
            owner: self.owner,
            fulfilled_by: self.fulfilled_by,
            fulfilled_with_option_id: self.fulfilled_with_option_id@,
            offered_items: items_view(self.offered_items@),
            swap_options: options_view(self.swap_options@),
            expired_at: self.expired_at,
            status: self.status,
        }
    }
}

impl SwapProposalView {
    pub open spec fn in_time_window(self, now: u64) -> bool {
        self.expired_at > now
    }

    pub open spec fn is_fulfilled_participant(self, signer: Address) -> bool {
        !self.fulfilled_by.spec_is_zero() && self.fulfilled_by == signer
    }

    /// Deposited by the owner, and no participant has claimed it yet.
    pub open spec fn open_for_participants(self, now: u64) -> bool {
        &&& self.in_time_window(now)
        &&& self.status == SwapProposalStatus::Deposited
        &&& self.fulfilled_by.spec_is_zero()
        &&& self.fulfilled_with_option_id.len() == 0
    }

    pub open spec fn open_for_depositing(self, now: u64) -> bool {
        self.in_time_window(now) && self.status == SwapProposalStatus::Created
    }

    /// `participant` may deposit the asking items of option `option_id`: the claim on
    /// the proposal is unset or already theirs, for that same option.
    pub open spec fn open_for_fulfilling(self, option_id: Seq<char>, participant: Address, now: u64) -> bool {
        &&& self.in_time_window(now)
        &&& self.status == SwapProposalStatus::Deposited
        &&& option_id.len() > 0
        &&& !participant.spec_is_zero()
        &&& participant != self.owner
        &&& (self.fulfilled_with_option_id == option_id || self.fulfilled_with_option_id.len() == 0)
        &&& (self.fulfilled_by == participant || self.fulfilled_by.spec_is_zero())
    }

    pub open spec fn redeemable(self) -> bool {
        self.status == SwapProposalStatus::Fulfilled
    }

    pub open spec fn withdrawable(self) -> bool {
        self.status == SwapProposalStatus::Canceled
    }

    /// Not yet redeemable, withdrawable or settled, and `signer` is a party to it.
    pub open spec fn cancelable_for(self, signer: Address) -> bool {
        &&& (self.status == SwapProposalStatus::Created || self.status
            == SwapProposalStatus::Deposited)
        &&& (self.owner == signer || self.is_fulfilled_participant(signer))
    }

    pub open spec fn fulfilled_option_index(self) -> int {
        option_index(self.swap_options, self.fulfilled_with_option_id)
    }

    /// Every offered item and every asking item of the fulfilled option is redeemed.
    pub open spec fn fully_redeemed(self) -> bool {
        let oi = self.fulfilled_option_index();
        &&& oi >= 0
        &&& all_items_have_status(self.offered_items, SwapItemStatus::Redeemed)
        &&& all_items_have_status(self.swap_options[oi].asking_items, SwapItemStatus::Redeemed)
    }

    /// Every item that was deposited, offered or asked by the fulfilled option, is withdrawn.
    pub open spec fn fully_withdrawn(self) -> bool {
        let oi = self.fulfilled_option_index();
        &&& all_deposits_withdrawn(self.offered_items)
        &&& (self.fulfilled_with_option_id.len() == 0 || (oi >= 0 && all_deposits_withdrawn(
            self.swap_options[oi].asking_items,
        )))
    }

    pub open spec fn with_status(self, s: SwapProposalStatus) -> SwapProposalView {
        SwapProposalView { status: s, ..self }
    }

    pub open spec fn with_offered_item(self, i: int, item: SwapItemView) -> SwapProposalView {
        SwapProposalView { offered_items: self.offered_items.update(i, item), ..self }
    }

    pub open spec fn with_asking_item(self, oi: int, ii: int, item: SwapItemView) -> SwapProposalView {
        SwapProposalView {
            swap_options: self.swap_options.update(
                oi,
                SwapOptionView {
                    asking_items: self.swap_options[oi].asking_items.update(ii, item),
                    ..self.swap_options[oi]
                },
            ),
            ..self
        }
    }

    /// `next` is this proposal with every item at most one step on: the same id,
    /// owner, expiry and options, each item the same asset.
    pub open spec fn items_advance_to(self, next: SwapProposalView) -> bool {
        &&& next.id == self.id
        &&& next.owner == self.owner
        &&& next.expired_at == self.expired_at
        &&& items_advance(self.offered_items, next.offered_items)
        &&& next.swap_options.len() == self.swap_options.len()
        &&& forall|oi: int|
            0 <= oi < self.swap_options.len() ==> (#[trigger] next.swap_options[oi]).id
                == self.swap_options[oi].id && items_advance(
                self.swap_options[oi].asking_items,
                next.swap_options[oi].asking_items,
            )
    }
}

impl SwapProposal {
    /// An empty proposal in status `Created`.
    pub fn default() -> (r: SwapProposal)
        ensures
            r@ == (SwapProposalView {
                id: Seq::<char>::empty(),
                bump: 0,
                owner: Address::spec_zero(),
                fulfilled_by: Address::spec_zero(),
                fulfilled_with_option_id: Seq::<char>::empty(),
                offered_items: Seq::<SwapItemView>::empty(),
                swap_options: Seq::<SwapOptionView>::empty(),
                expired_at: 0,
                status: SwapProposalStatus::Created,
            }),
    {
        let r = SwapProposal {
            bump: 0,
            id: String::new(),
            owner: Address::zero(),
            fulfilled_by: Address::zero(),
            fulfilled_with_option_id: String::new(),
            status: SwapProposalStatus::Created,
            offered_items: Vec::new(),
            swap_options: Vec::new(),
            expired_at: 0,
        };
        assert(r@.offered_items =~= Seq::<SwapItemView>::empty());
        assert(r@.swap_options =~= Seq::<SwapOptionView>::empty());
        r
    }

    /// Whether the proposal has not expired at time `now`.
    pub fn is_proposal_still_in_time_window(&self, now: u64) -> (r: bool)
        ensures
            r == self@.in_time_window(now),
    {
        self.expired_at > now
    }

    /// Whether `signer` created the proposal.
    pub fn is_proposal_owner(&self, signer: Address) -> (r: bool)
        ensures
            r == (self.owner == signer),
    {
        self.owner == signer
    }

    /// Whether `signer` is the participant who claimed the proposal.
    pub fn is_fulfilled_participant(&self, signer: Address) -> (r: bool)
        ensures
            r == self@.is_fulfilled_participant(signer),
    {
        !self.fulfilled_by.is_zero() && self.fulfilled_by == signer
    }

    /// Whether the proposal is deposited and still unclaimed at time `now`.
    pub fn is_proposal_open_for_participants(&self, now: u64) -> (r: bool)
        ensures
            r == self@.open_for_participants(now),
    {
        self.is_proposal_still_in_time_window(now) && self.status == SwapProposalStatus::Deposited
            && self.fulfilled_by.is_zero() && self.fulfilled_with_option_id.as_str().is_empty()
    }

    /// Whether `signer` may cancel the proposal.
    pub fn is_proposal_cancelable_for(&self, signer: Address, now: u64) -> (r: bool)
        ensures
            r == self@.cancelable_for(signer),
    {
        let settled = self.status == SwapProposalStatus::Redeemed || self.status
            == SwapProposalStatus::Withdrawn;
        !self.is_proposal_redeemable(now) && !self.is_proposal_withdrawable(now) && !settled && (
        self.owner == signer || self.is_fulfilled_participant(signer))
    }

    /// Whether the owner may deposit offered items at time `now`.
    pub fn is_proposal_open_for_depositing(&self, now: u64) -> (r: bool)
        ensures
            r == self@.open_for_depositing(now),
    {
        self.is_proposal_still_in_time_window(now) && self.status == SwapProposalStatus::Created
    }

    /// Whether `participant` may deposit the asking items of option `option_id` at time `now`.
    pub fn is_proposal_open_for_fulfilling(&self, option_id: &String, participant: Address, now: u64) -> (r: bool)
        ensures
            r == self@.open_for_fulfilling(option_id@, participant, now),
    {
        self.is_proposal_still_in_time_window(now) && self.status == SwapProposalStatus::Deposited
            && !option_id.as_str().is_empty() && !participant.is_zero() && participant != self.owner && (
        self.fulfilled_with_option_id == *option_id || self.fulfilled_with_option_id.as_str().is_empty())
            && (self.fulfilled_by == participant || self.fulfilled_by.is_zero())
    }

    /// Whether the swap is complete and its items may be redeemed.
    pub fn is_proposal_redeemable(&self, now: u64) -> (r: bool)
        ensures
            r == self@.redeemable(),
    {
        !self.is_proposal_open_for_participants(now) && self.status == SwapProposalStatus::Fulfilled
    }

    /// Whether the swap was canceled and its deposits may be withdrawn.
    pub fn is_proposal_withdrawable(&self, now: u64) -> (r: bool)
        ensures
            r == self@.withdrawable(),
    {
        !self.is_proposal_open_for_participants(now) && self.status == SwapProposalStatus::Canceled
    }

    /// Moves the proposal to `Redeemed` once every offered item and every asking
    /// item of the fulfilled option is redeemed.
    pub fn update_redeemed_status(&mut self) -> (r: Result<(), SwapError>)
        ensures
            old(self)@.fulfilled_option_index() < 0 ==> r == Err::<(), SwapError>(
                SwapError::RedeemIsNotAvailable,
            ) && *final(self) == *old(self),
            old(self)@.fulfilled_option_index() >= 0 ==> r is Ok && final(self)@ == old(
                self,
            )@.with_status(
                if old(self)@.fully_redeemed() {
                    SwapProposalStatus::Redeemed
                } else {
                    old(self)@.status
                },
            ),
    {
        let found = find_option_index(&self.swap_options, &self.fulfilled_with_option_id);
        let oi = match found {
            Some(oi) => oi,
            None => {
                return Err(SwapError::RedeemIsNotAvailable);
            },
        };
        let all_offered_items_redeemed = all_items_with_status(
            &self.offered_items,
            SwapItemStatus::Redeemed,
        );
        let all_asking_items_redeemed = all_items_with_status(
            &self.swap_options[oi].asking_items,
            SwapItemStatus::Redeemed,
        );
        if all_offered_items_redeemed && all_asking_items_redeemed {
            self.status = SwapProposalStatus::Redeemed;
        }
        Ok(())
    }

    /// Moves the proposal to `Withdrawn` once every deposited item, offered or
    /// asked by the fulfilled option, is withdrawn.
    pub fn update_withdrawn_status(&mut self) -> (r: Result<(), SwapError>)
        ensures
            old(self)@.fulfilled_with_option_id.len() > 0 && old(self)@.fulfilled_option_index()
                < 0 ==> r == Err::<(), SwapError>(SwapError::WithdrawalIsNotAvailable)
                && *final(self) == *old(self),
            old(self)@.fulfilled_with_option_id.len() == 0 || old(self)@.fulfilled_option_index()
                >= 0 ==> r is Ok && final(self)@ == old(self)@.with_status(
                if old(self)@.fully_withdrawn() {
                    SwapProposalStatus::Withdrawn
                } else {
                    old(self)@.status
                },
            ),
    {
        let mut all_asking_items_withdrawn = true;
        if !self.fulfilled_with_option_id.as_str().is_empty() {
            let found = find_option_index(&self.swap_options, &self.fulfilled_with_option_id);
            match found {
                Some(oi) => {
                    all_asking_items_withdrawn = all_items_withdrawn_or_untouched(
                        &self.swap_options[oi].asking_items,
                    );
                },
                None => {
                    return Err(SwapError::WithdrawalIsNotAvailable);
                },
            }
        }
        let all_offered_items_withdrawn = all_items_withdrawn_or_untouched(&self.offered_items);
        if all_asking_items_withdrawn && all_offered_items_withdrawn {
            self.status = SwapProposalStatus::Withdrawn;
        }
        Ok(())
    }
}

impl SwapProposal {
    /// Replaces the status of offered item `i`.
    pub(crate) fn set_offered_item_status(&mut self, i: usize, s: SwapItemStatus)
        requires
            i < old(self).offered_items@.len(),
        ensures
            final(self)@ == old(self)@.with_offered_item(
                i as int,
                old(self)@.offered_items[i as int].with_status(s),
            ),
    {
        self.offered_items[i].status = s;
        proof {
            assert(self@.offered_items =~= old(self)@.offered_items.update(
                i as int,
                old(self)@.offered_items[i as int].with_status(s),
            ));
        }
    }

    /// Replaces the status and the owner of asking item `ii` of option `oi`.
    pub(crate) fn set_asking_item(&mut self, oi: usize, ii: usize, s: SwapItemStatus, owner: Address)
        requires
            oi < old(self).swap_options@.len(),
            ii < old(self).swap_options@[oi as int].asking_items@.len(),
        ensures
            final(self)@ == old(self)@.with_asking_item(
                oi as int,
                ii as int,
                SwapItemView { status: s, owner: owner, ..old(self)@.swap_options[oi as int].asking_items[ii as int] },
            ),
    {
        let ghost item = SwapItemView {
            status: s,
            owner: owner,
            ..old(self)@.swap_options[oi as int].asking_items[ii as int]
        };
        self.swap_options[oi].asking_items[ii].status = s;
        self.swap_options[oi].asking_items[ii].owner = owner;
        proof {
            let target = old(self)@.with_asking_item(oi as int, ii as int, item);
            assert(self@.swap_options[oi as int].asking_items =~= target.swap_options[oi as int].asking_items);
            assert(self@.swap_options =~= target.swap_options);
        }
    }
}

pub proof fn lemma_advance_offered(p: SwapProposalView, i: int, item: SwapItemView)
    requires
        0 <= i < p.offered_items.len(),
        p.offered_items[i].advances_to(item),
    ensures
        p.items_advance_to(p.with_offered_item(i, item)),
{
    let q = p.with_offered_item(i, item);
    assert forall|j: int| 0 <= j < p.offered_items.len() implies (#[trigger] p.offered_items[j]).advances_to(
        q.offered_items[j],
    ) by {
        if j != i {
            assert(q.offered_items[j] == p.offered_items[j]);
        }
    }
}

pub proof fn lemma_advance_asking(p: SwapProposalView, oi: int, ii: int, item: SwapItemView)
    requires
        0 <= oi < p.swap_options.len(),
        0 <= ii < p.swap_options[oi].asking_items.len(),
        p.swap_options[oi].asking_items[ii].advances_to(item),
    ensures
        p.items_advance_to(p.with_asking_item(oi, ii, item)),
{
    let q = p.with_asking_item(oi, ii, item);
    assert forall|k: int| 0 <= k < p.swap_options.len() implies (#[trigger] q.swap_options[k]).id
        == p.swap_options[k].id && items_advance(
        p.swap_options[k].asking_items,
        q.swap_options[k].asking_items,
    ) by {
        if k == oi {
            let a = p.swap_options[k].asking_items;
            let b = q.swap_options[k].asking_items;
            assert forall|j: int| 0 <= j < a.len() implies (#[trigger] a[j]).advances_to(b[j]) by {
                if j != ii {
                    assert(b[j] == a[j]);
                }
            }
        } else {
            assert(q.swap_options[k] == p.swap_options[k]);
        }
    }
}

/// Two option lists with the same ids in the same places find the same option for any id.
pub proof fn lemma_option_index_same_ids(a: Seq<SwapOptionView>, b: Seq<SwapOptionView>, id: Seq<char>)
    requires
        a.len() == b.len(),
        forall|k: int| 0 <= k < a.len() ==> (#[trigger] a[k]).id == b[k].id,
    ensures
        option_index(a, id) == option_index(b, id),
{
    let ia = option_index(a, id);
    let ib = option_index(b, id);
    if ia >= 0 {
        assert(is_first_option(a, id, ia));
        assert forall|j: int| 0 <= j < ia implies (#[trigger] b[j]).id != id by {
            assert(a[j].id != id);
        }
        assert(is_first_option(b, id, ia));
        lemma_option_index_is_first(b, id, ia);
    } else if ib >= 0 {
        assert(is_first_option(b, id, ib));
        assert forall|j: int| 0 <= j < ib implies (#[trigger] a[j]).id != id by {
            assert(b[j].id != id);
        }
        assert(is_first_option(a, id, ib));
        lemma_option_index_is_first(a, id, ib);
    }
}

/// Changing one asking item keeps the fulfilled option where it was.
pub proof fn lemma_asking_update_keeps_option(p: SwapProposalView, oi: int, ii: int, item: SwapItemView)
    requires
        0 <= oi < p.swap_options.len(),
    ensures
        p.with_asking_item(oi, ii, item).fulfilled_option_index() == p.fulfilled_option_index(),
{
    let q = p.with_asking_item(oi, ii, item);
    assert forall|k: int| 0 <= k < p.swap_options.len() implies (#[trigger] p.swap_options[k]).id
        == q.swap_options[k].id by {
    }
    lemma_option_index_same_ids(p.swap_options, q.swap_options, p.fulfilled_with_option_id);
}

impl SwapItemView {
    /// `later` is this item after any number of steps.
    pub open spec fn reaches(self, later: SwapItemView) -> bool {
        &&& later.id == self.id
        &&& later.mint_account == self.mint_account
        &&& later.amount == self.amount
        &&& later.item_type == self.item_type
        &&& status_reachable(self.status, later.status)
    }
}

/// Every item of `later` is the item at the same place of `items`, any number of steps on.
pub open spec fn items_reach(items: Seq<SwapItemView>, later: Seq<SwapItemView>) -> bool {
    &&& later.len() == items.len()
    &&& forall|i: int| 0 <= i < items.len() ==> (#[trigger] items[i]).reaches(later[i])
}

impl SwapProposalView {
    /// `later` is this proposal with every item any number of steps on.
    pub open spec fn items_reach(self, later: SwapProposalView) -> bool {
        &&& later.id == self.id
        &&& later.owner == self.owner
        &&& later.expired_at == self.expired_at
        &&& items_reach(self.offered_items, later.offered_items)
        &&& later.swap_options.len() == self.swap_options.len()
        &&& forall|oi: int|
            0 <= oi < self.swap_options.len() ==> (#[trigger] later.swap_options[oi]).id
                == self.swap_options[oi].id && items_reach(
                self.swap_options[oi].asking_items,
                later.swap_options[oi].asking_items,
            )
    }
}

/// An item's status only moves forward along `Created -> Deposited -> {Redeemed |
/// Withdrawn}`: a step never goes back, never skips `Deposited` and never leaves a
/// terminal status, and steps compose into forward progress that cannot return.
pub proof fn lemma_status_only_moves_forward(a: SwapItemStatus, b: SwapItemStatus, c: SwapItemStatus)
    ensures
        status_advances(a, b) ==> status_reachable(a, b),
        status_reachable(a, b) && status_reachable(b, c) ==> status_reachable(a, c),
        status_reachable(a, b) && status_reachable(b, a) ==> a == b,
        status_advances(SwapItemStatus::Created, b) ==> b == SwapItemStatus::Created || b
            == SwapItemStatus::Deposited,
        (a == SwapItemStatus::Redeemed || a == SwapItemStatus::Withdrawn) && status_advances(a, b)
            ==> b == a,
{
}

/// Over any run of operations, each of which moves items at most one step, every
/// item of the proposal only moves forward.
pub proof fn lemma_proposal_items_only_move_forward(
    p: SwapProposalView,
    q: SwapProposalView,
    r: SwapProposalView,
)
    ensures
        p.items_advance_to(q) ==> p.items_reach(q),
        p.items_reach(q) && q.items_reach(r) ==> p.items_reach(r),
        p.items_reach(q) && q.items_reach(p) ==> forall|i: int|
            0 <= i < p.offered_items.len() ==> (#[trigger] q.offered_items[i]).status
                == p.offered_items[i].status,
{
    if p.items_advance_to(q) {
        assert forall|oi: int| 0 <= oi < p.swap_options.len() implies (#[trigger] q.swap_options[oi]).id
            == p.swap_options[oi].id && items_reach(
            p.swap_options[oi].asking_items,
            q.swap_options[oi].asking_items,
        ) by {
            assert(items_advance(p.swap_options[oi].asking_items, q.swap_options[oi].asking_items));
        }
    }
    if p.items_reach(q) && q.items_reach(r) {
        assert forall|oi: int| 0 <= oi < p.swap_options.len() implies (#[trigger] r.swap_options[oi]).id
            == p.swap_options[oi].id && items_reach(
            p.swap_options[oi].asking_items,
            r.swap_options[oi].asking_items,
        ) by {
            assert(items_reach(p.swap_options[oi].asking_items, q.swap_options[oi].asking_items));
            assert(items_reach(q.swap_options[oi].asking_items, r.swap_options[oi].asking_items));
            let a = p.swap_options[oi].asking_items;
            let b = q.swap_options[oi].asking_items;
            let c = r.swap_options[oi].asking_items;
            assert forall|i: int| 0 <= i < a.len() implies (#[trigger] a[i]).reaches(c[i]) by {
                assert(a[i].reaches(b[i]));
                assert(b[i].reaches(c[i]));
            }
        }
        assert forall|i: int| 0 <= i < p.offered_items.len() implies (#[trigger] p.offered_items[i]).reaches(
            r.offered_items[i],
        ) by {
            assert(p.offered_items[i].reaches(q.offered_items[i]));
            assert(q.offered_items[i].reaches(r.offered_items[i]));
        }
    }
    if p.items_reach(q) && q.items_reach(p) {
        assert forall|i: int| 0 <= i < p.offered_items.len() implies (#[trigger] q.offered_items[i]).status
            == p.offered_items[i].status by {
            assert(p.offered_items[i].reaches(q.offered_items[i]));
            assert(q.offered_items[i].reaches(p.offered_items[i]));
        }
    }
}

/// At least one item, and every item of a positive amount.
pub open spec fn items_well_formed(items: Seq<SwapItemView>) -> bool {
    &&& items.len() >= 1
    &&& forall|i: int| 0 <= i < items.len() ==> (#[trigger] items[i]).amount > 0
}

impl SwapProposalView {
    /// The shape that creation checks and that every later operation keeps: an id,
    /// an owner, at least one offered item and one option, each option with at
    /// least one asking item, and every amount positive.
    pub open spec fn wf(self) -> bool {
        &&& self.id.len() > 0
        &&& !self.owner.spec_is_zero()
        &&& items_well_formed(self.offered_items)
        &&& self.swap_options.len() >= 1
        &&& forall|oi: int|
            0 <= oi < self.swap_options.len() ==> items_well_formed(
                (#[trigger] self.swap_options[oi]).asking_items,
            )
    }
}

/// Moving items forward keeps a proposal well formed.
pub proof fn lemma_advance_preserves_wf(p: SwapProposalView, q: SwapProposalView)
    requires
        p.wf(),
        p.items_advance_to(q),
    ensures
        q.wf(),
{
    assert forall|i: int| 0 <= i < q.offered_items.len() implies (#[trigger] q.offered_items[i]).amount
        > 0 by {
        assert(p.offered_items[i].advances_to(q.offered_items[i]));
    }
    assert forall|oi: int| 0 <= oi < q.swap_options.len() implies items_well_formed(
        (#[trigger] q.swap_options[oi]).asking_items,
    ) by {
        let a = p.swap_options[oi].asking_items;
        let b = q.swap_options[oi].asking_items;
        assert(items_well_formed(a));
        assert(items_advance(a, b));
        assert forall|i: int| 0 <= i < b.len() implies (#[trigger] b[i]).amount > 0 by {
            assert(a[i].advances_to(b[i]));
        }
    }
}

/// No item of `items` has been redeemed.
pub open spec fn none_redeemed(items: Seq<SwapItemView>) -> bool {
    forall|i: int| 0 <= i < items.len() ==> (#[trigger] items[i]).status != SwapItemStatus::Redeemed
}

impl SwapProposalView {
    pub open spec fn no_item_redeemed(self) -> bool {
        &&& none_redeemed(self.offered_items)
        &&& forall|oi: int|
            0 <= oi < self.swap_options.len() ==> none_redeemed(
                (#[trigger] self.swap_options[oi]).asking_items,
            )
    }

    /// The proposal is `Redeemed` exactly when every offered item and every asking
    /// item of the fulfilled option is, no item is redeemed before the swap is
    /// complete, and a `Withdrawn` proposal has every deposited item withdrawn.
    pub open spec fn settlement_consistent(self) -> bool {
        &&& (self.status == SwapProposalStatus::Redeemed <==> self.fully_redeemed())
        &&& (self.status != SwapProposalStatus::Fulfilled && self.status
            != SwapProposalStatus::Redeemed ==> self.no_item_redeemed())
        &&& (self.status == SwapProposalStatus::Withdrawn ==> self.fully_withdrawn())
    }
}

/// A well-formed proposal with no redeemed item is not fully redeemed.
pub proof fn lemma_unredeemed_is_not_fully_redeemed(p: SwapProposalView)
    requires
        p.wf(),
        p.no_item_redeemed(),
    ensures
        !p.fully_redeemed(),
{
    assert(p.offered_items[0].status != SwapItemStatus::Redeemed);
}

/// Replacing an offered item by one that is not redeemed keeps the proposal free of redeemed items.
pub proof fn lemma_offered_update_unredeemed(p: SwapProposalView, i: int, item: SwapItemView)
    requires
        p.no_item_redeemed(),
        0 <= i < p.offered_items.len(),
        item.status != SwapItemStatus::Redeemed,
    ensures
        p.with_offered_item(i, item).no_item_redeemed(),
{
    let q = p.with_offered_item(i, item);
    assert forall|j: int| 0 <= j < q.offered_items.len() implies (#[trigger] q.offered_items[j]).status
        != SwapItemStatus::Redeemed by {
        if j != i {
            assert(q.offered_items[j] == p.offered_items[j]);
        }
    }
    assert forall|oi: int| 0 <= oi < q.swap_options.len() implies none_redeemed(
        (#[trigger] q.swap_options[oi]).asking_items,
    ) by {
        assert(q.swap_options[oi] == p.swap_options[oi]);
    }
}

/// Replacing an asking item by one that is not redeemed keeps the proposal free of redeemed items.
pub proof fn lemma_asking_update_unredeemed(p: SwapProposalView, oi: int, ii: int, item: SwapItemView)
    requires
        p.no_item_redeemed(),
        0 <= oi < p.swap_options.len(),
        0 <= ii < p.swap_options[oi].asking_items.len(),
        item.status != SwapItemStatus::Redeemed,
    ensures
        p.with_asking_item(oi, ii, item).no_item_redeemed(),
{
    let q = p.with_asking_item(oi, ii, item);
    assert(q.offered_items == p.offered_items);
    assert forall|k: int| 0 <= k < q.swap_options.len() implies none_redeemed(
        (#[trigger] q.swap_options[k]).asking_items,
    ) by {
        if k == oi {
            let a = p.swap_options[k].asking_items;
            let b = q.swap_options[k].asking_items;
            assert(none_redeemed(a));
            assert forall|j: int| 0 <= j < b.len() implies (#[trigger] b[j]).status
                != SwapItemStatus::Redeemed by {
                if j != ii {
                    assert(b[j] == a[j]);
                }
            }
        } else {
            assert(q.swap_options[k] == p.swap_options[k]);
        }
    }
}

} // verus!
