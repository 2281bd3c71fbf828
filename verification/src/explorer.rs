//! What a viewer of the chain works with: the summary of a block, the tabs,
//! and the selection that the arrow keys move.

use vstd::prelude::*;
use vstd::string::*;
use crate::block::Block;

verus! {

/// The size that is shown for every block, in bytes.
pub const ESTIMATED_BLOCK_SIZE: usize = 512;

/// How far the content of a tab without a list scrolls.
pub const CONTENT_SCROLL_LIMIT: usize = 10;

/// The summary of a block.
#[derive(Debug)]
pub struct BlockInfo {
    /// Number of the block.
    pub id: u64,
    /// Hash of the header.
    pub hash: String,
    /// Hash of the block before.
    pub parent_hash: String,
    /// Seconds since the Unix epoch.
    pub timestamp: u64,
    /// How many transactions the block holds.
    pub transactions_count: usize,
    /// Required number of leading zeros of the hash.
    pub difficulty: u64,
    /// The nonce that was found.
    pub nonce: u64,
    /// Estimated size.
    pub size_bytes: usize,
    /// The timestamp as it is shown.
    pub formatted_time: String,
    /// Name of the network.
    pub network_name: String,
    /// Version of the block format.
    pub version: String,
}

impl BlockInfo {
    /// Whether the summary is that of `block`.
    pub open spec fn describes(&self, block: &Block) -> bool {
        &&& self.id == block.id
        &&& self.hash@ == block.hash@
        &&& self.parent_hash@ == block.parent_hash@
        &&& self.timestamp == block.timestamp
        &&& self.transactions_count == block.transactions@.len()
        &&& self.difficulty == block.difficulty
        &&& self.nonce == block.nonce
        &&& self.size_bytes == ESTIMATED_BLOCK_SIZE
        &&& self.formatted_time@ == block.formatted_time@
        &&& self.network_name@ == block.network_name@
        &&& self.version@ == block.version@
    }

    /// The summary of `block`.
    pub fn from_block(block: &Block) -> (info: Self)
        ensures
            info.describes(block),
    {
        BlockInfo {
            id: block.id,
            hash: block.hash.clone(),
            parent_hash: block.parent_hash.clone(),
            timestamp: block.timestamp,
            transactions_count: block.transactions.len(),
            difficulty: block.difficulty,
            nonce: block.nonce,
            size_bytes: ESTIMATED_BLOCK_SIZE,
            formatted_time: block.formatted_time.clone(),
            network_name: block.network_name.clone(),
            version: block.version.clone(),
        }
    }
}

/// The summaries of `blocks`, in order.
pub fn block_infos(blocks: &[Block]) -> (infos: Vec<BlockInfo>)
    ensures
        infos@.len() == blocks@.len(),
        forall|i: int| 0 <= i < blocks@.len() ==> (#[trigger] infos@[i]).describes(&blocks@[i]),
{
    let mut infos: Vec<BlockInfo> = Vec::new();
    let mut at: usize = 0;
    while at < blocks.len()
        invariant
            at <= blocks@.len(),
            infos@.len() == at,
            forall|i: int| 0 <= i < at ==> (#[trigger] infos@[i]).describes(&blocks@[i]),
        decreases blocks@.len() - at,
    {
        infos.push(BlockInfo::from_block(&blocks[at]));
        at += 1;
    }
    infos
}

/// Tab enumeration for navigation.
#[derive(Clone, Copy, Debug, PartialEq, Eq, Hash, Structural)]
pub enum Tab {
    /// The list of blocks.
    Blocks,
    /// The pool.
    Amm,
    /// The list of wallets.
    Wallets,
    /// The system wallet.
    SystemWallet,
}

/// The tab to the right of `tab`; after the last comes the first.
pub open spec fn tab_after(tab: Tab) -> Tab {
    match tab {
        Tab::Blocks => Tab::Amm,
        Tab::Amm => Tab::Wallets,
        Tab::Wallets => Tab::SystemWallet,
        Tab::SystemWallet => Tab::Blocks,
    }
}

/// The tab to the left of `tab`; before the first comes the last.
pub open spec fn tab_before(tab: Tab) -> Tab {
    match tab {
        Tab::Blocks => Tab::SystemWallet,
        Tab::Amm => Tab::Blocks,
        Tab::Wallets => Tab::Amm,
        Tab::SystemWallet => Tab::Wallets,
    }
}

/// Going right and then left, or left and then right, leads back; so do
/// four steps in one direction.
pub proof fn lemma_tabs_form_a_ring(tab: Tab)
    ensures
        tab_before(tab_after(tab)) == tab,
        tab_after(tab_before(tab)) == tab,
        tab_after(tab_after(tab_after(tab_after(tab)))) == tab,
        tab_after(tab) != tab,
{
}

impl Tab {
    /// The tab to the right.
    pub fn next(self) -> (tab: Self)
        ensures
            tab == tab_after(self),
    {
        match self {
            Tab::Blocks => Tab::Amm,
            Tab::Amm => Tab::Wallets,
            Tab::Wallets => Tab::SystemWallet,
            Tab::SystemWallet => Tab::Blocks,
        }
    }

    /// The tab to the left.
    pub fn previous(self) -> (tab: Self)
        ensures
            tab == tab_before(self),
    {
        match self {
            Tab::Blocks => Tab::SystemWallet,
            Tab::Amm => Tab::Blocks,
            Tab::Wallets => Tab::Amm,
            Tab::SystemWallet => Tab::Wallets,
        }
    }

    /// The title of the tab.
    pub fn title(self) -> (text: &'static str)
        ensures
            text@ == (match self {
                Tab::Blocks => "BLOCKS"@,
                Tab::Amm => "AMM POOL"@,
                Tab::Wallets => "WALLETS"@,
                Tab::SystemWallet => "SYSTEM"@,
            }),
    {
        match self {
            Tab::Blocks => "BLOCKS",
            Tab::Amm => "AMM POOL",
            Tab::Wallets => "WALLETS",
            Tab::SystemWallet => "SYSTEM",
        }
    }
}

/// A key that the viewer acts on.
#[derive(Clone, Copy, Debug, PartialEq, Eq, Structural)]
pub enum ExplorerKey {
    /// Leave the viewer.
    Quit,
    /// Go to the tab on the right.
    NextTab,
    /// Go to the tab on the left.
    PreviousTab,
    /// Move the selection up.
    Up,
    /// Move the selection down.
    Down,
    /// Any other key.
    Other,
}

/// `index` where it is a position in a list of `count` items, else the last
/// position, or zero in an empty list.
pub open spec fn clamped(index: usize, count: usize) -> usize {
    if count == 0 {
        0
    } else if index > count - 1 {
        (count - 1) as usize
    } else {
        index
    }
}

/// `value` less one, but not below zero.
pub open spec fn one_up(value: usize) -> usize {
    if value > 0 {
        (value - 1) as usize
    } else {
        0
    }
}

/// `value` plus one, but not beyond `limit`.
pub open spec fn one_down(value: usize, limit: usize) -> usize {
    if value < limit {
        (value + 1) as usize
    } else {
        value
    }
}

/// The first item that is shown of a list in which `selected` is selected
/// and `visible` items fit: the list is moved just far enough for the
/// selected item to be the last one shown.
pub open spec fn window_start(selected: usize, visible: usize) -> usize {
    if selected >= visible {
        (selected - visible + 1) as usize
    } else {
        0
    }
}

/// The first item that is shown of a list.
pub fn first_visible(selected: usize, visible: usize) -> (first: usize)
    requires
        selected < usize::MAX,
    ensures
        first == window_start(selected, visible),
        visible > 0 ==> first <= selected < first + visible,
{
    if selected >= visible {
        selected - visible + 1
    } else {
        0
    }
}

/// Explorer application state: the tab that is shown and the selection in
/// each tab.
#[derive(Clone, Copy, Debug, PartialEq, Eq, Structural)]
pub struct ExplorerState {
    /// The tab that is shown.
    pub current_tab: Tab,
    /// How far the pool's tab is scrolled.
    pub amm_scroll: usize,
    /// How far the system wallet's tab is scrolled.
    pub system_scroll: usize,
    /// The block that is selected.
    pub selected_block_index: usize,
    /// The wallet that is selected.
    pub selected_wallet_index: usize,
}

impl ExplorerState {
    /// The state after the selection moved up by one.
    pub open spec fn scrolled_up(self) -> ExplorerState {
        match self.current_tab {
            Tab::Blocks => ExplorerState {
                selected_block_index: one_up(self.selected_block_index),
                ..self
            },
            Tab::Wallets => ExplorerState {
                selected_wallet_index: one_up(self.selected_wallet_index),
                ..self
            },
            Tab::Amm => ExplorerState { amm_scroll: one_up(self.amm_scroll), ..self },
            Tab::SystemWallet => ExplorerState { system_scroll: one_up(self.system_scroll), ..self },
        }
    }

    /// The state after the selection moved down by one, with the given
    /// numbers of blocks and wallets in the lists.
    pub open spec fn scrolled_down(self, block_count: usize, wallet_count: usize) -> ExplorerState {
        match self.current_tab {
            Tab::Blocks => ExplorerState {
                selected_block_index: if block_count == 0 {
                    self.selected_block_index
                } else {
                    one_down(self.selected_block_index, (block_count - 1) as usize)
                },
                ..self
            },
            Tab::Wallets => ExplorerState {
                selected_wallet_index: if wallet_count == 0 {
                    self.selected_wallet_index
                } else {
                    one_down(self.selected_wallet_index, (wallet_count - 1) as usize)
                },
                ..self
            },
            Tab::Amm => ExplorerState {
                amm_scroll: one_down(self.amm_scroll, CONTENT_SCROLL_LIMIT),
                ..self
            },
            Tab::SystemWallet => ExplorerState {
                system_scroll: one_down(self.system_scroll, CONTENT_SCROLL_LIMIT),
                ..self
            },
        }
    }

    /// The state with both selections brought back into their lists.
    pub open spec fn validated(self, block_count: usize, wallet_count: usize) -> ExplorerState {
        ExplorerState {
            selected_block_index: clamped(self.selected_block_index, block_count),
            selected_wallet_index: clamped(self.selected_wallet_index, wallet_count),
            ..self
        }
    }

    /// The state after `key` was pressed.
    pub open spec fn after_key(self, key: ExplorerKey, block_count: usize, wallet_count: usize) -> ExplorerState {
        match key {
            ExplorerKey::NextTab => (ExplorerState {
                current_tab: tab_after(self.current_tab),
                ..self
            }).validated(block_count, wallet_count),
            ExplorerKey::PreviousTab => (ExplorerState {
                current_tab: tab_before(self.current_tab),
                ..self
            }).validated(block_count, wallet_count),
            ExplorerKey::Up => self.scrolled_up(),
            ExplorerKey::Down => self.scrolled_down(block_count, wallet_count),
            ExplorerKey::Quit => self,
            ExplorerKey::Other => self,
        }
    }

    /// Whether both selections lie inside their lists (at zero where a list
    /// is empty).
    pub open spec fn in_bounds(self, block_count: usize, wallet_count: usize) -> bool {
        &&& self.selected_block_index == clamped(self.selected_block_index, block_count)
        &&& self.selected_wallet_index == clamped(self.selected_wallet_index, wallet_count)
    }

    /// The state at the start: the first tab, everything at the top.
    pub fn new() -> (state: Self)
        ensures
            state == (ExplorerState {
                current_tab: Tab::Blocks,
                amm_scroll: 0,
                system_scroll: 0,
                selected_block_index: 0,
                selected_wallet_index: 0,
            }),
    {
        ExplorerState {
            current_tab: Tab::Blocks,
            amm_scroll: 0,
            system_scroll: 0,
            selected_block_index: 0,
            selected_wallet_index: 0,
        }
    }

    /// Moves the selection of the current tab up by one.
    pub fn scroll_up(&mut self)
        ensures
            *final(self) == old(self).scrolled_up(),
    {
        match self.current_tab {
            Tab::Blocks => {
                if self.selected_block_index > 0 {
                    self.selected_block_index -= 1;
                }
            },
            Tab::Wallets => {
                if self.selected_wallet_index > 0 {
                    self.selected_wallet_index -= 1;
                }
            },
            Tab::Amm => {
                if self.amm_scroll > 0 {
                    self.amm_scroll -= 1;
                }
            },
            Tab::SystemWallet => {
                if self.system_scroll > 0 {
                    self.system_scroll -= 1;
                }
            },
        }
    }

    /// Moves the selection of the current tab down by one, but not beyond
    /// the end of its list.
    pub fn scroll_down(&mut self, block_count: usize, wallet_count: usize)
        ensures
            *final(self) == old(self).scrolled_down(block_count, wallet_count),
    {
        match self.current_tab {
            Tab::Blocks => {
                if block_count > 0 {
                    let max_index = block_count - 1;
                    if self.selected_block_index < max_index {
                        self.selected_block_index += 1;
                    }
                }
            },
            Tab::Wallets => {
                if wallet_count > 0 {
                    let max_index = wallet_count - 1;
                    if self.selected_wallet_index < max_index {
                        self.selected_wallet_index += 1;
                    }
                }
            },
            Tab::Amm => {
                if self.amm_scroll < CONTENT_SCROLL_LIMIT {
                    self.amm_scroll += 1;
                }
            },
            Tab::SystemWallet => {
                if self.system_scroll < CONTENT_SCROLL_LIMIT {
                    self.system_scroll += 1;
                }
            },
        }
    }

    /// Ensure selection indices are valid for current data.
    pub fn validate_selection_indices(&mut self, block_count: usize, wallet_count: usize)
        ensures
            *final(self) == old(self).validated(block_count, wallet_count),
            final(self).in_bounds(block_count, wallet_count),
    {
        if block_count > 0 {
            let max_block_index = block_count - 1;
            if self.selected_block_index > max_block_index {
                self.selected_block_index = max_block_index;
            }
        } else {
            self.selected_block_index = 0;
        }
        if wallet_count > 0 {
            let max_wallet_index = wallet_count - 1;
            if self.selected_wallet_index > max_wallet_index {
                self.selected_wallet_index = max_wallet_index;
            }
        } else {
            self.selected_wallet_index = 0;
        }
    }

    /// Acts on a key. Tells whether the viewer goes on: every key but
    /// `Quit` lets it.
    pub fn on_key(&mut self, key: ExplorerKey, block_count: usize, wallet_count: usize) -> (goes_on:
        bool)
        ensures
            *final(self) == old(self).after_key(key, block_count, wallet_count),
            goes_on == (key != ExplorerKey::Quit),
            old(self).in_bounds(block_count, wallet_count) ==> final(self).in_bounds(
                block_count,
                wallet_count,
            ),
    {
        match key {
            ExplorerKey::Quit => {
                return false;
            },
            ExplorerKey::NextTab => {
                self.current_tab = self.current_tab.next();
                self.validate_selection_indices(block_count, wallet_count);
            },
            ExplorerKey::PreviousTab => {
                self.current_tab = self.current_tab.previous();
                self.validate_selection_indices(block_count, wallet_count);
            },
            ExplorerKey::Up => {
                self.scroll_up();
            },
            ExplorerKey::Down => {
                self.scroll_down(block_count, wallet_count);
            },
            ExplorerKey::Other => {},
        }
        true
    }
}

} // verus!
