use zux_chain::explorer::ExplorerKey;
use zux_chain::explorer::ExplorerState;
use zux_chain::explorer::Tab;

#[test]
fn tabs_go_round_to_the_right() {
    assert_eq!(Tab::Blocks.next(), Tab::Amm);
    assert_eq!(Tab::Amm.next(), Tab::Wallets);
    assert_eq!(Tab::Wallets.next(), Tab::SystemWallet);
    assert_eq!(Tab::SystemWallet.next(), Tab::Blocks);
}

#[test]
fn tabs_go_round_to_the_left() {
    assert_eq!(Tab::Blocks.previous(), Tab::SystemWallet);
    assert_eq!(Tab::Amm.previous(), Tab::Blocks);
    assert_eq!(Tab::Wallets.previous(), Tab::Amm);
    assert_eq!(Tab::SystemWallet.previous(), Tab::Wallets);
}

#[test]
fn left_undoes_right() {
    for tab in [Tab::Blocks, Tab::Amm, Tab::Wallets, Tab::SystemWallet] {
        assert_eq!(tab.next().previous(), tab);
        assert_eq!(tab.previous().next(), tab);
        assert_eq!(tab.next().next().next().next(), tab);
    }
}

#[test]
fn tabs_have_titles() {
    assert_eq!(Tab::Blocks.title(), "BLOCKS");
    assert_eq!(Tab::Amm.title(), "AMM POOL");
    assert_eq!(Tab::Wallets.title(), "WALLETS");
    assert_eq!(Tab::SystemWallet.title(), "SYSTEM");
}

#[test]
fn viewer_starts_on_the_first_tab_at_the_top() {
    let state = ExplorerState::new();
    assert_eq!(state.current_tab, Tab::Blocks);
    assert_eq!(state.selected_block_index, 0);
    assert_eq!(state.selected_wallet_index, 0);
    assert_eq!(state.amm_scroll, 0);
    assert_eq!(state.system_scroll, 0);
}

#[test]
fn selection_moves_within_the_list_of_blocks() {
    let mut state = ExplorerState::new();
    state.scroll_up();
    assert_eq!(state.selected_block_index, 0);
    state.scroll_down(3, 9);
    state.scroll_down(3, 9);
    assert_eq!(state.selected_block_index, 2);
    state.scroll_down(3, 9);
    assert_eq!(state.selected_block_index, 2);
    assert_eq!(state.selected_wallet_index, 0);
    state.scroll_up();
    assert_eq!(state.selected_block_index, 1);
}

#[test]
fn selection_in_an_empty_list_stays() {
    let mut state = ExplorerState::new();
    state.scroll_down(0, 0);
    assert_eq!(state.selected_block_index, 0);
    state.current_tab = Tab::Wallets;
    state.selected_wallet_index = 4;
    state.scroll_down(0, 0);
    assert_eq!(state.selected_wallet_index, 4);
}

#[test]
fn selection_moves_within_the_list_of_wallets() {
    let mut state = ExplorerState::new();
    state.current_tab = Tab::Wallets;
    state.scroll_down(5, 2);
    state.scroll_down(5, 2);
    assert_eq!(state.selected_wallet_index, 1);
    assert_eq!(state.selected_block_index, 0);
    state.scroll_up();
    state.scroll_up();
    assert_eq!(state.selected_wallet_index, 0);
}

#[test]
fn other_tabs_scroll_up_to_ten() {
    let mut state = ExplorerState::new();
    state.current_tab = Tab::Amm;
    for _ in 0..15 {
        state.scroll_down(5, 5);
    }
    assert_eq!(state.amm_scroll, 10);
    assert_eq!(state.system_scroll, 0);
    state.scroll_up();
    assert_eq!(state.amm_scroll, 9);
    state.current_tab = Tab::SystemWallet;
    state.scroll_up();
    assert_eq!(state.system_scroll, 0);
    state.scroll_down(0, 0);
    assert_eq!(state.system_scroll, 1);
    assert_eq!(state.amm_scroll, 9);
}

#[test]
fn selections_are_brought_back_into_their_lists() {
    let mut state = ExplorerState::new();
    state.selected_block_index = 10;
    state.selected_wallet_index = 3;
    state.validate_selection_indices(4, 4);
    assert_eq!(state.selected_block_index, 3);
    assert_eq!(state.selected_wallet_index, 3);
    state.validate_selection_indices(0, 1);
    assert_eq!(state.selected_block_index, 0);
    assert_eq!(state.selected_wallet_index, 0);
}

#[test]
fn keys_move_the_viewer() {
    let mut state = ExplorerState::new();
    state.selected_wallet_index = 7;
    assert!(state.on_key(ExplorerKey::Down, 3, 2));
    assert_eq!(state.selected_block_index, 1);
    assert_eq!(state.selected_wallet_index, 7);
    assert!(state.on_key(ExplorerKey::NextTab, 3, 2));
    assert_eq!(state.current_tab, Tab::Amm);
    assert_eq!(state.selected_wallet_index, 1);
    assert!(state.on_key(ExplorerKey::PreviousTab, 1, 2));
    assert_eq!(state.current_tab, Tab::Blocks);
    assert_eq!(state.selected_block_index, 0);
    assert!(state.on_key(ExplorerKey::Up, 1, 2));
    assert_eq!(state.selected_block_index, 0);
    let before = state;
    assert!(state.on_key(ExplorerKey::Other, 1, 2));
    assert_eq!(state, before);
    assert!(!state.on_key(ExplorerKey::Quit, 1, 2));
    assert_eq!(state, before);
}

#[test]
fn list_is_moved_to_keep_the_selection_in_view() {
    assert_eq!(zux_chain::explorer::first_visible(0, 10), 0);
    assert_eq!(zux_chain::explorer::first_visible(9, 10), 0);
    assert_eq!(zux_chain::explorer::first_visible(10, 10), 1);
    assert_eq!(zux_chain::explorer::first_visible(25, 10), 16);
    assert_eq!(zux_chain::explorer::first_visible(3, 0), 4);
    assert_eq!(zux_chain::explorer::first_visible(0, 0), 1);
}
