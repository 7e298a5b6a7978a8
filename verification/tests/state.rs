use echover::action::{LibraryFilter, UiAction};
use echover::state::{page_for_action, AppPage, AppState};

#[test]
fn navigation_actions_switch_page_and_signal_change() {
    let mut state = AppState::default();
    assert!(state.apply_action(UiAction::NavigateLibrary));
    assert_eq!(state.current_page, AppPage::Library);
    assert!(!state.apply_action(UiAction::NavigateLibrary));
}

#[test]
fn select_book_routes_to_book_detail() {
    let mut state = AppState::default();
    assert!(state.apply_action(UiAction::SelectBook(7)));
    assert_eq!(state.current_page, AppPage::BookDetail(7));
    assert!(state.apply_action(UiAction::SelectBook(3)));
    assert_eq!(state.current_page, AppPage::BookDetail(3));
    assert!(!state.apply_action(UiAction::SelectBook(3)));
}

#[test]
fn search_focus_input_and_clear() {
    let mut state = AppState::default();
    assert!(state.apply_action(UiAction::FocusSearch));
    assert!(state.search_input('h'));
    assert!(state.search_input('i'));
    assert_eq!(state.search_query, "hi");
    assert!(state.search_backspace());
    assert_eq!(state.search_query, "h");
    assert!(state.apply_action(UiAction::ClearSearch));
    assert!(!state.search_focused);
    assert!(state.search_query.is_empty());
}

#[test]
fn default_state_is_home_with_nothing_loaded() {
    let state = AppState::default();
    assert_eq!(state.current_page, AppPage::Home);
    assert_eq!(state.library_filter, LibraryFilter::All);
    assert!(state.search_query.is_empty());
    assert!(!state.search_focused);
    assert!(state.library.books.is_empty());
    assert_eq!(state.loaded_audiobook_id, None);
    assert!(!state.is_playing);
    assert_eq!(state.playback_position_ms, 0);
}

#[test]
fn every_action_applied_twice_changes_nothing_the_second_time() {
    let actions = [
        UiAction::NavigateHome,
        UiAction::NavigateLibrary,
        UiAction::NavigatePlayer,
        UiAction::NavigateBookmarks,
        UiAction::NavigateSettings,
        UiAction::SelectBook(4),
        UiAction::SetFilter(LibraryFilter::Finished),
        UiAction::FocusSearch,
        UiAction::ClearSearch,
        UiAction::PlayPause,
        UiAction::AddLibraryFolder,
    ];
    for action in actions {
        let mut state = AppState::default();
        state.search_focused = true;
        state.search_query = "abc".to_string();
        let _ = state.apply_action(action);
        let page = state.current_page;
        let filter = state.library_filter;
        let query = state.search_query.clone();
        let focused = state.search_focused;
        assert!(!state.apply_action(action), "{action:?} changed twice");
        assert_eq!(state.current_page, page);
        assert_eq!(state.library_filter, filter);
        assert_eq!(state.search_query, query);
        assert_eq!(state.search_focused, focused);
    }
}

#[test]
fn filters_and_other_actions() {
    let mut state = AppState::default();
    assert!(!state.apply_action(UiAction::SetFilter(LibraryFilter::All)));
    assert!(state.apply_action(UiAction::SetFilter(LibraryFilter::InProgress)));
    assert_eq!(state.library_filter, LibraryFilter::InProgress);
    assert!(!state.apply_action(UiAction::SeekForward));
    assert!(!state.apply_action(UiAction::JumpToBookmark(1, 500)));
    assert_eq!(state.current_page, AppPage::Home);
    // Clearing an empty, unfocused box reports no change.
    assert!(!state.apply_action(UiAction::ClearSearch));
}

#[test]
fn typing_needs_focus_and_skips_control_characters() {
    let mut state = AppState::default();
    assert!(!state.search_input('x'));
    assert!(state.search_query.is_empty());
    assert!(!state.search_backspace());
    assert!(state.apply_action(UiAction::FocusSearch));
    assert!(!state.search_input('\u{7}'));
    assert!(!state.search_input('\u{85}'));
    assert!(state.search_input('é'));
    assert_eq!(state.search_query, "é");
    assert!(state.search_backspace());
    assert!(!state.search_backspace());
    assert!(state.unfocus_search());
    assert!(!state.unfocus_search());
}

#[test]
fn typing_then_erasing_restores_the_query() {
    let mut state = AppState::default();
    state.search_focused = true;
    state.search_query = "dun".to_string();
    assert!(state.search_input('e'));
    assert_eq!(state.search_query, "dune");
    assert!(state.search_backspace());
    assert_eq!(state.search_query, "dun");
    assert!(state.search_focused);
}

#[test]
fn page_for_action_maps_navigation() {
    assert_eq!(page_for_action(UiAction::NavigateHome), Some(AppPage::Home));
    assert_eq!(page_for_action(UiAction::NavigateBookmarks), Some(AppPage::Bookmarks));
    assert_eq!(page_for_action(UiAction::SelectBook(9)), Some(AppPage::BookDetail(9)));
    assert_eq!(page_for_action(UiAction::FocusSearch), None);
}
