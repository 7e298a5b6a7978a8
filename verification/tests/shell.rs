use echover::action::UiAction;
use echover::icons::IconId;
use echover::nav::{nav_is_active, nav_items};
use echover::state::AppPage;

#[test]
fn active_nav_item_matches_current_page() {
    let mut seen = std::collections::HashSet::new();
    for item in nav_items() {
        let page = item.page;
        assert!(seen.insert(page), "duplicate nav entry for {page:?}");
    }
    assert_eq!(seen.len(), 5);
}

#[test]
fn nav_items_in_sidebar_order() {
    let items = nav_items();
    let labels: Vec<&str> = items.iter().map(|i| i.label).collect();
    assert_eq!(labels, vec!["Home", "Library", "Player", "Bookmarks", "Settings"]);
    assert_eq!(items[1].action, UiAction::NavigateLibrary);
    assert_eq!(items[2].icon, IconId::Player);
}

#[test]
fn book_detail_keeps_library_highlighted() {
    assert!(nav_is_active(AppPage::BookDetail(3), AppPage::Library));
    assert!(!nav_is_active(AppPage::BookDetail(3), AppPage::Home));
    assert!(nav_is_active(AppPage::Settings, AppPage::Settings));
    assert!(!nav_is_active(AppPage::Home, AppPage::Player));
}
