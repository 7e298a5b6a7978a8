//! The sidebar's navigation entries.
use crate::action::UiAction;
use crate::icons::IconId;
use crate::state::AppPage;
use vstd::prelude::*;

verus! {

/// One sidebar row: the page it leads to, the action its click fires, its
/// label and icon.
#[derive(Debug, Clone, Copy)]
pub struct NavItem {
    pub page: AppPage,
    pub action: UiAction,
    pub label: &'static str,
    pub icon: IconId,
}

/// The sidebar rows, top to bottom.
pub fn nav_items() -> (r: Vec<NavItem>)
    ensures
        r@.len() == 5,
        r@[0].page == AppPage::Home && r@[0].action == UiAction::NavigateHome
            && r@[0].label@ == "Home"@ && r@[0].icon == IconId::Home,
        r@[1].page == AppPage::Library && r@[1].action == UiAction::NavigateLibrary
            && r@[1].label@ == "Library"@ && r@[1].icon == IconId::Library,
        r@[2].page == AppPage::Player && r@[2].action == UiAction::NavigatePlayer
            && r@[2].label@ == "Player"@ && r@[2].icon == IconId::Player,
        r@[3].page == AppPage::Bookmarks && r@[3].action == UiAction::NavigateBookmarks
            && r@[3].label@ == "Bookmarks"@ && r@[3].icon == IconId::Bookmarks,
        r@[4].page == AppPage::Settings && r@[4].action == UiAction::NavigateSettings
            && r@[4].label@ == "Settings"@ && r@[4].icon == IconId::Settings,
{
    vec![
        NavItem { page: AppPage::Home, action: UiAction::NavigateHome, label: "Home", icon: IconId::Home },
        NavItem {
            page: AppPage::Library,
            action: UiAction::NavigateLibrary,
            label: "Library",
            icon: IconId::Library,
        },
        NavItem {
            page: AppPage::Player,
            action: UiAction::NavigatePlayer,
            label: "Player",
            icon: IconId::Player,
        },
        NavItem {
            page: AppPage::Bookmarks,
            action: UiAction::NavigateBookmarks,
            label: "Bookmarks",
            icon: IconId::Bookmarks,
        },
        NavItem {
            page: AppPage::Settings,
            action: UiAction::NavigateSettings,
            label: "Settings",
            icon: IconId::Settings,
        },
    ]
}

/// Whether the row for `page` is highlighted while `current` is shown: its
/// own page, and the Library row for a book's detail page.
pub fn nav_is_active(current: AppPage, page: AppPage) -> (r: bool)
    ensures
        r == (current == page || (current is BookDetail && page == AppPage::Library)),
{
    current == page || (matches!(current, AppPage::BookDetail(_)) && page == AppPage::Library)
}

} // verus!
