//! The interface state: current page, library filter, search box and the
//! playback status shown on screen.
use crate::action::{LibraryFilter, UiAction};
use crate::data::Library;
use crate::text::{pop_char, push_char};
use vstd::prelude::*;

verus! {

/// A page of the interface.
#[derive(Debug, Clone, Copy, PartialEq, Eq, Hash, Structural)]
pub enum AppPage {
    Home,
    Library,
    Player,
    Bookmarks,
    Settings,
    BookDetail(u64),
}

/// Everything the interface shows and edits.
pub struct AppState {
    pub current_page: AppPage,
    pub library_filter: LibraryFilter,
    pub search_query: String,
    pub search_focused: bool,
    pub library: Library,
    /// The audiobook the playback engine has loaded, if any.
    pub loaded_audiobook_id: Option<u64>,
    pub is_playing: bool,
    pub playback_position_ms: i64,
}

/// The page a navigation action leads to; `None` for other actions.
pub open spec fn page_of(action: UiAction) -> Option<AppPage> {
    match action {
        UiAction::NavigateHome => Some(AppPage::Home),
        UiAction::NavigateLibrary => Some(AppPage::Library),
        UiAction::NavigatePlayer => Some(AppPage::Player),
        UiAction::NavigateBookmarks => Some(AppPage::Bookmarks),
        UiAction::NavigateSettings => Some(AppPage::Settings),
        UiAction::SelectBook(id) => Some(AppPage::BookDetail(id)),
        _ => None,
    }
}

/// A control character (general category Cc: U+0000..=U+001F and
/// U+007F..=U+009F), as `char::is_control` decides.
pub open spec fn is_control_char(c: char) -> bool {
    (c as u32) <= 0x1f || (0x7f <= (c as u32) && (c as u32) <= 0x9f)
}

/// `a` and `b` agree on every field but the search query.
pub open spec fn same_but_query(a: AppState, b: AppState) -> bool {
    &&& a.current_page == b.current_page
    &&& a.library_filter == b.library_filter
    &&& a.search_focused == b.search_focused
    &&& a.library == b.library
    &&& a.loaded_audiobook_id == b.loaded_audiobook_id
    &&& a.is_playing == b.is_playing
    &&& a.playback_position_ms == b.playback_position_ms
}

/// `a` and `b` agree on every field but the search query and focus.
pub open spec fn same_but_search(a: AppState, b: AppState) -> bool {
    &&& a.current_page == b.current_page
    &&& a.library_filter == b.library_filter
    &&& a.library == b.library
    &&& a.loaded_audiobook_id == b.loaded_audiobook_id
    &&& a.is_playing == b.is_playing
    &&& a.playback_position_ms == b.playback_position_ms
}

/// What applying `action` to `s` does to the interface state, and whether
/// anything changed: navigation moves to its page, a filter is set, the
/// search box is focused or cleared; other actions change nothing here.
pub open spec fn applied(s: AppState, action: UiAction, t: AppState, changed: bool) -> bool {
    match page_of(action) {
        Some(p) => if s.current_page == p {
            !changed && t == s
        } else {
            changed && t == AppState { current_page: p, ..s }
        },
        None => match action {
            UiAction::SetFilter(f) => if s.library_filter == f {
                !changed && t == s
            } else {
                changed && t == AppState { library_filter: f, ..s }
            },
            UiAction::FocusSearch => if s.search_focused {
                !changed && t == s
            } else {
                changed && t == AppState { search_focused: true, ..s }
            },
            UiAction::ClearSearch => {
                &&& changed == (s.search_query@.len() > 0 || s.search_focused)
                &&& t.search_query@.len() == 0
                &&& !t.search_focused
                &&& same_but_search(s, t)
            },
            _ => !changed && t == s,
        },
    }
}

/// What typing `ch` into the search box of `s` does: a focused box takes
/// any character but a control character at its end; otherwise nothing
/// changes.
pub open spec fn typed(s: AppState, ch: char, t: AppState, changed: bool) -> bool {
    &&& changed == (s.search_focused && !is_control_char(ch))
    &&& changed ==> t.search_query@ == s.search_query@.push(ch)
    &&& !changed ==> t == s
    &&& same_but_query(s, t)
}

/// What a backspace in the search box of `s` does: a focused, non-empty
/// box loses its last character; otherwise nothing changes.
pub open spec fn erased(s: AppState, t: AppState, changed: bool) -> bool {
    &&& changed == (s.search_focused && s.search_query@.len() > 0)
    &&& changed ==> t.search_query@ == s.search_query@.drop_last()
    &&& !changed ==> t == s
    &&& same_but_query(s, t)
}

/// `a` and `b` show the same thing: equal fields, the query by its text.
pub open spec fn same_view(a: AppState, b: AppState) -> bool {
    same_but_query(a, b) && a.search_query@ == b.search_query@
}

/// Applying an action a second time changes nothing and reports no change.
pub proof fn lemma_apply_idempotent(s: AppState, action: UiAction, t: AppState, c1: bool, u: AppState, c2: bool)
    requires
        applied(s, action, t, c1),
        applied(t, action, u, c2),
    ensures
        !c2,
        same_view(t, u),
{
    if action is ClearSearch {
        assert(t.search_query@ =~= u.search_query@);
    }
}

/// A navigation action always ends on its page, and reports a change
/// exactly when it left another page; nothing else changes.
pub proof fn lemma_navigation_lands(s: AppState, action: UiAction, t: AppState, changed: bool)
    requires
        applied(s, action, t, changed),
        page_of(action) is Some,
    ensures
        t.current_page == page_of(action).unwrap(),
        changed == (s.current_page != page_of(action).unwrap()),
        t == (AppState { current_page: t.current_page, ..s }),
{
}

/// Law: setting a filter makes it the library's filter, reports a change
/// exactly when it was another one, and leaves everything else as it was.
pub proof fn lemma_set_filter(s: AppState, f: LibraryFilter, t: AppState, changed: bool)
    requires
        applied(s, UiAction::SetFilter(f), t, changed),
    ensures
        t.library_filter == f,
        changed == (s.library_filter != f),
        t == (AppState { library_filter: f, ..s }),
{
}

/// Typing a character and then deleting one gives the query back.
pub proof fn lemma_type_then_erase(s: AppState, ch: char, t: AppState, u: AppState, c2: bool)
    requires
        typed(s, ch, t, true),
        erased(t, u, c2),
    ensures
        c2,
        same_view(s, u),
{
    assert(s.search_query@.push(ch).drop_last() =~= s.search_query@);
}

/// The page a navigation action leads to.
pub fn page_for_action(action: UiAction) -> (r: Option<AppPage>)
    ensures
        r == page_of(action),
{
    match action {
        UiAction::NavigateHome => Some(AppPage::Home),
        UiAction::NavigateLibrary => Some(AppPage::Library),
        UiAction::NavigatePlayer => Some(AppPage::Player),
        UiAction::NavigateBookmarks => Some(AppPage::Bookmarks),
        UiAction::NavigateSettings => Some(AppPage::Settings),
        UiAction::SelectBook(id) => Some(AppPage::BookDetail(id)),
        _ => None,
    }
}

/// Whether `c` is a control character.
pub fn char_is_control(c: char) -> (r: bool)
    ensures
        r == is_control_char(c),
{
    let code: u32 = c as u32;
    code <= 0x1f || (0x7f <= code && code <= 0x9f)
}

impl Default for AppState {
    /// Home page, all books, empty unfocused search, empty library, nothing
    /// loaded or playing, position 0.
    fn default() -> (r: Self)
        ensures
            r.current_page == AppPage::Home,
            r.library_filter == LibraryFilter::All,
            r.search_query@.len() == 0,
            !r.search_focused,
            r.library.books@.len() == 0,
            r.library.bookmarks@.len() == 0,
            r.library.folders@.len() == 0,
            r.library.current_listening_id is None,
            r.loaded_audiobook_id is None,
            !r.is_playing,
            r.playback_position_ms == 0,
    {
        AppState {
            current_page: AppPage::Home,
            library_filter: LibraryFilter::All,
            search_query: String::new(),
            search_focused: false,
            library: Library::empty(),
            loaded_audiobook_id: None,
            is_playing: false,
            playback_position_ms: 0,
        }
    }
}

impl AppState {
    /// The initial state around a loaded library.
    pub fn with_library(library: Library) -> (r: AppState)
        ensures
            r.library == library,
            r.current_page == AppPage::Home,
            r.library_filter == LibraryFilter::All,
            r.search_query@.len() == 0,
            !r.search_focused,
            r.loaded_audiobook_id is None,
            !r.is_playing,
            r.playback_position_ms == 0,
    {
        AppState {
            current_page: AppPage::Home,
            library_filter: LibraryFilter::All,
            search_query: String::new(),
            search_focused: false,
            library,
            loaded_audiobook_id: None,
            is_playing: false,
            playback_position_ms: 0,
        }
    }

    /// Applies an interface action; returns whether anything changed.
    pub fn apply_action(&mut self, action: UiAction) -> (changed: bool)
        ensures
            applied(*old(self), action, *final(self), changed),
    {
        if let Some(new_page) = page_for_action(action) {
            if self.current_page == new_page {
                return false;
            }
            self.current_page = new_page;
            return true;
        }
        match action {
            UiAction::SetFilter(filter) => {
                if self.library_filter == filter {
                    return false;
                }
                self.library_filter = filter;
                true
            },
            UiAction::FocusSearch => {
                if self.search_focused {
                    return false;
                }
                self.search_focused = true;
                true
            },
            UiAction::ClearSearch => {
                let had_query = self.search_query.as_str().unicode_len() > 0;
                let was_focused = self.search_focused;
                self.search_query = String::new();
                self.search_focused = false;
                had_query || was_focused
            },
            _ => false,
        }
    }

    /// Types `ch` into the focused search box; control characters and an
    /// unfocused box are ignored. Returns whether the query changed.
    pub fn search_input(&mut self, ch: char) -> (changed: bool)
        ensures
            typed(*old(self), ch, *final(self), changed),
    {
        if !self.search_focused || char_is_control(ch) {
            return false;
        }
        push_char(&mut self.search_query, ch);
        true
    }

    /// Deletes the last character of the focused search box. Returns
    /// whether the query changed.
    pub fn search_backspace(&mut self) -> (changed: bool)
        ensures
            erased(*old(self), *final(self), changed),
    {
        if !self.search_focused || self.search_query.as_str().unicode_len() == 0 {
            return false;
        }
        let _ = pop_char(&mut self.search_query);
        true
    }

    /// Takes focus away from the search box. Returns whether it had focus.
    pub fn unfocus_search(&mut self) -> (changed: bool)
        ensures
            changed == old(self).search_focused,
            *final(self) == (AppState { search_focused: false, ..*old(self) }),
    {
        if !self.search_focused {
            return false;
        }
        self.search_focused = false;
        true
    }
}

} // verus!
