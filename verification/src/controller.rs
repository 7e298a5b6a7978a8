//! The interface's decisions: what a key, a click or an action does to the
//! state, and, for actions that need the playback engine, storage or a
//! folder picker, which request to make next given the reply to the last
//! one. The caller performs each request and hands back its reply.
use crate::action::UiAction;
use crate::data::{display_bookmarks, listening_book, lookup, shows_bookmarks, Library};
use crate::hit::{action_of, region_of, Interaction, RegionHit};
use crate::records::BookmarkWithTitle;
use crate::state::{applied, is_control_char, AppPage, AppState};
use crate::text::str_eq;
use vstd::prelude::*;
use vstd::string::*;

verus! {

/// How far a restored position is rewound on start-up, so the listener
/// re-hears some context.
pub const SMART_RESUME_REWIND_MS: i64 = 5_000;

/// How far the rewind button and key go back, in seconds.
pub const SEEK_BACKWARD_SECS: u64 = 15;

/// How far the forward button and key go ahead, in seconds.
pub const SEEK_FORWARD_SECS: u64 = 30;

/// A key as the interface tells keys apart.
#[derive(Debug, Clone)]
pub enum KeyInput {
    Escape,
    Enter,
    Backspace,
    Space,
    ArrowLeft,
    ArrowRight,
    Character(String),
    Other,
}

/// What a key press leads to: a redraw, leaving the application, and an
/// action to dispatch.
#[derive(Debug, Clone, Copy)]
pub struct KeyOutcome {
    pub redraw: bool,
    pub exit: bool,
    pub dispatch: Option<UiAction>,
}

/// The characters of `t` that go into the search box: all but control
/// characters.
pub open spec fn typeable(t: Seq<char>) -> Seq<char>
    decreases t.len(),
{
    if t.len() == 0 {
        Seq::empty()
    } else if is_control_char(t.last()) {
        typeable(t.drop_last())
    } else {
        typeable(t.drop_last()).push(t.last())
    }
}

/// The character key `s` is the letter `lower`, ignoring ASCII case.
pub open spec fn is_letter_key(s: Seq<char>, lower: char, upper: char) -> bool {
    s == seq![lower] || s == seq![upper]
}

/// The shortcut a key stands for outside the search box.
pub open spec fn shortcut(key: KeyInput, command: bool) -> Option<UiAction> {
    match key {
        KeyInput::Space => Some(UiAction::PlayPause),
        KeyInput::ArrowLeft => Some(UiAction::SeekBackward),
        KeyInput::ArrowRight => Some(UiAction::SeekForward),
        KeyInput::Character(s) => if is_letter_key(s@, 'b', 'B') {
            Some(UiAction::AddBookmark)
        } else if is_letter_key(s@, 'f', 'F') && command {
            Some(UiAction::FocusSearch)
        } else {
            None
        },
        _ => None,
    }
}

/// The effect of a key press on the state and the outcome. In the focused
/// search box, Escape clears it, Enter leaves it, Backspace deletes and
/// typed text is entered; any other key, or text with nothing to type, is
/// a shortcut: Escape quits, Space plays or pauses, the arrows seek, `b`
/// bookmarks and Ctrl/Cmd+`f` opens the Library and focuses the search box.
pub open spec fn key_handled(
    s: AppState,
    key: KeyInput,
    text: Option<Seq<char>>,
    command: bool,
    t: AppState,
    r: KeyOutcome,
) -> bool {
    let typed = match text {
        Some(x) => typeable(x),
        None => Seq::empty(),
    };
    if s.search_focused && key is Escape {
        applied(s, UiAction::ClearSearch, t, r.redraw) && !r.exit && r.dispatch is None
    } else if s.search_focused && key is Enter {
        r.redraw && t == (AppState { search_focused: false, ..s }) && !r.exit && r.dispatch is None
    } else if s.search_focused && key is Backspace {
        &&& r.redraw == (s.search_query@.len() > 0)
        &&& t.search_query@ == if r.redraw {
            s.search_query@.drop_last()
        } else {
            s.search_query@
        }
        &&& crate::state::same_but_query(s, t)
        &&& !r.exit
        &&& r.dispatch is None
    } else if s.search_focused && typed.len() > 0 {
        &&& t.search_query@ == s.search_query@ + typed
        &&& crate::state::same_but_query(s, t)
        &&& r.redraw
        &&& !r.exit
        &&& r.dispatch is None
    } else {
        shortcut_handled(s, key, command, t, r)
    }
}

/// The effect of a key taken as a shortcut: Escape quits, Space plays or
/// pauses, the arrows seek, `b` bookmarks and Ctrl/Cmd+`f` opens the
/// Library page and focuses the search box.
pub open spec fn shortcut_handled(s: AppState, key: KeyInput, command: bool, t: AppState, r: KeyOutcome) -> bool {
    if key is Escape {
        t.search_query@ == s.search_query@ && crate::state::same_but_query(s, t) && r.exit
            && !r.redraw && r.dispatch is None
    } else if shortcut(key, command) == Some(UiAction::FocusSearch) {
        &&& applied(s, UiAction::NavigateLibrary, t, r.redraw)
        &&& !r.exit
        &&& r.dispatch == Some(UiAction::FocusSearch)
    } else {
        &&& t.search_query@ == s.search_query@
        &&& crate::state::same_but_query(s, t)
        &&& !r.redraw
        &&& !r.exit
        &&& r.dispatch == shortcut(key, command)
    }
}

fn letter_key(s: &str, lower: &str, upper: &str) -> (r: bool)
    ensures
        r == (s@ == lower@ || s@ == upper@),
{
    str_eq(s, lower) || str_eq(s, upper)
}

fn type_text(state: &mut AppState, text: &str) -> (changed: bool)
    requires
        old(state).search_focused,
    ensures
        changed == (typeable(text@).len() > 0),
        !changed ==> *final(state) == *old(state),
        final(state).search_query@ == old(state).search_query@ + typeable(text@),
        crate::state::same_but_query(*old(state), *final(state)),
{
    let n = text.unicode_len();
    let ghost start = state.search_query@;
    let mut changed = false;
    let mut i: usize = 0;
    while i < n
        invariant
            n == text@.len(),
            i <= n,
            state.search_focused,
            state.search_query@ == start + typeable(text@.take(i as int)),
            changed == (typeable(text@.take(i as int)).len() > 0),
            !changed ==> *state == *old(state),
            crate::state::same_but_query(*old(state), *state),
        decreases n - i,
    {
        let ch = text.get_char(i);
        assert(text@.take(i as int + 1).drop_last() =~= text@.take(i as int));
        assert(text@.take(i as int + 1).last() == ch);
        if state.search_input(ch) {
            changed = true;
        }
        assert(state.search_query@ =~= start + typeable(text@.take(i as int + 1)));
        i = i + 1;
    }
    assert(text@.take(n as int) =~= text@);
    changed
}

/// Handles a key press; `text` is the text the key produces, and `command`
/// whether Ctrl or Cmd is held.
pub fn handle_key(state: &mut AppState, key: &KeyInput, text: Option<&str>, command: bool) -> (r: KeyOutcome)
    ensures
        key_handled(
            *old(state),
            *key,
            match text {
                Some(x) => Some(x@),
                None => None,
            },
            command,
            *final(state),
            r,
        ),
{
    if state.search_focused {
        match key {
            KeyInput::Escape => {
                let changed = state.apply_action(UiAction::ClearSearch);
                return KeyOutcome { redraw: changed, exit: false, dispatch: None };
            },
            KeyInput::Enter => {
                let changed = state.unfocus_search();
                return KeyOutcome { redraw: changed, exit: false, dispatch: None };
            },
            KeyInput::Backspace => {
                let changed = state.search_backspace();
                return KeyOutcome { redraw: changed, exit: false, dispatch: None };
            },
            _ => {},
        }
        if let Some(t) = text {
            if type_text(state, t) {
                return KeyOutcome { redraw: true, exit: false, dispatch: None };
            }
        }
    }
    proof {
        if state.search_focused {
            if let Some(t) = text {
                assert(typeable(t@).len() == 0);
            }
        }
    }
    if let KeyInput::Escape = key {
        return KeyOutcome { redraw: false, exit: true, dispatch: None };
    }
    let action = shortcut_action(key, command);
    if action == Some(UiAction::FocusSearch) {
        let changed = state.apply_action(UiAction::NavigateLibrary);
        return KeyOutcome { redraw: changed, exit: false, dispatch: action };
    }
    KeyOutcome { redraw: false, exit: false, dispatch: action }
}

/// The shortcut a key stands for outside the search box.
pub fn shortcut_action(key: &KeyInput, command: bool) -> (r: Option<UiAction>)
    ensures
        r == shortcut(*key, command),
{
    match key {
        KeyInput::Space => Some(UiAction::PlayPause),
        KeyInput::ArrowLeft => Some(UiAction::SeekBackward),
        KeyInput::ArrowRight => Some(UiAction::SeekForward),
        KeyInput::Character(s) => {
            proof {
                reveal_strlit("b");
                reveal_strlit("B");
                reveal_strlit("f");
                reveal_strlit("F");
                assert("b"@ =~= seq!['b']);
                assert("B"@ =~= seq!['B']);
                assert("f"@ =~= seq!['f']);
                assert("F"@ =~= seq!['F']);
            }
            if letter_key(s.as_str(), "b", "B") {
                Some(UiAction::AddBookmark)
            } else if letter_key(s.as_str(), "f", "F") && command {
                Some(UiAction::FocusSearch)
            } else {
                None
            }
        },
        _ => None,
    }
}

/// The mouse button goes down over the region of `hit` (if any): a click
/// outside the search box takes its focus away, and the pressed region and
/// its action are remembered. Returns whether to redraw.
pub fn mouse_press(state: &mut AppState, interaction: &mut Interaction, hit: Option<RegionHit>) -> (redraw: bool)
    ensures
        action_of(hit) != Some(UiAction::FocusSearch) ==> *final(state) == (AppState {
            search_focused: false,
            ..*old(state)
        }),
        action_of(hit) == Some(UiAction::FocusSearch) ==> *final(state) == *old(state),
        final(interaction).pressed == action_of(hit),
        final(interaction).pressed_region == region_of(hit),
        final(interaction).hover == old(interaction).hover,
        redraw == ((action_of(hit) != Some(UiAction::FocusSearch) && old(state).search_focused)
            || old(interaction).pressed != action_of(hit)),
{
    let (region, action) = match hit {
        Some(h) => (Some(h.region), Some(h.action)),
        None => (None, None),
    };
    let mut redraw = false;
    if action != Some(UiAction::FocusSearch) && state.unfocus_search() {
        redraw = true;
    }
    if interaction.pressed != action {
        interaction.pressed = action;
        redraw = true;
    }
    interaction.pressed_region = region;
    redraw
}

/// The mouse button comes up over the region of `hit` (if any): the press
/// ends, and it is a click on the pressed region's action exactly when the
/// button comes up on that same region.
pub fn mouse_release(interaction: &mut Interaction, hit: Option<RegionHit>) -> (click: Option<UiAction>)
    ensures
        final(interaction).pressed is None,
        final(interaction).pressed_region is None,
        final(interaction).hover == old(interaction).hover,
        click == if old(interaction).pressed is Some && old(interaction).pressed_region is Some
            && action_of(hit) == old(interaction).pressed && region_of(hit)
            == old(interaction).pressed_region {
            old(interaction).pressed
        } else {
            None
        },
{
    let pressed = interaction.pressed;
    let pressed_region = interaction.pressed_region;
    interaction.pressed = None;
    interaction.pressed_region = None;
    match (pressed, pressed_region, hit) {
        (Some(p), Some(i), Some(h)) => if p == h.action && i == h.region {
            Some(p)
        } else {
            None
        },
        _ => None,
    }
}

/// The position restored on start-up from a saved one: rewound a little,
/// never below 0.
pub fn resume_position(saved_ms: i64) -> (r: i64)
    requires
        saved_ms >= i64::MIN + SMART_RESUME_REWIND_MS,
    ensures
        r == if saved_ms - SMART_RESUME_REWIND_MS > 0 {
            saved_ms - SMART_RESUME_REWIND_MS
        } else {
            0
        },
{
    let rewound = saved_ms - SMART_RESUME_REWIND_MS;
    if rewound > 0 {
        rewound
    } else {
        0
    }
}

/// A request the dispatcher makes, or the end of a dispatch.
#[derive(Debug)]
pub enum Effect {
    /// Look up the first file of a book; reply with `Path`.
    LookupFirstFile(u64),
    /// Look up the file of a 1-based chapter of a book; reply with `Path`.
    LookupChapterFile(u64, u32),
    /// Load a file into the engine; reply `Done` or `Failed`.
    LoadFile(String),
    /// Seek the engine forward by whole seconds; reply `Done` or `Failed`.
    SeekForward(u64),
    /// Seek the engine backward by whole seconds; reply `Done` or `Failed`.
    SeekBackward(u64),
    /// Seek the engine to a position; reply `Done` or `Failed`.
    SeekTo(i64),
    /// Toggle play and pause; reply `Done` or `Failed`.
    Toggle,
    /// Play; reply `Done` or `Failed`.
    Play,
    /// Read whether the engine plays and where; reply `Engine`.
    ReadEngine,
    /// Save the playback position of a book and whether it is completed;
    /// any reply.
    SavePosition(u64, i64, bool),
    /// Ask the user for a folder; reply `Path`.
    PickFolder,
    /// Scan a folder into storage; reply `Done` or `Failed`.
    ScanFolder(String),
    /// Rebuild the library from storage; reply `Library` or `Failed`.
    ReloadLibrary,
    /// Store a bookmark; reply `Done` or `Failed`.
    AddBookmark(u64, i64, String),
    /// Read all bookmarks with titles; reply `Bookmarks` or `Failed`.
    ReloadBookmarks,
    /// The dispatch is over; whether the interface should redraw.
    Finish(bool),
}

/// The reply to a request.
#[derive(Debug)]
pub enum Reply {
    Done,
    Failed,
    Path(Option<String>),
    Engine(bool, i64),
    Library(Library),
    Bookmarks(Vec<BookmarkWithTitle>),
}

/// A playback action that first makes sure the engine holds the book being
/// listened to.
#[derive(Debug, Clone, Copy, PartialEq, Eq, Structural)]
pub enum Goal {
    PlayPause,
    Continue,
    SeekBackward,
    SeekForward,
}

/// Where a dispatch stands: which reply it awaits.
#[derive(Debug, Clone, Copy, PartialEq, Eq, Structural)]
pub enum Stage {
    Idle,
    LoadLookup(Goal, u64),
    LoadFile(Goal, u64),
    LoadResume(Goal, u64),
    GoalRun(Goal),
    GoalRead(Goal),
    ChapterLookup(u64),
    ChapterLoad(u64),
    ChapterSeek(u64),
    ChapterPlay(u64),
    ChapterRead,
    JumpLookup(u64, i64),
    JumpLoad(u64, i64),
    JumpSeek,
    JumpPlay,
    JumpRead,
    Saving(bool),
    FolderPick,
    FolderScan,
    FolderReload,
    BookmarkSave,
    BookmarkReload,
}

/// A dispatch in progress, and whether an engine is available.
#[derive(Debug, Clone, Copy)]
pub struct Dispatch {
    pub stage: Stage,
    pub engine_available: bool,
}

/// The total duration of book `id`, or 0 when it is not in the library.
pub open spec fn book_total(s: AppState, id: u64) -> i64 {
    match lookup(s.library.books@, id) {
        Some(b) => b.total_duration_ms,
        None => 0,
    }
}

/// A book counts as completed once the position reaches a positive total.
pub open spec fn completed_at(s: AppState, id: u64) -> bool {
    book_total(s, id) > 0 && s.playback_position_ms >= book_total(s, id)
}

/// The engine request a goal makes once its book is loaded.
pub open spec fn goal_request(g: Goal) -> Effect {
    match g {
        Goal::PlayPause => Effect::Toggle,
        Goal::Continue => Effect::Play,
        Goal::SeekBackward => Effect::SeekBackward(SEEK_BACKWARD_SECS),
        Goal::SeekForward => Effect::SeekForward(SEEK_FORWARD_SECS),
    }
}

/// The end of a playback step: the position of the loaded book (if any) is
/// saved first, with whether it is completed; then, if `to_player`, the
/// Player page is shown, and the interface redraws.
pub open spec fn finishing(s: AppState, to_player: bool, d: Dispatch, t: AppState, e: Effect) -> bool {
    match s.loaded_audiobook_id {
        Some(id) => d.stage == Stage::Saving(to_player) && t == s && e == Effect::SavePosition(
            id,
            s.playback_position_ms,
            completed_at(s, id),
        ),
        None => d.stage == Stage::Idle && e == Effect::Finish(true) && t == if to_player {
            AppState { current_page: AppPage::Player, ..s }
        } else {
            s
        },
    }
}

/// The dispatch ends with `redraw` and no change.
pub open spec fn ends(s: AppState, redraw: bool, d: Dispatch, t: AppState, e: Effect) -> bool {
    d.stage == Stage::Idle && t == s && e == Effect::Finish(redraw)
}

/// Running a goal on its loaded book.
pub open spec fn runs_goal(g: Goal, s: AppState, d: Dispatch, t: AppState, e: Effect) -> bool {
    d.stage == Stage::GoalRun(g) && t == s && e == goal_request(g)
}

/// Starting a goal: without an engine or a book to listen to nothing
/// happens; a book not yet loaded is looked up first.
pub open spec fn starts_goal(g: Goal, s: AppState, avail: bool, d: Dispatch, t: AppState, e: Effect) -> bool {
    if !avail {
        ends(s, false, d, t, e)
    } else {
        match listening_book(s.library) {
            None => ends(s, false, d, t, e),
            Some(b) => if s.loaded_audiobook_id == Some(b.id) {
                runs_goal(g, s, d, t, e)
            } else {
                d.stage == Stage::LoadLookup(g, b.id) && t == s && e == Effect::LookupFirstFile(b.id)
            },
        }
    }
}

/// Seeking to a bookmark once its book is loaded: with an engine, seek;
/// without one, just show the Player page.
pub open spec fn jump_seeks(s: AppState, avail: bool, pos: i64, d: Dispatch, t: AppState, e: Effect) -> bool {
    if avail {
        d.stage == Stage::JumpSeek && t == s && e == Effect::SeekTo(pos)
    } else {
        d.stage == Stage::Idle && e == Effect::Finish(true) && t == (AppState {
            current_page: AppPage::Player,
            ..s
        })
    }
}

/// How a dispatch of `action` begins.
pub open spec fn started(s: AppState, action: UiAction, avail: bool, d: Dispatch, t: AppState, e: Effect) -> bool {
    &&& d.engine_available == avail
    &&& match action {
        UiAction::PlayPause => starts_goal(Goal::PlayPause, s, avail, d, t, e),
        UiAction::ContinueListening => starts_goal(Goal::Continue, s, avail, d, t, e),
        UiAction::SeekBackward => starts_goal(Goal::SeekBackward, s, avail, d, t, e),
        UiAction::SeekForward => starts_goal(Goal::SeekForward, s, avail, d, t, e),
        UiAction::SelectChapter(book, chapter) => d.stage == Stage::ChapterLookup(book) && t == s
            && e == Effect::LookupChapterFile(book, chapter),
        UiAction::JumpToBookmark(book, pos) => if s.loaded_audiobook_id != Some(book) {
            d.stage == Stage::JumpLookup(book, pos) && t == s && e == Effect::LookupFirstFile(book)
        } else {
            jump_seeks(s, avail, pos, d, t, e)
        },
        UiAction::AddLibraryFolder => d.stage == Stage::FolderPick && t == s && e
            == Effect::PickFolder,
        UiAction::AddBookmark => match listening_book(s.library) {
            None => ends(s, false, d, t, e),
            Some(b) => d.stage == Stage::BookmarkSave && t == s && (e matches Effect::AddBookmark(
                id,
                pos,
                note,
            ) && id == b.id && pos == s.playback_position_ms && note@ == "Quick bookmark"@),
        },
        _ => d.stage == Stage::Idle && (e matches Effect::Finish(redraw) && applied(
            s,
            action,
            t,
            redraw,
        )),
    }
}

/// How a dispatch at stage `stage` goes on after `reply`. A reply of the
/// wrong kind counts as a failure.
pub open spec fn stepped(
    stage: Stage,
    avail: bool,
    s: AppState,
    reply: Reply,
    d: Dispatch,
    t: AppState,
    e: Effect,
) -> bool {
    &&& d.engine_available == avail
    &&& match stage {
        Stage::LoadLookup(g, id) => match reply {
            Reply::Path(Some(p)) => d.stage == Stage::LoadFile(g, id) && t == s && e
                == Effect::LoadFile(p),
            _ => ends(s, false, d, t, e),
        },
        Stage::LoadFile(g, id) => match reply {
            Reply::Done => if s.playback_position_ms > 0 {
                d.stage == Stage::LoadResume(g, id) && t == s && e == Effect::SeekForward(
                    (s.playback_position_ms / 1000) as u64,
                )
            } else {
                runs_goal(g, AppState { loaded_audiobook_id: Some(id), ..s }, d, t, e)
            },
            _ => ends(s, false, d, t, e),
        },
        Stage::LoadResume(g, id) => match reply {
            Reply::Done => runs_goal(g, AppState { loaded_audiobook_id: Some(id), ..s }, d, t, e),
            _ => ends(s, false, d, t, e),
        },
        Stage::GoalRun(g) => match reply {
            Reply::Done => d.stage == Stage::GoalRead(g) && t == s && e == Effect::ReadEngine,
            _ => ends(s, false, d, t, e),
        },
        Stage::GoalRead(g) => match reply {
            Reply::Engine(playing, pos) => match g {
                Goal::PlayPause => finishing(
                    AppState { is_playing: playing, playback_position_ms: pos, ..s },
                    false,
                    d,
                    t,
                    e,
                ),
                Goal::Continue => d.stage == Stage::Idle && e == Effect::Finish(true) && t == (
                AppState { is_playing: playing, current_page: AppPage::Player, ..s }),
                _ => finishing(AppState { playback_position_ms: pos, ..s }, false, d, t, e),
            },
            _ => ends(s, false, d, t, e),
        },
        Stage::ChapterLookup(book) => match reply {
            Reply::Path(Some(p)) => if avail {
                d.stage == Stage::ChapterLoad(book) && t == s && e == Effect::LoadFile(p)
            } else {
                ends(s, false, d, t, e)
            },
            _ => ends(s, false, d, t, e),
        },
        Stage::ChapterLoad(book) => match reply {
            Reply::Done => d.stage == Stage::ChapterSeek(book) && t == s && e == Effect::SeekTo(0),
            _ => ends(s, false, d, t, e),
        },
        Stage::ChapterSeek(book) => match reply {
            Reply::Done => d.stage == Stage::ChapterPlay(book) && t == s && e == Effect::Play,
            _ => ends(s, false, d, t, e),
        },
        Stage::ChapterPlay(book) => match reply {
            Reply::Done => d.stage == Stage::ChapterRead && t == (AppState {
                loaded_audiobook_id: Some(book),
                ..s
            }) && e == Effect::ReadEngine,
            _ => ends(s, false, d, t, e),
        },
        Stage::ChapterRead => match reply {
            Reply::Engine(playing, pos) => finishing(
                AppState { is_playing: playing, playback_position_ms: pos, ..s },
                true,
                d,
                t,
                e,
            ),
            _ => ends(s, false, d, t, e),
        },
        Stage::JumpLookup(book, pos) => match reply {
            Reply::Path(Some(p)) => if avail {
                d.stage == Stage::JumpLoad(book, pos) && t == s && e == Effect::LoadFile(p)
            } else {
                jump_seeks(AppState { loaded_audiobook_id: Some(book), ..s }, avail, pos, d, t, e)
            },
            _ => ends(s, false, d, t, e),
        },
        Stage::JumpLoad(book, pos) => match reply {
            Reply::Done => jump_seeks(
                AppState { loaded_audiobook_id: Some(book), ..s },
                avail,
                pos,
                d,
                t,
                e,
            ),
            _ => ends(s, false, d, t, e),
        },
        Stage::JumpSeek => match reply {
            Reply::Done => d.stage == Stage::JumpPlay && t == s && e == Effect::Play,
            _ => ends(s, false, d, t, e),
        },
        Stage::JumpPlay => match reply {
            Reply::Done => d.stage == Stage::JumpRead && t == s && e == Effect::ReadEngine,
            _ => ends(s, false, d, t, e),
        },
        Stage::JumpRead => match reply {
            Reply::Engine(playing, pos) => finishing(
                AppState { is_playing: playing, playback_position_ms: pos, ..s },
                true,
                d,
                t,
                e,
            ),
            _ => ends(s, false, d, t, e),
        },
        Stage::Saving(to_player) => d.stage == Stage::Idle && e == Effect::Finish(true) && t
            == if to_player {
            AppState { current_page: AppPage::Player, ..s }
        } else {
            s
        },
        Stage::FolderPick => match reply {
            Reply::Path(Some(p)) => d.stage == Stage::FolderScan && t == s && e
                == Effect::ScanFolder(p),
            _ => ends(s, false, d, t, e),
        },
        Stage::FolderScan => match reply {
            Reply::Done => d.stage == Stage::FolderReload && t == s && e == Effect::ReloadLibrary,
            _ => ends(s, false, d, t, e),
        },
        Stage::FolderReload => match reply {
            Reply::Library(lib) => d.stage == Stage::Idle && e == Effect::Finish(true) && t == (
            AppState { library: lib, ..s }),
            _ => ends(s, false, d, t, e),
        },
        Stage::BookmarkSave => match reply {
            Reply::Done => d.stage == Stage::BookmarkReload && t == s && e
                == Effect::ReloadBookmarks,
            _ => ends(s, false, d, t, e),
        },
        Stage::BookmarkReload => match reply {
            Reply::Bookmarks(rows) => {
                &&& d.stage == Stage::Idle
                &&& e == Effect::Finish(true)
                &&& shows_bookmarks(t.library.bookmarks@, rows@)
                &&& t.library.books == s.library.books
                &&& t.library.folders == s.library.folders
                &&& t.library.current_listening_id == s.library.current_listening_id
                &&& t.current_page == s.current_page
                &&& t.library_filter == s.library_filter
                &&& t.search_query == s.search_query
                &&& t.search_focused == s.search_focused
                &&& t.loaded_audiobook_id == s.loaded_audiobook_id
                &&& t.is_playing == s.is_playing
                &&& t.playback_position_ms == s.playback_position_ms
            },
            _ => ends(s, true, d, t, e),
        },
        Stage::Idle => ends(s, false, d, t, e),
    }
}

/// The dispatcher's rank: how many more requests a dispatch can make at
/// most before it finishes.
pub open spec fn rank(stage: Stage) -> nat {
    match stage {
        Stage::Idle => 0,
        Stage::Saving(_) => 1,
        Stage::GoalRead(_) => 2,
        Stage::GoalRun(_) => 3,
        Stage::LoadResume(_, _) => 4,
        Stage::LoadFile(_, _) => 5,
        Stage::LoadLookup(_, _) => 6,
        Stage::ChapterRead => 2,
        Stage::ChapterPlay(_) => 3,
        Stage::ChapterSeek(_) => 4,
        Stage::ChapterLoad(_) => 5,
        Stage::ChapterLookup(_) => 6,
        Stage::JumpRead => 2,
        Stage::JumpPlay => 3,
        Stage::JumpSeek => 4,
        Stage::JumpLoad(_, _) => 5,
        Stage::JumpLookup(_, _) => 6,
        Stage::FolderReload => 1,
        Stage::FolderScan => 2,
        Stage::FolderPick => 3,
        Stage::BookmarkReload => 1,
        Stage::BookmarkSave => 2,
    }
}

/// Law: a dispatch never runs in circles. Every step from a stage that
/// awaits a reply leads to a stage of lower rank, so whatever the replies,
/// a dispatch finishes after at most six requests.
pub proof fn lemma_dispatch_progress(
    stage: Stage,
    avail: bool,
    s: AppState,
    reply: Reply,
    d: Dispatch,
    t: AppState,
    e: Effect,
)
    requires
        stage != Stage::Idle,
        stepped(stage, avail, s, reply, d, t, e),
    ensures
        rank(d.stage) < rank(stage),
        d.stage == Stage::Idle <==> e is Finish,
{
}

/// At the stages that drive or read the engine for a book, a book is
/// loaded.
pub open spec fn engine_stage_loaded(stage: Stage, s: AppState) -> bool {
    match stage {
        Stage::GoalRun(_) | Stage::GoalRead(_) | Stage::ChapterRead | Stage::JumpSeek
        | Stage::JumpPlay | Stage::JumpRead => s.loaded_audiobook_id is Some,
        _ => true,
    }
}

/// The stages that read the engine after play/pause, a seek, a chapter or a
/// bookmark jump: their reply is the position to save.
pub open spec fn saves_after_read(stage: Stage) -> bool {
    match stage {
        Stage::GoalRead(g) => g != Goal::Continue,
        Stage::ChapterRead | Stage::JumpRead => true,
        _ => false,
    }
}

/// Law: a dispatch only drives or reads the engine for a loaded book. Every
/// dispatch starts that way, and every step keeps it so.
pub proof fn lemma_engine_stages_loaded(
    s: AppState,
    action: UiAction,
    avail: bool,
    d: Dispatch,
    t: AppState,
    e: Effect,
    reply: Reply,
    d2: Dispatch,
    u: AppState,
    e2: Effect,
)
    requires
        started(s, action, avail, d, t, e),
    ensures
        engine_stage_loaded(d.stage, t),
        stepped(d.stage, d.engine_available, t, reply, d2, u, e2) ==> engine_stage_loaded(d2.stage, u),
{
    if stepped(d.stage, d.engine_available, t, reply, d2, u, e2) {
        lemma_engine_stage_step(d.stage, d.engine_available, t, reply, d2, u, e2);
    }
}

/// Law: a step from a stage with a loaded book (where it needs one) leads
/// to a stage with a loaded book (where it needs one).
pub proof fn lemma_engine_stage_step(
    stage: Stage,
    avail: bool,
    s: AppState,
    reply: Reply,
    d: Dispatch,
    t: AppState,
    e: Effect,
)
    requires
        engine_stage_loaded(stage, s),
        stepped(stage, avail, s, reply, d, t, e),
    ensures
        engine_stage_loaded(d.stage, t),
{
}

/// Law: the playback position is saved after play/pause, every seek, a
/// chapter and a bookmark jump. Once the engine is read at such a stage,
/// the next request saves the position it reported for the loaded book,
/// with whether that book is then completed.
pub proof fn lemma_position_saved_after_read(
    stage: Stage,
    avail: bool,
    s: AppState,
    playing: bool,
    pos: i64,
    d: Dispatch,
    t: AppState,
    e: Effect,
)
    requires
        saves_after_read(stage),
        engine_stage_loaded(stage, s),
        stepped(stage, avail, s, Reply::Engine(playing, pos), d, t, e),
    ensures
        e == Effect::SavePosition(
            s.loaded_audiobook_id.unwrap(),
            pos,
            completed_at(AppState { playback_position_ms: pos, ..s }, s.loaded_audiobook_id.unwrap()),
        ),
        d.stage is Saving,
{
}

/// Law: a chosen chapter plays from its start. Once its file is loaded the
/// engine is sent to position 0 (even when that file was already loaded),
/// and only after that is it told to play.
pub proof fn lemma_chapter_starts_at_beginning(
    book: u64,
    avail: bool,
    s: AppState,
    d: Dispatch,
    t: AppState,
    e: Effect,
    d2: Dispatch,
    u: AppState,
    e2: Effect,
)
    requires
        stepped(Stage::ChapterLoad(book), avail, s, Reply::Done, d, t, e),
        stepped(d.stage, avail, t, Reply::Done, d2, u, e2),
    ensures
        e == Effect::SeekTo(0),
        d.stage == Stage::ChapterSeek(book),
        e2 == Effect::Play,
        d2.stage == Stage::ChapterPlay(book),
        u == s,
{
}

/// Law: outside the search box, the `b` key adds a bookmark in either
/// case, with or without Ctrl/Cmd, and changes nothing else.
pub proof fn lemma_b_adds_bookmark(
    s: AppState,
    x: String,
    text: Option<Seq<char>>,
    command: bool,
    t: AppState,
    r: KeyOutcome,
)
    requires
        !s.search_focused,
        x@ == seq!['b'] || x@ == seq!['B'],
        key_handled(s, KeyInput::Character(x), text, command, t, r),
    ensures
        r.dispatch == Some(UiAction::AddBookmark),
        !r.exit,
        !r.redraw,
        t.search_query@ == s.search_query@,
        crate::state::same_but_query(s, t),
{
}

/// Law: outside the search box, Ctrl/Cmd with the `f` key, in either case,
/// opens the Library page and asks to focus the search box; without
/// Ctrl/Cmd the key does nothing.
pub proof fn lemma_command_f_focuses_search(
    s: AppState,
    x: String,
    text: Option<Seq<char>>,
    command: bool,
    t: AppState,
    r: KeyOutcome,
)
    requires
        !s.search_focused,
        x@ == seq!['f'] || x@ == seq!['F'],
        key_handled(s, KeyInput::Character(x), text, command, t, r),
    ensures
        command ==> r.dispatch == Some(UiAction::FocusSearch) && t.current_page == AppPage::Library,
        !command ==> r.dispatch is None && !r.redraw && t.current_page == s.current_page,
        !r.exit,
{
    assert(x@[0] == 'f' || x@[0] == 'F');
    assert(seq!['b'][0] == 'b' && seq!['B'][0] == 'B');
    assert(x@ != seq!['b'] && x@ != seq!['B']);
}

/// Law: jumping to a bookmark of the loaded book seeks straight to the
/// bookmark's position; for another book it first looks up the book's
/// file, keeping the position for later.
pub proof fn lemma_jump_seeks_bookmark(
    s: AppState,
    book: u64,
    pos: i64,
    d: Dispatch,
    t: AppState,
    e: Effect,
)
    requires
        started(s, UiAction::JumpToBookmark(book, pos), true, d, t, e),
    ensures
        s.loaded_audiobook_id == Some(book) ==> e == Effect::SeekTo(pos) && d.stage == Stage::JumpSeek
            && t == s,
        s.loaded_audiobook_id != Some(book) ==> e == Effect::LookupFirstFile(book) && d.stage
            == Stage::JumpLookup(book, pos) && t == s,
{
}

/// Law: after looking up and loading the bookmark's book, the engine is
/// sent to the bookmark's position, with that book loaded.
pub proof fn lemma_jump_after_load_seeks_bookmark(
    book: u64,
    pos: i64,
    s: AppState,
    p: String,
    d: Dispatch,
    t: AppState,
    e: Effect,
    d2: Dispatch,
    u: AppState,
    e2: Effect,
)
    requires
        stepped(Stage::JumpLookup(book, pos), true, s, Reply::Path(Some(p)), d, t, e),
        stepped(d.stage, true, t, Reply::Done, d2, u, e2),
    ensures
        e == Effect::LoadFile(p),
        e2 == Effect::SeekTo(pos),
        d2.stage == Stage::JumpSeek,
        u.loaded_audiobook_id == Some(book),
{
}

/// Law: every dispatch starts at a stage of rank at most six, and starts
/// finished exactly when it asks for nothing.
pub proof fn lemma_dispatch_start_bounded(
    s: AppState,
    action: UiAction,
    avail: bool,
    d: Dispatch,
    t: AppState,
    e: Effect,
)
    requires
        started(s, action, avail, d, t, e),
    ensures
        rank(d.stage) <= 6,
        d.stage == Stage::Idle <==> e is Finish,
{
}

/// What to save of the playback position: the loaded book (if any), the
/// position and whether it counts as completed.
pub fn position_to_save(state: &AppState) -> (r: Option<(u64, i64, bool)>)
    ensures
        r == match state.loaded_audiobook_id {
            Some(id) => Some((id, state.playback_position_ms, completed_at(*state, id))),
            None => None,
        },
{
    match state.loaded_audiobook_id {
        Some(id) => {
            let position = state.playback_position_ms;
            let total: i64 = match state.library.find_book(id) {
                Some(b) => b.total_duration_ms,
                None => 0,
            };
            Some((id, position, total > 0 && position >= total))
        },
        None => None,
    }
}

fn finish(state: &mut AppState, to_player: bool) -> (r: (Stage, Effect))
    ensures
        finishing(
            *old(state),
            to_player,
            Dispatch { stage: r.0, engine_available: true },
            *final(state),
            r.1,
        ),
{
    match position_to_save(state) {
        Some((id, position, completed)) => {
            (Stage::Saving(to_player), Effect::SavePosition(id, position, completed))
        },
        None => {
            if to_player {
                let _ = state.apply_action(UiAction::NavigatePlayer);
            }
            (Stage::Idle, Effect::Finish(true))
        },
    }
}

fn goal_effect(g: Goal) -> (e: Effect)
    ensures
        e == goal_request(g),
{
    match g {
        Goal::PlayPause => Effect::Toggle,
        Goal::Continue => Effect::Play,
        Goal::SeekBackward => Effect::SeekBackward(SEEK_BACKWARD_SECS),
        Goal::SeekForward => Effect::SeekForward(SEEK_FORWARD_SECS),
    }
}

fn start_goal(state: &AppState, g: Goal, avail: bool) -> (r: (Stage, Effect))
    ensures
        starts_goal(g, *state, avail, Dispatch { stage: r.0, engine_available: avail }, *state, r.1),
{
    if !avail {
        return (Stage::Idle, Effect::Finish(false));
    }
    match state.library.current_listening() {
        None => (Stage::Idle, Effect::Finish(false)),
        Some(book) => {
            let id = book.id;
            if state.loaded_audiobook_id == Some(id) {
                (Stage::GoalRun(g), goal_effect(g))
            } else {
                (Stage::LoadLookup(g, id), Effect::LookupFirstFile(id))
            }
        },
    }
}

fn jump_seek(state: &mut AppState, avail: bool, pos: i64) -> (r: (Stage, Effect))
    ensures
        jump_seeks(
            *old(state),
            avail,
            pos,
            Dispatch { stage: r.0, engine_available: avail },
            *final(state),
            r.1,
        ),
{
    if avail {
        (Stage::JumpSeek, Effect::SeekTo(pos))
    } else {
        let _ = state.apply_action(UiAction::NavigatePlayer);
        (Stage::Idle, Effect::Finish(true))
    }
}

impl Dispatch {
    /// Begins dispatching `action`; `engine_available` tells whether a
    /// playback engine exists. Returns the dispatch and its first request.
    pub fn start(state: &mut AppState, action: UiAction, engine_available: bool) -> (r: (Dispatch, Effect))
        ensures
            started(*old(state), action, engine_available, r.0, *final(state), r.1),
    {
        let avail = engine_available;
        let (stage, effect) = match action {
            UiAction::PlayPause => start_goal(state, Goal::PlayPause, avail),
            UiAction::ContinueListening => start_goal(state, Goal::Continue, avail),
            UiAction::SeekBackward => start_goal(state, Goal::SeekBackward, avail),
            UiAction::SeekForward => start_goal(state, Goal::SeekForward, avail),
            UiAction::SelectChapter(book, chapter) => (
                Stage::ChapterLookup(book),
                Effect::LookupChapterFile(book, chapter),
            ),
            UiAction::JumpToBookmark(book, pos) => {
                if state.loaded_audiobook_id != Some(book) {
                    (Stage::JumpLookup(book, pos), Effect::LookupFirstFile(book))
                } else {
                    jump_seek(state, avail, pos)
                }
            },
            UiAction::AddLibraryFolder => (Stage::FolderPick, Effect::PickFolder),
            UiAction::AddBookmark => {
                match state.library.current_listening() {
                    None => (Stage::Idle, Effect::Finish(false)),
                    Some(book) => (
                        Stage::BookmarkSave,
                        Effect::AddBookmark(
                            book.id,
                            state.playback_position_ms,
                            String::from_str("Quick bookmark"),
                        ),
                    ),
                }
            },
            _ => {
                let changed = state.apply_action(action);
                (Stage::Idle, Effect::Finish(changed))
            },
        };
        (Dispatch { stage, engine_available: avail }, effect)
    }

    /// Goes on with the reply to the last request. Returns the next request.
    pub fn resume(&mut self, state: &mut AppState, reply: Reply) -> (e: Effect)
        ensures
            stepped(old(self).stage, old(self).engine_available, *old(state), reply, *final(self), *final(state), e),
    {
        let avail = self.engine_available;
        let (stage, effect) = match self.stage {
            Stage::LoadLookup(g, id) => match reply {
                Reply::Path(Some(p)) => (Stage::LoadFile(g, id), Effect::LoadFile(p)),
                _ => (Stage::Idle, Effect::Finish(false)),
            },
            Stage::LoadFile(g, id) => match reply {
                Reply::Done => {
                    let resume_ms = state.playback_position_ms;
                    if resume_ms > 0 {
                        (Stage::LoadResume(g, id), Effect::SeekForward((resume_ms / 1000) as u64))
                    } else {
                        state.loaded_audiobook_id = Some(id);
                        (Stage::GoalRun(g), goal_effect(g))
                    }
                },
                _ => (Stage::Idle, Effect::Finish(false)),
            },
            Stage::LoadResume(g, id) => match reply {
                Reply::Done => {
                    state.loaded_audiobook_id = Some(id);
                    (Stage::GoalRun(g), goal_effect(g))
                },
                _ => (Stage::Idle, Effect::Finish(false)),
            },
            Stage::GoalRun(g) => match reply {
                Reply::Done => (Stage::GoalRead(g), Effect::ReadEngine),
                _ => (Stage::Idle, Effect::Finish(false)),
            },
            Stage::GoalRead(g) => match reply {
                Reply::Engine(playing, pos) => match g {
                    Goal::PlayPause => {
                        state.is_playing = playing;
                        state.playback_position_ms = pos;
                        finish(state, false)
                    },
                    Goal::Continue => {
                        state.is_playing = playing;
                        let _ = state.apply_action(UiAction::NavigatePlayer);
                        (Stage::Idle, Effect::Finish(true))
                    },
                    _ => {
                        state.playback_position_ms = pos;
                        finish(state, false)
                    },
                },
                _ => (Stage::Idle, Effect::Finish(false)),
            },
            Stage::ChapterLookup(book) => match reply {
                Reply::Path(Some(p)) => {
                    if avail {
                        (Stage::ChapterLoad(book), Effect::LoadFile(p))
                    } else {
                        (Stage::Idle, Effect::Finish(false))
                    }
                },
                _ => (Stage::Idle, Effect::Finish(false)),
            },
            Stage::ChapterLoad(book) => match reply {
                Reply::Done => (Stage::ChapterSeek(book), Effect::SeekTo(0)),
                _ => (Stage::Idle, Effect::Finish(false)),
            },
            Stage::ChapterSeek(book) => match reply {
                Reply::Done => (Stage::ChapterPlay(book), Effect::Play),
                _ => (Stage::Idle, Effect::Finish(false)),
            },
            Stage::ChapterPlay(book) => match reply {
                Reply::Done => {
                    state.loaded_audiobook_id = Some(book);
                    (Stage::ChapterRead, Effect::ReadEngine)
                },
                _ => (Stage::Idle, Effect::Finish(false)),
            },
            Stage::ChapterRead => match reply {
                Reply::Engine(playing, pos) => {
                    state.is_playing = playing;
                    state.playback_position_ms = pos;
                    finish(state, true)
                },
                _ => (Stage::Idle, Effect::Finish(false)),
            },
            Stage::JumpLookup(book, pos) => match reply {
                Reply::Path(Some(p)) => {
                    if avail {
                        (Stage::JumpLoad(book, pos), Effect::LoadFile(p))
                    } else {
                        state.loaded_audiobook_id = Some(book);
                        jump_seek(state, avail, pos)
                    }
                },
                _ => (Stage::Idle, Effect::Finish(false)),
            },
            Stage::JumpLoad(book, pos) => match reply {
                Reply::Done => {
                    state.loaded_audiobook_id = Some(book);
                    jump_seek(state, avail, pos)
                },
                _ => (Stage::Idle, Effect::Finish(false)),
            },
            Stage::JumpSeek => match reply {
                Reply::Done => (Stage::JumpPlay, Effect::Play),
                _ => (Stage::Idle, Effect::Finish(false)),
            },
            Stage::JumpPlay => match reply {
                Reply::Done => (Stage::JumpRead, Effect::ReadEngine),
                _ => (Stage::Idle, Effect::Finish(false)),
            },
            Stage::JumpRead => match reply {
                Reply::Engine(playing, pos) => {
                    state.is_playing = playing;
                    state.playback_position_ms = pos;
                    finish(state, true)
                },
                _ => (Stage::Idle, Effect::Finish(false)),
            },
            Stage::Saving(to_player) => {
                if to_player {
                    let _ = state.apply_action(UiAction::NavigatePlayer);
                }
                (Stage::Idle, Effect::Finish(true))
            },
            Stage::FolderPick => match reply {
                Reply::Path(Some(p)) => (Stage::FolderScan, Effect::ScanFolder(p)),
                _ => (Stage::Idle, Effect::Finish(false)),
            },
            Stage::FolderScan => match reply {
                Reply::Done => (Stage::FolderReload, Effect::ReloadLibrary),
                _ => (Stage::Idle, Effect::Finish(false)),
            },
            Stage::FolderReload => match reply {
                Reply::Library(lib) => {
                    state.library = lib;
                    (Stage::Idle, Effect::Finish(true))
                },
                _ => (Stage::Idle, Effect::Finish(false)),
            },
            Stage::BookmarkSave => match reply {
                Reply::Done => (Stage::BookmarkReload, Effect::ReloadBookmarks),
                _ => (Stage::Idle, Effect::Finish(false)),
            },
            Stage::BookmarkReload => match reply {
                Reply::Bookmarks(rows) => {
                    state.library.bookmarks = display_bookmarks(&rows);
                    (Stage::Idle, Effect::Finish(true))
                },
                _ => (Stage::Idle, Effect::Finish(true)),
            },
            Stage::Idle => (Stage::Idle, Effect::Finish(false)),
        };
        self.stage = stage;
        effect
    }
}

} // verus!
