//! The interface's event vocabulary, shared by mouse and keyboard.
use vstd::prelude::*;

verus! {

/// Which books the Library page lists.
#[derive(Debug, Clone, Copy, PartialEq, Eq, Structural)]
pub enum LibraryFilter {
    All,
    InProgress,
    NotStarted,
    Finished,
}

/// Something the user asked for, by click or by key.
#[derive(Debug, Clone, Copy, PartialEq, Eq, Structural)]
pub enum UiAction {
    NavigateHome,
    NavigateLibrary,
    NavigatePlayer,
    NavigateBookmarks,
    NavigateSettings,
    ContinueListening,
    SelectBook(u64),
    SetFilter(LibraryFilter),
    FocusSearch,
    ClearSearch,
    PlayPause,
    SeekBackward,
    SeekForward,
    AddBookmark,
    /// Jump playback to the start of a 1-based chapter inside the book.
    SelectChapter(u64, u32),
    /// Jump playback to a saved bookmark position inside the book.
    JumpToBookmark(u64, i64),
    /// Pick a folder, scan it and rebuild the library.
    AddLibraryFolder,
}

} // verus!
