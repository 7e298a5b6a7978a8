//! The library snapshot the interface renders: books, chapters, bookmarks
//! and folders, with their display texts.
use crate::paths::{file_name, file_stem, opt_view, path_file_name, path_file_stem};
use crate::records::{
    whole_minutes, Audiobook, AudiobookFile, BookmarkWithTitle, LibraryFolderWithCount,
    MinimalPlaybackState,
};
use crate::text::{dec, pad2, push_dec, push_pad2, replace_char, replace_chars};
use vstd::prelude::*;
use vstd::string::*;

verus! {

/// A book as the pages show it. `progress_position_ms` is the saved
/// position that its progress reflects: progress is
/// `progress_position_ms / total_duration_ms` clamped to `0..=1`, and 0
/// when the total is not positive.
#[derive(Debug, Clone)]
pub struct DisplayBook {
    pub id: u64,
    pub title: String,
    pub author: String,
    pub narrator: String,
    pub current_chapter: String,
    pub duration_text: String,
    pub remaining_text: String,
    pub progress_position_ms: i64,
    pub total_duration_ms: i64,
    pub completed: bool,
    pub chapters: Vec<DisplayChapter>,
}

/// One chapter row: its 1-based index, title and duration.
#[derive(Debug, Clone)]
pub struct DisplayChapter {
    pub index: u32,
    pub title: String,
    pub duration_text: String,
}

/// One bookmark row.
#[derive(Debug, Clone)]
pub struct DisplayBookmark {
    pub book_id: u64,
    pub book_title: String,
    pub note: String,
    pub timestamp: String,
    pub position_ms: i64,
}

/// One library folder row.
#[derive(Debug, Clone)]
pub struct DisplayFolder {
    pub label: String,
    pub path: String,
    pub book_count: u32,
}

/// Read-only snapshot of the library that the interface renders.
#[derive(Debug)]
pub struct Library {
    pub books: Vec<DisplayBook>,
    pub bookmarks: Vec<DisplayBookmark>,
    pub folders: Vec<DisplayFolder>,
    pub current_listening_id: Option<u64>,
}

impl DisplayBook {
    /// Progress is above zero.
    pub open spec fn started(&self) -> bool {
        self.total_duration_ms > 0 && self.progress_position_ms > 0
    }

    /// Progress has reached one.
    pub open spec fn reached_end(&self) -> bool {
        self.total_duration_ms > 0 && self.progress_position_ms >= self.total_duration_ms
    }

    /// Whether progress is above zero.
    pub fn has_started(&self) -> (r: bool)
        ensures
            r == self.started(),
    {
        self.total_duration_ms > 0 && self.progress_position_ms > 0
    }

    /// Whether progress has reached one.
    pub fn has_reached_end(&self) -> (r: bool)
        ensures
            r == self.reached_end(),
    {
        self.total_duration_ms > 0 && self.progress_position_ms >= self.total_duration_ms
    }
}

/// Whole seconds in a position; negative positions count as none.
pub open spec fn whole_seconds(ms: int) -> nat {
    if ms <= 0 {
        0
    } else {
        (ms / 1000) as nat
    }
}

/// `"{h}:{m:02}:{s:02}"`, or `"{m}:{s:02}"` under an hour.
pub open spec fn position_text(ms: int) -> Seq<char> {
    let t = whole_seconds(ms);
    let h = t / 3600;
    let m = (t % 3600) / 60;
    let s = t % 60;
    if h > 0 {
        dec(h) + ":"@ + pad2(m) + ":"@ + pad2(s)
    } else {
        dec(m) + ":"@ + pad2(s)
    }
}

/// A chapter's duration: `"{h}h {m:02}m"` from an hour on, else `"{m}m"`.
pub open spec fn duration_short_text(ms: int) -> Seq<char> {
    let t = whole_minutes(ms);
    if t >= 60 {
        dec(t / 60) + "h "@ + pad2(t % 60) + "m"@
    } else {
        dec(t) + "m"@
    }
}

/// Time left in whole minutes: `"{h}h {m:02}m left"`, or `"{m}m left"`
/// under an hour.
pub open spec fn minutes_left_text(remaining_ms: int) -> Seq<char> {
    let t = whole_minutes(remaining_ms);
    let h = t / 60;
    let m = t % 60;
    if h > 0 {
        dec(h) + "h "@ + pad2(m) + "m left"@
    } else {
        dec(m) + "m left"@
    }
}

/// The remaining-time caption of a book at `position_ms`: empty without a
/// positive total, `"Finished"` once a started book has nothing left.
pub open spec fn remaining_text(total_ms: int, position_ms: int) -> Seq<char> {
    if total_ms <= 0 {
        Seq::empty()
    } else {
        let remaining = if total_ms - position_ms > 0 { total_ms - position_ms } else { 0 };
        if position_ms > 0 && remaining == 0 {
            "Finished"@
        } else {
            minutes_left_text(remaining)
        }
    }
}

/// A chapter title made from a file path: its file stem (or the whole path
/// when it has none) with `_` and `-` turned into spaces.
pub open spec fn chapter_title(path: Seq<char>) -> Seq<char> {
    let stem = match path_file_stem(path) {
        Some(s) => s,
        None => path,
    };
    replace_char(replace_char(stem, '_', ' '), '-', ' ')
}

/// A folder's label: its final path component, or the whole path.
pub open spec fn folder_label_text(path: Seq<char>) -> Seq<char> {
    match path_file_name(path) {
        Some(n) => n,
        None => path,
    }
}

pub(crate) fn push_minutes_left(r: &mut String, remaining_ms: i64)
    requires
        remaining_ms >= 0,
    ensures
        final(r)@ == old(r)@ + minutes_left_text(remaining_ms as int),
{
    let ghost start = r@;
    let total_minutes: i64 = remaining_ms / 60_000;
    let h: u64 = (total_minutes / 60) as u64;
    let m: u64 = (total_minutes % 60) as u64;
    if h > 0 {
        push_dec(r, h);
        r.append("h ");
        push_pad2(r, m);
        r.append("m left");
    } else {
        push_dec(r, m);
        r.append("m left");
    }
    assert(r@ =~= start + minutes_left_text(remaining_ms as int));
}

/// Renders a position as `h:mm:ss`, or `m:ss` under an hour.
pub fn format_position(ms: i64) -> (r: String)
    ensures
        r@ == position_text(ms as int),
{
    let total_seconds: i64 = if ms <= 0 {
        0
    } else {
        ms / 1000
    };
    let h: u64 = (total_seconds / 3600) as u64;
    let m: u64 = ((total_seconds % 3600) / 60) as u64;
    let s: u64 = (total_seconds % 60) as u64;
    let mut r = String::new();
    if h > 0 {
        push_dec(&mut r, h);
        r.append(":");
        push_pad2(&mut r, m);
        r.append(":");
        push_pad2(&mut r, s);
    } else {
        push_dec(&mut r, m);
        r.append(":");
        push_pad2(&mut r, s);
    }
    assert(r@ =~= position_text(ms as int));
    r
}

/// Renders a chapter's duration.
pub fn format_duration_short(ms: i64) -> (r: String)
    ensures
        r@ == duration_short_text(ms as int),
{
    let total_minutes: i64 = if ms <= 0 {
        0
    } else {
        ms / 60_000
    };
    let mut r = String::new();
    if total_minutes >= 60 {
        push_dec(&mut r, (total_minutes / 60) as u64);
        r.append("h ");
        push_pad2(&mut r, (total_minutes % 60) as u64);
        r.append("m");
    } else {
        push_dec(&mut r, total_minutes as u64);
        r.append("m");
    }
    assert(r@ =~= duration_short_text(ms as int));
    r
}

/// Renders the time left in a book of `total_ms` at `position_ms`.
pub fn format_remaining(total_ms: i64, position_ms: i64) -> (r: String)
    requires
        i64::MIN <= total_ms - position_ms <= i64::MAX,
    ensures
        r@ == remaining_text(total_ms as int, position_ms as int),
{
    let mut r = String::new();
    if total_ms <= 0 {
        assert(r@ =~= remaining_text(total_ms as int, position_ms as int));
        return r;
    }
    let diff: i64 = total_ms - position_ms;
    let remaining_ms: i64 = if diff > 0 { diff } else { 0 };
    if position_ms > 0 && remaining_ms == 0 {
        r.append("Finished");
        assert(r@ =~= remaining_text(total_ms as int, position_ms as int));
        return r;
    }
    push_minutes_left(&mut r, remaining_ms);
    assert(r@ =~= remaining_text(total_ms as int, position_ms as int));
    r
}

/// Turns a file path into a chapter title.
pub fn chapter_title_from_path(path: &str) -> (r: String)
    ensures
        r@ == chapter_title(path@),
{
    let stem = file_stem(path);
    title_from_stem(stem, path)
}

/// Turns the file stem found for `path` (if any) into a chapter title.
pub fn title_from_stem(stem: Option<String>, path: &str) -> (r: String)
    ensures
        r@ == replace_char(
            replace_char(
                match opt_view(stem) {
                    Some(s) => s,
                    None => path@,
                },
                '_',
                ' ',
            ),
            '-',
            ' ',
        ),
{
    let base = match &stem {
        Some(s) => s.as_str(),
        None => path,
    };
    let once = replace_chars(base, '_', ' ');
    replace_chars(once.as_str(), '-', ' ')
}

/// A folder's label.
pub fn folder_label(path: &str) -> (r: String)
    ensures
        r@ == folder_label_text(path@),
{
    let name = file_name(path);
    label_from_name(name, path)
}

/// The label for `path` given its final component (if any).
pub fn label_from_name(name: Option<String>, path: &str) -> (r: String)
    ensures
        r@ == match opt_view(name) {
            Some(n) => n,
            None => path@,
        },
{
    match name {
        Some(n) => n,
        None => String::from_str(path),
    }
}

/// The position the remaining-time caption of book `id` is measured at:
/// the latest saved position when it belongs to that book, else 0.
pub open spec fn listening_position(latest: Option<MinimalPlaybackState>, id: u64) -> i64 {
    match latest {
        Some(p) => if p.audiobook_id == id {
            p.position_ms
        } else {
            0
        },
        None => 0,
    }
}

/// Chapter row `k` shows file `f`.
pub open spec fn shows_chapter(c: DisplayChapter, k: int, f: AudiobookFile) -> bool {
    &&& c.index == (k + 1) as u32
    &&& c.title@ == chapter_title(f.path@)
    &&& c.duration_text@ == duration_short_text(f.duration_ms as int)
}

/// Book row `b` shows the stored book `raw` with its files `files`.
pub open spec fn shows_book(
    b: DisplayBook,
    raw: Audiobook,
    files: Seq<AudiobookFile>,
    latest: Option<MinimalPlaybackState>,
) -> bool {
    &&& b.id == raw.id
    &&& b.title == raw.title
    &&& b.author == raw.author
    &&& b.narrator == raw.narrator
    &&& b.current_chapter == raw.current_chapter
    &&& b.duration_text == raw.duration_text
    &&& b.remaining_text@ == remaining_text(
        raw.total_duration_ms as int,
        listening_position(latest, raw.id) as int,
    )
    &&& b.progress_position_ms == raw.position_ms
    &&& b.total_duration_ms == raw.total_duration_ms
    &&& b.completed == raw.completed
    &&& b.chapters@.len() == files.len()
    &&& forall|k: int| 0 <= k < files.len() ==> shows_chapter(#[trigger] b.chapters@[k], k, files[k])
}

/// Bookmark row `d` shows the stored bookmark `b`.
pub open spec fn shows_bookmark(d: DisplayBookmark, b: BookmarkWithTitle) -> bool {
    &&& d.book_id == b.audiobook_id
    &&& d.book_title == b.book_title
    &&& d.note == b.note
    &&& d.timestamp@ == position_text(b.position_ms as int)
    &&& d.position_ms == b.position_ms
}

/// Folder row `d` shows the stored folder `f`.
pub open spec fn shows_folder(d: DisplayFolder, f: LibraryFolderWithCount) -> bool {
    &&& d.label@ == folder_label_text(f.path@)
    &&& d.path == f.path
    &&& d.book_count == f.book_count
}

/// Bookmark rows for the stored bookmarks, in order.
pub open spec fn shows_bookmarks(d: Seq<DisplayBookmark>, b: Seq<BookmarkWithTitle>) -> bool {
    d.len() == b.len() && forall|i: int| 0 <= i < b.len() ==> shows_bookmark(#[trigger] d[i], b[i])
}

/// `i` is the first book with id `id`.
pub open spec fn is_first_with_id(books: Seq<DisplayBook>, id: u64, i: int) -> bool {
    &&& 0 <= i < books.len()
    &&& books[i].id == id
    &&& forall|j: int| 0 <= j < i ==> books[j].id != id
}

/// The first book with id `id`, if any.
pub open spec fn lookup(books: Seq<DisplayBook>, id: u64) -> Option<DisplayBook> {
    if exists|i: int| is_first_with_id(books, id, i) {
        Some(books[choose|i: int| is_first_with_id(books, id, i)])
    } else {
        None
    }
}

/// The first book, if any.
pub open spec fn first_book(books: Seq<DisplayBook>) -> Option<DisplayBook> {
    if books.len() > 0 {
        Some(books[0])
    } else {
        None
    }
}

/// The book the Home and Player pages show: the one being listened to
/// when it is in the library, else the first book.
pub open spec fn listening_book(lib: Library) -> Option<DisplayBook> {
    match lib.current_listening_id {
        Some(id) => match lookup(lib.books@, id) {
            Some(b) => Some(b),
            None => first_book(lib.books@),
        },
        None => first_book(lib.books@),
    }
}

/// The view of an optional borrowed book.
pub open spec fn opt_book(o: Option<&DisplayBook>) -> Option<DisplayBook> {
    match o {
        Some(b) => Some(*b),
        None => None,
    }
}

proof fn lemma_first_unique(books: Seq<DisplayBook>, id: u64, i: int, j: int)
    requires
        is_first_with_id(books, id, i),
        is_first_with_id(books, id, j),
    ensures
        i == j,
{
}

/// Bookmark rows for stored bookmarks.
pub fn display_bookmarks(rows: &Vec<BookmarkWithTitle>) -> (r: Vec<DisplayBookmark>)
    ensures
        shows_bookmarks(r@, rows@),
{
    let mut r: Vec<DisplayBookmark> = Vec::new();
    let mut i: usize = 0;
    while i < rows.len()
        invariant
            i <= rows.len(),
            r@.len() == i,
            forall|k: int| 0 <= k < i ==> shows_bookmark(#[trigger] r@[k], rows@[k]),
        decreases rows.len() - i,
    {
        let b = &rows[i];
        r.push(
            DisplayBookmark {
                book_id: b.audiobook_id,
                book_title: b.book_title.clone(),
                note: b.note.clone(),
                timestamp: format_position(b.position_ms),
                position_ms: b.position_ms,
            },
        );
        i = i + 1;
    }
    r
}

fn display_chapters(files: &Vec<AudiobookFile>) -> (r: Vec<DisplayChapter>)
    ensures
        r@.len() == files@.len(),
        forall|k: int| 0 <= k < files@.len() ==> shows_chapter(#[trigger] r@[k], k, files@[k]),
{
    let mut r: Vec<DisplayChapter> = Vec::new();
    let mut k: usize = 0;
    while k < files.len()
        invariant
            k <= files.len(),
            r@.len() == k,
            forall|j: int| 0 <= j < k ==> shows_chapter(#[trigger] r@[j], j, files@[j]),
        decreases files.len() - k,
    {
        let f = &files[k];
        r.push(
            DisplayChapter {
                index: (k + 1) as u32,
                title: chapter_title_from_path(f.path.as_str()),
                duration_text: format_duration_short(f.duration_ms),
            },
        );
        k = k + 1;
    }
    r
}

impl Library {
    /// The empty library.
    pub fn empty() -> (r: Library)
        ensures
            r.books@.len() == 0,
            r.bookmarks@.len() == 0,
            r.folders@.len() == 0,
            r.current_listening_id is None,
    {
        Library {
            books: Vec::new(),
            bookmarks: Vec::new(),
            folders: Vec::new(),
            current_listening_id: None,
        }
    }

    /// Builds the snapshot from what storage holds: the books (most recent
    /// first), the latest saved playback state, each book's files, the
    /// bookmarks with their book titles and the folders with their counts.
    /// The book being listened to is the one of the latest playback state,
    /// or else the first book.
    pub fn from_parts(
        books: &Vec<Audiobook>,
        latest: Option<MinimalPlaybackState>,
        files: &Vec<Vec<AudiobookFile>>,
        bookmarks: &Vec<BookmarkWithTitle>,
        folders: &Vec<LibraryFolderWithCount>,
    ) -> (r: Library)
        requires
            files@.len() == books@.len(),
            forall|i: int|
                0 <= i < books@.len() ==> i64::MIN <= #[trigger] books@[i].total_duration_ms
                    - listening_position(latest, books@[i].id) <= i64::MAX,
        ensures
            r.current_listening_id == match latest {
                Some(p) => Some(p.audiobook_id),
                None => if books@.len() > 0 {
                    Some(books@[0].id)
                } else {
                    None
                },
            },
            r.books@.len() == books@.len(),
            forall|i: int|
                0 <= i < books@.len() ==> shows_book(
                    #[trigger] r.books@[i],
                    books@[i],
                    files@[i]@,
                    latest,
                ),
            shows_bookmarks(r.bookmarks@, bookmarks@),
            r.folders@.len() == folders@.len(),
            forall|i: int| 0 <= i < folders@.len() ==> shows_folder(#[trigger] r.folders@[i], folders@[i]),
    {
        let current_listening_id = match &latest {
            Some(p) => Some(p.audiobook_id),
            None => if books.len() > 0 {
                Some(books[0].id)
            } else {
                None
            },
        };
        let mut shown: Vec<DisplayBook> = Vec::new();
        let mut i: usize = 0;
        while i < books.len()
            invariant
                files@.len() == books@.len(),
                forall|j: int|
                    0 <= j < books@.len() ==> i64::MIN <= #[trigger] books@[j].total_duration_ms
                        - listening_position(latest, books@[j].id) <= i64::MAX,
                i <= books.len(),
                shown@.len() == i,
                forall|j: int|
                    0 <= j < i ==> shows_book(#[trigger] shown@[j], books@[j], files@[j]@, latest),
            decreases books.len() - i,
        {
            let raw = &books[i];
            let position_ms: i64 = match &latest {
                Some(p) => if p.audiobook_id == raw.id {
                    p.position_ms
                } else {
                    0
                },
                None => 0,
            };
            assert(position_ms == listening_position(latest, books@[i as int].id));
            shown.push(
                DisplayBook {
                    id: raw.id,
                    title: raw.title.clone(),
                    author: raw.author.clone(),
                    narrator: raw.narrator.clone(),
                    current_chapter: raw.current_chapter.clone(),
                    duration_text: raw.duration_text.clone(),
                    remaining_text: format_remaining(raw.total_duration_ms, position_ms),
                    progress_position_ms: raw.position_ms,
                    total_duration_ms: raw.total_duration_ms,
                    completed: raw.completed,
                    chapters: display_chapters(&files[i]),
                },
            );
            i = i + 1;
        }
        let mut shown_folders: Vec<DisplayFolder> = Vec::new();
        let mut k: usize = 0;
        while k < folders.len()
            invariant
                k <= folders.len(),
                shown_folders@.len() == k,
                forall|j: int|
                    0 <= j < k ==> shows_folder(#[trigger] shown_folders@[j], folders@[j]),
            decreases folders.len() - k,
        {
            let f = &folders[k];
            shown_folders.push(
                DisplayFolder {
                    label: folder_label(f.path.as_str()),
                    path: f.path.clone(),
                    book_count: f.book_count,
                },
            );
            k = k + 1;
        }
        Library {
            books: shown,
            bookmarks: display_bookmarks(bookmarks),
            folders: shown_folders,
            current_listening_id,
        }
    }

    /// The first book with id `id`.
    pub fn find_book(&self, id: u64) -> (r: Option<&DisplayBook>)
        ensures
            opt_book(r) == lookup(self.books@, id),
    {
        let mut i: usize = 0;
        while i < self.books.len()
            invariant
                i <= self.books@.len(),
                forall|j: int| 0 <= j < i ==> self.books@[j].id != id,
            decreases self.books.len() - i,
        {
            if self.books[i].id == id {
                proof {
                    assert(is_first_with_id(self.books@, id, i as int));
                    let c = choose|c: int| is_first_with_id(self.books@, id, c);
                    lemma_first_unique(self.books@, id, i as int, c);
                }
                return Some(&self.books[i]);
            }
            i = i + 1;
        }
        assert(!exists|c: int| is_first_with_id(self.books@, id, c));
        None
    }

    /// The book being listened to, or the first book when that one is not
    /// in the library (or none is set).
    pub fn current_listening(&self) -> (r: Option<&DisplayBook>)
        ensures
            opt_book(r) == listening_book(*self),
    {
        if let Some(id) = self.current_listening_id {
            let found = self.find_book(id);
            if found.is_some() {
                return found;
            }
        }
        if self.books.len() > 0 {
            Some(&self.books[0])
        } else {
            None
        }
    }
}

} // verus!
