//! The library's records as they come out of storage, and the durations and
//! timestamps written next to them.
use crate::text::{dec, digit, pad2, push_dec, push_pad2};
use vstd::prelude::*;
use vstd::string::*;

verus! {

/// One audiobook with the playback position saved for it (0 when none was
/// saved). Progress through the book is `position_ms / total_duration_ms`,
/// clamped to `0..=1`, and 0 when the total is not positive.
#[derive(Debug, Clone)]
pub struct Audiobook {
    pub id: u64,
    pub title: String,
    pub author: String,
    pub narrator: String,
    pub description: String,
    pub cover_path: String,
    pub total_duration_ms: i64,
    pub created_at: String,
    pub updated_at: String,
    pub position_ms: i64,
    pub duration_text: String,
    pub current_chapter: String,
    pub completed: bool,
}

/// One audio file of an audiobook.
#[derive(Debug, Clone)]
pub struct AudiobookFile {
    pub id: u64,
    pub audiobook_id: u64,
    pub path: String,
    pub file_index: i64,
    pub duration_ms: i64,
    pub format: String,
    pub disc_number: i64,
    pub track_number: i64,
}

/// A saved position inside an audiobook.
#[derive(Debug, Clone)]
pub struct Bookmark {
    pub id: u64,
    pub audiobook_id: u64,
    pub position_ms: i64,
    pub note: String,
    pub created_at: String,
}

/// A folder registered for scanning.
#[derive(Debug, Clone)]
pub struct LibraryFolder {
    pub id: u64,
    pub path: String,
    pub is_watched: bool,
    pub last_scanned_at: String,
}

/// The part of a saved playback state that the player reads back.
#[derive(Debug, Clone)]
pub struct MinimalPlaybackState {
    pub audiobook_id: u64,
    pub position_ms: i64,
    pub last_played_at: String,
    pub completed: bool,
}

/// A bookmark together with the title of its audiobook.
#[derive(Debug, Clone)]
pub struct BookmarkWithTitle {
    pub audiobook_id: u64,
    pub book_title: String,
    pub note: String,
    pub position_ms: i64,
}

/// A library folder and the number of audiobooks found under it.
#[derive(Debug, Clone)]
pub struct LibraryFolderWithCount {
    pub path: String,
    pub book_count: u32,
}

/// Whole minutes in a duration; negative durations count as none.
pub open spec fn whole_minutes(ms: int) -> nat {
    if ms <= 0 {
        0
    } else {
        (ms / 60_000) as nat
    }
}

/// `"{hours}h {minutes:02}m"` for a total duration.
pub open spec fn duration_text(total_ms: int) -> Seq<char> {
    let m = whole_minutes(total_ms);
    dec(m / 60) + "h "@ + pad2(m % 60) + "m"@
}

/// Law: a duration text is the whole hours in decimal, `h`, a space, the
/// minutes within the hour as exactly two digits (tens, then units), and
/// `m`.
pub proof fn lemma_duration_text_shape(total_ms: int)
    ensures
        duration_text(total_ms) == dec(whole_minutes(total_ms) / 60) + seq![
            'h',
            ' ',
            digit((whole_minutes(total_ms) % 60) / 10),
            digit((whole_minutes(total_ms) % 60) % 10),
            'm',
        ],
        duration_text(total_ms).len() == dec(whole_minutes(total_ms) / 60).len() + 5,
{
    let m = whole_minutes(total_ms);
    let mm = m % 60;
    reveal_strlit("h ");
    reveal_strlit("m");
    if mm < 10 {
        assert(digit(0) == '0');
        assert(pad2(mm) == seq![digit(mm / 10), digit(mm % 10)]);
    } else {
        assert(dec(mm / 10) == seq![digit(mm / 10)]);
        assert(pad2(mm) == seq![digit(mm / 10), digit(mm % 10)]);
    }
    assert(duration_text(total_ms) =~= dec(m / 60) + seq!['h', ' ', digit(mm / 10), digit(mm % 10), 'm']);
}

/// Renders a book's total duration as hours and zero-padded minutes.
pub fn format_duration_text(total_duration_ms: i64) -> (r: String)
    ensures
        r@ == duration_text(total_duration_ms as int),
{
    let total_minutes: i64 = if total_duration_ms <= 0 {
        0
    } else {
        total_duration_ms / 60_000
    };
    let hours: u64 = (total_minutes / 60) as u64;
    let minutes: u64 = (total_minutes % 60) as u64;
    let mut r = String::new();
    push_dec(&mut r, hours);
    r.append("h ");
    push_pad2(&mut r, minutes);
    r.append("m");
    assert(r@ =~= duration_text(total_duration_ms as int));
    r
}

/// The text stored as a timestamp: whole seconds since the Unix epoch.
pub fn timestamp_text(secs: u64) -> (r: String)
    ensures
        r@ == dec(secs as nat),
{
    let mut r = String::new();
    push_dec(&mut r, secs);
    assert(r@ =~= dec(secs as nat));
    r
}

impl Audiobook {
    /// Builds an audiobook from its stored columns: the id is read as
    /// unsigned, the duration text derived from the total, the current
    /// chapter is the first, and any non-zero `completed` counts as done.
    pub fn from_row(
        id: i64,
        title: String,
        author: String,
        narrator: String,
        description: String,
        cover_path: String,
        total_duration_ms: i64,
        created_at: String,
        updated_at: String,
        position_ms: i64,
        completed: i64,
    ) -> (r: Audiobook)
        ensures
            r.id == id as u64,
            r.title == title,
            r.author == author,
            r.narrator == narrator,
            r.description == description,
            r.cover_path == cover_path,
            r.total_duration_ms == total_duration_ms,
            r.created_at == created_at,
            r.updated_at == updated_at,
            r.position_ms == position_ms,
            r.duration_text@ == duration_text(total_duration_ms as int),
            r.current_chapter@ == "Chapter 1"@,
            r.completed == (completed != 0),
    {
        Audiobook {
            id: id as u64,
            title,
            author,
            narrator,
            description,
            cover_path,
            total_duration_ms,
            created_at,
            updated_at,
            position_ms,
            duration_text: format_duration_text(total_duration_ms),
            current_chapter: String::from_str("Chapter 1"),
            completed: completed != 0,
        }
    }
}

impl AudiobookFile {
    /// Builds a file record from its stored columns (ids read as unsigned).
    pub fn from_row(
        id: i64,
        audiobook_id: i64,
        path: String,
        file_index: i64,
        duration_ms: i64,
        format: String,
        disc_number: i64,
        track_number: i64,
    ) -> (r: AudiobookFile)
        ensures
            r == (AudiobookFile {
                id: id as u64,
                audiobook_id: audiobook_id as u64,
                path,
                file_index,
                duration_ms,
                format,
                disc_number,
                track_number,
            }),
    {
        AudiobookFile {
            id: id as u64,
            audiobook_id: audiobook_id as u64,
            path,
            file_index,
            duration_ms,
            format,
            disc_number,
            track_number,
        }
    }
}

impl Bookmark {
    /// Builds a bookmark from its stored columns (ids read as unsigned).
    pub fn from_row(
        id: i64,
        audiobook_id: i64,
        position_ms: i64,
        note: String,
        created_at: String,
    ) -> (r: Bookmark)
        ensures
            r == (Bookmark {
                id: id as u64,
                audiobook_id: audiobook_id as u64,
                position_ms,
                note,
                created_at,
            }),
    {
        Bookmark { id: id as u64, audiobook_id: audiobook_id as u64, position_ms, note, created_at }
    }
}

impl MinimalPlaybackState {
    /// Builds a playback state from its stored columns: the id is read as
    /// unsigned and any non-zero `completed` counts as done.
    pub fn from_row(
        audiobook_id: i64,
        position_ms: i64,
        last_played_at: String,
        completed: i64,
    ) -> (r: MinimalPlaybackState)
        ensures
            r == (MinimalPlaybackState {
                audiobook_id: audiobook_id as u64,
                position_ms,
                last_played_at,
                completed: completed != 0,
            }),
    {
        MinimalPlaybackState {
            audiobook_id: audiobook_id as u64,
            position_ms,
            last_played_at,
            completed: completed != 0,
        }
    }
}

impl BookmarkWithTitle {
    /// Builds a titled bookmark from its stored columns.
    pub fn from_row(
        audiobook_id: i64,
        book_title: String,
        note: String,
        position_ms: i64,
    ) -> (r: BookmarkWithTitle)
        ensures
            r == (BookmarkWithTitle {
                audiobook_id: audiobook_id as u64,
                book_title,
                note,
                position_ms,
            }),
    {
        BookmarkWithTitle { audiobook_id: audiobook_id as u64, book_title, note, position_ms }
    }
}

impl LibraryFolderWithCount {
    /// Builds a folder entry from its path and counted books; a negative
    /// count reads as zero and the count is kept as `u32`.
    pub fn from_row(path: String, count: i64) -> (r: LibraryFolderWithCount)
        ensures
            r.path == path,
            r.book_count == (if count < 0 { 0 } else { count }) as u32,
    {
        let clamped: i64 = if count < 0 { 0 } else { count };
        LibraryFolderWithCount { path, book_count: clamped as u32 }
    }
}

} // verus!
