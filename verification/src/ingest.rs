//! The rows written when folders are scanned or the library is seeded.
use crate::paths::{extension, opt_view, path_extension};
use crate::scanner::ScannedAudiobook;
use crate::text::{ascii_lower, dec, push_dec, to_ascii_lowercase};
use vstd::prelude::*;
use vstd::string::*;

verus! {

/// An audiobook row to insert.
#[derive(Debug, Clone)]
pub struct NewAudiobook {
    pub title: String,
    pub author: String,
    pub narrator: String,
    pub description: String,
    pub cover_path: String,
    pub total_duration_ms: i64,
    pub source_folder_path: String,
}

/// An audio file row to insert for an audiobook.
#[derive(Debug, Clone)]
pub struct NewAudiobookFile {
    pub path: String,
    pub file_index: i64,
    pub duration_ms: i64,
    pub format: String,
    pub disc_number: i64,
    pub track_number: i64,
}

/// A seeded audiobook with its single file.
#[derive(Debug, Clone)]
pub struct SeedBook {
    pub book: NewAudiobook,
    pub file: NewAudiobookFile,
}

/// The duration assumed for a scanned file: 45 minutes.
pub open spec fn estimated_file_ms() -> i64 {
    2_700_000
}

/// The stored format of a file: its extension, ASCII-lower-cased, or
/// `"audio"` when it has none.
pub open spec fn format_of(path: Seq<char>) -> Seq<char> {
    match path_extension(path) {
        Some(e) => ascii_lower(e),
        None => ascii_lower("audio"@),
    }
}

/// The folder key of seeded book `n` (1-based).
pub open spec fn seed_folder(n: nat) -> Seq<char> {
    "__seed__/book-"@ + dec(n)
}

/// Seeded book `i` is `title` by `author`, `minutes` long, kept under its
/// own folder key with one MP3 track of the whole length.
pub open spec fn is_seed(s: SeedBook, i: int, title: Seq<char>, author: Seq<char>, minutes: int) -> bool {
    &&& s.book.title@ == title
    &&& s.book.author@ == author
    &&& s.book.narrator@ == "Unknown Narrator"@
    &&& s.book.description@ == "Seeded fallback audiobook."@
    &&& s.book.cover_path@ == Seq::<char>::empty()
    &&& s.book.total_duration_ms == minutes * 60_000
    &&& s.book.source_folder_path@ == seed_folder((i + 1) as nat)
    &&& s.file.path@ == seed_folder((i + 1) as nat) + "/track-01.mp3"@
    &&& s.file.file_index == 0
    &&& s.file.duration_ms == minutes * 60_000
    &&& s.file.format@ == "mp3"@
    &&& s.file.disc_number == 1
    &&& s.file.track_number == 1
}

fn seed_book(index: u64, title: &str, author: &str, minutes: i64) -> (r: SeedBook)
    requires
        index < 100,
        0 <= minutes <= 10_000,
    ensures
        is_seed(r, index as int, title@, author@, minutes as int),
{
    let mut folder = String::from_str("__seed__/book-");
    push_dec(&mut folder, index + 1);
    let mut path = folder.clone();
    path.append("/track-01.mp3");
    let total: i64 = minutes * 60_000;
    SeedBook {
        book: NewAudiobook {
            title: String::from_str(title),
            author: String::from_str(author),
            narrator: String::from_str("Unknown Narrator"),
            description: String::from_str("Seeded fallback audiobook."),
            cover_path: String::new(),
            total_duration_ms: total,
            source_folder_path: folder,
        },
        file: NewAudiobookFile {
            path,
            file_index: 0,
            duration_ms: total,
            format: String::from_str("mp3"),
            disc_number: 1,
            track_number: 1,
        },
    }
}

/// The books seeded into an empty library.
pub fn seed_books() -> (r: Vec<SeedBook>)
    ensures
        r@.len() == 5,
        is_seed(r@[0], 0, "The Fellowship of the Ring"@, "J.R.R. Tolkien"@, (19 * 60 + 7) as int),
        is_seed(r@[1], 1, "Project Hail Mary"@, "Andy Weir"@, (16 * 60 + 10) as int),
        is_seed(r@[2], 2, "Atomic Habits"@, "James Clear"@, (5 * 60 + 35) as int),
        is_seed(r@[3], 3, "Dune"@, "Frank Herbert"@, (21 * 60 + 2) as int),
        is_seed(r@[4], 4, "Sapiens"@, "Yuval Noah Harari"@, (15 * 60 + 18) as int),
{
    let mut r: Vec<SeedBook> = Vec::new();
    r.push(seed_book(0, "The Fellowship of the Ring", "J.R.R. Tolkien", 19 * 60 + 7));
    r.push(seed_book(1, "Project Hail Mary", "Andy Weir", 16 * 60 + 10));
    r.push(seed_book(2, "Atomic Habits", "James Clear", 5 * 60 + 35));
    r.push(seed_book(3, "Dune", "Frank Herbert", 21 * 60 + 2));
    r.push(seed_book(4, "Sapiens", "Yuval Noah Harari", 15 * 60 + 18));
    r
}

/// The audiobook row for a scanned folder that is not stored yet.
pub fn scanned_book_row(scanned: &ScannedAudiobook) -> (r: NewAudiobook)
    ensures
        r.title == scanned.title,
        r.author@ == "Unknown Author"@,
        r.narrator@ == "Unknown Narrator"@,
        r.description@ == "Imported from local folder scan."@,
        r.cover_path@ == Seq::<char>::empty(),
        r.total_duration_ms == 0,
        r.source_folder_path == scanned.folder_path,
{
    NewAudiobook {
        title: scanned.title.clone(),
        author: String::from_str("Unknown Author"),
        narrator: String::from_str("Unknown Narrator"),
        description: String::from_str("Imported from local folder scan."),
        cover_path: String::new(),
        total_duration_ms: 0,
        source_folder_path: scanned.folder_path.clone(),
    }
}

/// The stored format of a file.
pub fn file_format(path: &str) -> (r: String)
    ensures
        r@ == format_of(path@),
{
    let ext = extension(path);
    format_from_extension(ext)
}

/// The stored format given a file's extension (if any).
pub fn format_from_extension(ext: Option<String>) -> (r: String)
    ensures
        r@ == match opt_view(ext) {
            Some(e) => ascii_lower(e),
            None => ascii_lower("audio"@),
        },
{
    match ext {
        Some(e) => to_ascii_lowercase(e.as_str()),
        None => to_ascii_lowercase("audio"),
    }
}

/// The file rows for a scanned folder, one per file in order: its index,
/// a 1-based track number, disc 1, the estimated duration and its format.
/// Files already stored are skipped by the caller; they keep their index.
pub fn scanned_file_rows(scanned: &ScannedAudiobook) -> (r: Vec<NewAudiobookFile>)
    requires
        scanned.files@.len() <= isize::MAX,
    ensures
        r@.len() == scanned.files@.len(),
        forall|i: int|
            0 <= i < r@.len() ==> {
                &&& (#[trigger] r@[i]).path == scanned.files@[i]
                &&& r@[i].file_index == i
                &&& r@[i].duration_ms == estimated_file_ms()
                &&& r@[i].format@ == format_of(scanned.files@[i]@)
                &&& r@[i].disc_number == 1
                &&& r@[i].track_number == i + 1
            },
{
    let mut r: Vec<NewAudiobookFile> = Vec::new();
    let mut i: usize = 0;
    while i < scanned.files.len()
        invariant
            scanned.files@.len() <= isize::MAX,
            i <= scanned.files@.len(),
            r@.len() == i,
            forall|k: int|
                0 <= k < i ==> {
                    &&& (#[trigger] r@[k]).path == scanned.files@[k]
                    &&& r@[k].file_index == k
                    &&& r@[k].duration_ms == estimated_file_ms()
                    &&& r@[k].format@ == format_of(scanned.files@[k]@)
                    &&& r@[k].disc_number == 1
                    &&& r@[k].track_number == k + 1
                },
        decreases scanned.files.len() - i,
    {
        let path = &scanned.files[i];
        let index: i64 = i as i64;
        assert(index == i);
        r.push(
            NewAudiobookFile {
                path: path.clone(),
                file_index: index,
                duration_ms: 2_700_000,
                format: file_format(path.as_str()),
                disc_number: 1,
                track_number: index + 1,
            },
        );
        i = i + 1;
    }
    r
}

/// The row offset of a 1-based chapter among a book's ordered files; no
/// chapter has index 0.
pub fn chapter_offset(chapter_index_1_based: u32) -> (r: Option<i64>)
    ensures
        chapter_index_1_based == 0 ==> r is None,
        chapter_index_1_based > 0 ==> r == Some((chapter_index_1_based - 1) as i64),
{
    if chapter_index_1_based == 0 {
        return None;
    }
    Some((chapter_index_1_based - 1) as i64)
}

} // verus!
