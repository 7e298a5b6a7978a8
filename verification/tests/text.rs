use echover::data::{chapter_title_from_path, folder_label, DisplayBook};
use echover::browse::matches_query;
use echover::ingest::file_format;
use echover::scanner::{group_scanned, is_audio_file, ScanEntry};
use echover::text::{contains_str, replace_chars, str_eq, to_ascii_lowercase};

#[test]
fn path_parts_through_the_library() {
    // file stem
    assert_eq!(chapter_title_from_path("a/b/c.tar.gz"), "c.tar");
    assert_eq!(chapter_title_from_path("a/b/.hidden"), ".hidden");
    // file name
    assert_eq!(folder_label("a/b/c.mp3"), "c.mp3");
    assert_eq!(folder_label("a/b/.."), "a/b/..");
    // extension
    assert_eq!(file_format("a/b/c.Mp3"), "mp3");
    assert_eq!(file_format("a/.hidden"), "audio");
    assert!(!is_audio_file("a/mp3"));
}

#[test]
fn parents_and_path_order_through_the_scan() {
    let walk: Vec<ScanEntry> = ["b/a/1.mp3", "a b/c/2.mp3", "a/z/3.mp3", "a/z/0.mp3"]
        .iter()
        .map(|p| ScanEntry { path: p.to_string(), is_file: true })
        .collect();
    let books = group_scanned(&walk);
    let folders: Vec<&str> = books.iter().map(|b| b.folder_path.as_str()).collect();
    assert_eq!(folders, vec!["a/z", "a b/c", "b/a"]);
    assert_eq!(books[0].files, vec!["a/z/0.mp3", "a/z/3.mp3"]);
}

#[test]
fn unicode_lowercasing_through_search() {
    let book = DisplayBook {
        id: 1,
        title: "ÉCOLE DU SOIR".into(),
        author: "Ana".into(),
        narrator: "Bo".into(),
        current_chapter: "".into(),
        duration_text: "".into(),
        remaining_text: "".into(),
        progress_position_ms: 0,
        total_duration_ms: 0,
        completed: false,
        chapters: vec![],
    };
    assert!(matches_query(&book, "école"));
    assert!(matches_query(&book, "Du Soir"));
    assert!(!matches_query(&book, "ecole"));
}

#[test]
fn string_helpers() {
    assert!(str_eq("abc", "abc"));
    assert!(!str_eq("abc", "abd"));
    assert_eq!(to_ascii_lowercase("MiXéD"), "mixéd");
    assert_eq!(replace_chars("a_b_c", '_', ' '), "a b c");
    assert!(contains_str("hello world", "o w"));
    assert!(contains_str("abc", ""));
    assert!(!contains_str("abc", "abcd"));
}
