use echover::action::LibraryFilter;
use echover::browse::{matches_filter, matches_query, visible_books};
use echover::data::{display_bookmarks, DisplayBook, Library};
use echover::player::{player_position_ms, player_remaining_text};
use echover::state::AppState;
use echover::records::{
    Audiobook, AudiobookFile, BookmarkWithTitle, LibraryFolderWithCount, MinimalPlaybackState,
};

fn book(id: i64, title: &str, total_ms: i64, position_ms: i64) -> Audiobook {
    Audiobook::from_row(
        id,
        title.to_string(),
        format!("{title} Author"),
        format!("{title} Narrator"),
        String::new(),
        String::new(),
        total_ms,
        "1".to_string(),
        "2".to_string(),
        position_ms,
        0,
    )
}

fn file(id: i64, book_id: i64, path: &str, index: i64, duration_ms: i64) -> AudiobookFile {
    AudiobookFile::from_row(id, book_id, path.to_string(), index, duration_ms, "mp3".to_string(), 1, index + 1)
}

fn sample_library() -> Library {
    let books = vec![book(1, "Dune", 5 * 3_600_000, 2 * 3_600_000), book(2, "Sapiens", 4 * 3_600_000, 0)];
    let files = vec![
        vec![file(10, 1, "dune/part_one.mp3", 0, 12 * 60_000), file(11, 1, "dune/part-two.mp3", 1, 70 * 60_000)],
        vec![],
    ];
    let latest = Some(MinimalPlaybackState::from_row(1, 2 * 3_600_000, "5".to_string(), 0));
    let marks = vec![BookmarkWithTitle::from_row(1, "Dune".to_string(), "Spice".to_string(), 754_000)];
    let folders = vec![LibraryFolderWithCount::from_row("/home/me/Books".to_string(), 2)];
    Library::from_parts(&books, latest, &files, &marks, &folders)
}

#[test]
fn library_is_built_from_storage_rows() {
    let lib = sample_library();
    assert_eq!(lib.current_listening_id, Some(1));
    assert_eq!(lib.books.len(), 2);
    let dune = &lib.books[0];
    assert_eq!(dune.title, "Dune");
    assert_eq!(dune.duration_text, "5h 00m");
    assert_eq!(dune.remaining_text, "3h 00m left");
    assert_eq!(dune.chapters.len(), 2);
    assert_eq!(dune.chapters[0].index, 1);
    assert_eq!(dune.chapters[0].title, "part one");
    assert_eq!(dune.chapters[0].duration_text, "12m");
    assert_eq!(dune.chapters[1].title, "part two");
    assert_eq!(dune.chapters[1].duration_text, "1h 10m");
    // Sapiens is not the latest played book: its caption counts from 0.
    assert_eq!(lib.books[1].remaining_text, "4h 00m left");
    assert_eq!(lib.bookmarks.len(), 1);
    assert_eq!(lib.bookmarks[0].timestamp, "12:34");
    assert_eq!(lib.bookmarks[0].book_title, "Dune");
    assert_eq!(lib.folders[0].label, "Books");
    assert_eq!(lib.folders[0].book_count, 2);
}

#[test]
fn listening_falls_back_to_the_first_book() {
    let books = vec![book(5, "A", 1000, 0), book(6, "B", 1000, 0)];
    let lib = Library::from_parts(&books, None, &vec![vec![], vec![]], &vec![], &vec![]);
    assert_eq!(lib.current_listening_id, Some(5));
    let mut lib = lib;
    lib.current_listening_id = Some(99);
    assert_eq!(lib.current_listening().unwrap().id, 5);
    lib.current_listening_id = Some(6);
    assert_eq!(lib.current_listening().unwrap().id, 6);
    assert!(lib.find_book(99).is_none());
    assert_eq!(Library::empty().current_listening().map(|b| b.id), None);
}

#[test]
fn folder_counts_never_go_negative() {
    assert_eq!(LibraryFolderWithCount::from_row("x".to_string(), -4).book_count, 0);
    assert_eq!(LibraryFolderWithCount::from_row("x".to_string(), 7).book_count, 7);
}

#[test]
fn completed_flags_read_any_nonzero_value() {
    let done = Audiobook::from_row(1, "T".into(), "A".into(), "N".into(), "".into(), "".into(), 0, "".into(), "".into(), 0, 2);
    assert!(done.completed);
    assert_eq!(done.current_chapter, "Chapter 1");
    assert!(MinimalPlaybackState::from_row(3, 0, "".into(), -1).completed);
    assert!(!MinimalPlaybackState::from_row(3, 0, "".into(), 0).completed);
}

fn shown(total: i64, pos: i64, completed: bool) -> DisplayBook {
    DisplayBook {
        id: 1,
        title: "The Hobbit".into(),
        author: "J.R.R. Tolkien".into(),
        narrator: "Andy Serkis".into(),
        current_chapter: "Chapter 1".into(),
        duration_text: "".into(),
        remaining_text: "".into(),
        progress_position_ms: pos,
        total_duration_ms: total,
        completed,
        chapters: vec![],
    }
}

#[test]
fn filters_follow_progress() {
    let fresh = shown(1000, 0, false);
    let half = shown(1000, 500, false);
    let end = shown(1000, 1000, false);
    let marked = shown(1000, 10, true);
    let no_total = shown(0, 500, false);
    assert!(matches_filter(&fresh, LibraryFilter::NotStarted));
    assert!(!matches_filter(&fresh, LibraryFilter::InProgress));
    assert!(matches_filter(&half, LibraryFilter::InProgress));
    assert!(matches_filter(&end, LibraryFilter::Finished));
    assert!(!matches_filter(&end, LibraryFilter::InProgress));
    assert!(matches_filter(&marked, LibraryFilter::Finished));
    assert!(!matches_filter(&marked, LibraryFilter::NotStarted));
    assert!(matches_filter(&no_total, LibraryFilter::NotStarted));
    for b in [&fresh, &half, &end, &marked] {
        assert!(matches_filter(b, LibraryFilter::All));
    }
}

#[test]
fn queries_search_title_author_and_narrator() {
    let b = shown(1000, 0, false);
    assert!(matches_query(&b, ""));
    assert!(matches_query(&b, "hobbit"));
    assert!(matches_query(&b, "TOLKIEN"));
    assert!(matches_query(&b, "serkis"));
    assert!(!matches_query(&b, "dune"));
}

#[test]
fn visible_books_keep_order() {
    let books = vec![shown(1000, 0, false), shown(1000, 500, false), shown(1000, 0, false)];
    assert_eq!(visible_books(&books, LibraryFilter::NotStarted, ""), vec![0, 2]);
    assert_eq!(visible_books(&books, LibraryFilter::All, "hobbit"), vec![0, 1, 2]);
    assert_eq!(visible_books(&books, LibraryFilter::Finished, ""), Vec::<usize>::new());
    assert!(books[1].has_started());
    assert!(!books[1].has_reached_end());
}

#[test]
fn bookmarks_get_clock_timestamps() {
    let rows = vec![
        BookmarkWithTitle::from_row(2, "B".into(), "n".into(), 3_723_000),
        BookmarkWithTitle::from_row(1, "A".into(), "m".into(), 0),
    ];
    let shown = display_bookmarks(&rows);
    assert_eq!(shown.len(), 2);
    assert_eq!(shown[0].timestamp, "1:02:03");
    assert_eq!(shown[0].book_id, 2);
    assert_eq!(shown[1].timestamp, "0:00");
}

#[test]
fn every_book_is_in_exactly_one_progress_filter() {
    let books = [
        shown(1000, 0, false),
        shown(1000, 1, false),
        shown(1000, 999, false),
        shown(1000, 1000, false),
        shown(1000, 5000, false),
        shown(1000, 0, true),
        shown(0, 700, false),
        shown(-5, -5, true),
    ];
    for b in &books {
        let hits = [LibraryFilter::NotStarted, LibraryFilter::InProgress, LibraryFilter::Finished]
            .iter()
            .filter(|f| matches_filter(b, **f))
            .count();
        assert_eq!(hits, 1);
    }
}

#[test]
fn the_player_prefers_the_live_position() {
    let mut state = AppState::default();
    let b = shown(3_600_000, 600_000, false);
    assert_eq!(player_position_ms(&state, &b), 600_000);
    assert_eq!(player_remaining_text(&state, &b), "50m left");
    state.loaded_audiobook_id = Some(1);
    state.playback_position_ms = 3_000_000;
    assert_eq!(player_position_ms(&state, &b), 3_000_000);
    assert_eq!(player_remaining_text(&state, &b), "10m left");
    state.playback_position_ms = 4_000_000;
    assert_eq!(player_remaining_text(&state, &b), "Finished");
    state.loaded_audiobook_id = Some(2);
    let past_end = shown(1000, 5000, false);
    assert_eq!(player_position_ms(&state, &past_end), 1000);
    let mut no_total = shown(0, 5, false);
    no_total.remaining_text = "soon".into();
    assert_eq!(player_position_ms(&state, &no_total), 0);
    assert_eq!(player_remaining_text(&state, &no_total), "soon");
}
