use echover::ingest::{
    chapter_offset, file_format, format_from_extension, scanned_book_row, scanned_file_rows, seed_books,
};
use echover::scanner::ScannedAudiobook;

fn scanned() -> ScannedAudiobook {
    ScannedAudiobook {
        title: "Book A".into(),
        folder_path: "root/Book A".into(),
        files: vec!["root/Book A/01.MP3".into(), "root/Book A/02.m4b".into(), "root/Book A/track".into()],
    }
}

#[test]
fn seeds_are_five_known_books() {
    let seeds = seed_books();
    assert_eq!(seeds.len(), 5);
    assert_eq!(seeds[0].book.title, "The Fellowship of the Ring");
    assert_eq!(seeds[0].book.author, "J.R.R. Tolkien");
    assert_eq!(seeds[0].book.total_duration_ms, (19 * 60 + 7) * 60_000);
    assert_eq!(seeds[0].book.source_folder_path, "__seed__/book-1");
    assert_eq!(seeds[0].file.path, "__seed__/book-1/track-01.mp3");
    assert_eq!(seeds[4].book.title, "Sapiens");
    assert_eq!(seeds[4].book.source_folder_path, "__seed__/book-5");
    assert_eq!(seeds[3].file.duration_ms, (21 * 60 + 2) * 60_000);
    for s in &seeds {
        assert_eq!(s.book.narrator, "Unknown Narrator");
        assert_eq!(s.file.format, "mp3");
        assert_eq!(s.file.track_number, 1);
    }
}

#[test]
fn scanned_folders_become_rows() {
    let s = scanned();
    let book = scanned_book_row(&s);
    assert_eq!(book.title, "Book A");
    assert_eq!(book.author, "Unknown Author");
    assert_eq!(book.description, "Imported from local folder scan.");
    assert_eq!(book.total_duration_ms, 0);
    assert_eq!(book.source_folder_path, "root/Book A");
    let files = scanned_file_rows(&s);
    assert_eq!(files.len(), 3);
    assert_eq!(files[0].format, "mp3");
    assert_eq!(files[1].format, "m4b");
    assert_eq!(files[2].format, "audio");
    assert_eq!(files[1].file_index, 1);
    assert_eq!(files[1].track_number, 2);
    assert_eq!(files[2].duration_ms, 2_700_000);
    assert_eq!(files[0].disc_number, 1);
}

#[test]
fn formats_come_from_extensions() {
    assert_eq!(file_format("x/y.FLAC"), "flac");
    assert_eq!(file_format("noext"), "audio");
    assert_eq!(format_from_extension(Some("OgG".into())), "ogg");
    assert_eq!(format_from_extension(None), "audio");
}

#[test]
fn chapters_count_from_one() {
    assert_eq!(chapter_offset(0), None);
    assert_eq!(chapter_offset(1), Some(0));
    assert_eq!(chapter_offset(12), Some(11));
}
