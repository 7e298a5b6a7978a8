use echover::scanner::{group_scanned, is_audio_extension, is_audio_file, ScanEntry};

fn entry(path: &str, is_file: bool) -> ScanEntry {
    ScanEntry { path: path.to_string(), is_file }
}

fn sample_walk() -> Vec<ScanEntry> {
    vec![
        entry("root", false),
        entry("root/nested", false),
        entry("root/nested/Book B", false),
        entry("root/nested/Book B/track.flac", true),
        entry("root/Book A", false),
        entry("root/Book A/02.mp3", true),
        entry("root/Book A/cover.jpg", true), // non-audio, ignored
        entry("root/Book A/01.mp3", true),
    ]
}

#[test]
fn groups_audio_files_by_parent_folder() {
    let mut scanned = group_scanned(&sample_walk());
    scanned.sort_by(|a, b| a.title.cmp(&b.title));

    assert_eq!(scanned.len(), 2);
    assert_eq!(scanned[0].title, "Book A");
    assert_eq!(scanned[0].files.len(), 2);
    assert_eq!(scanned[1].title, "Book B");
    assert_eq!(scanned[1].files.len(), 1);
}

#[test]
fn books_and_files_come_out_in_path_order() {
    let scanned = group_scanned(&sample_walk());
    assert_eq!(scanned[0].folder_path, "root/Book A");
    assert_eq!(scanned[0].files, vec!["root/Book A/01.mp3", "root/Book A/02.mp3"]);
    assert_eq!(scanned[1].folder_path, "root/nested/Book B");
    assert_eq!(scanned[1].files, vec!["root/nested/Book B/track.flac"]);
}

#[test]
fn an_empty_walk_yields_no_books() {
    assert!(group_scanned(&Vec::new()).is_empty());
    let only_dirs = vec![entry("root", false), entry("root/x.mp3", false)];
    assert!(group_scanned(&only_dirs).is_empty());
}

#[test]
fn audio_extensions_ignore_case() {
    for ext in ["mp3", "M4A", "m4b", "Flac", "ogg", "OPUS", "wav", "aac"] {
        assert!(is_audio_extension(ext), "{ext}");
    }
    assert!(!is_audio_extension("jpg"));
    assert!(!is_audio_extension(""));
    assert!(is_audio_file("a/b/Track 1.MP3"));
    assert!(!is_audio_file("a/b/notes.txt"));
    assert!(!is_audio_file("a/b/mp3"));
    assert!(!is_audio_file(".mp3"));
}

#[test]
fn every_audio_file_lands_in_the_book_of_its_folder() {
    let walk = vec![
        entry("x/One/a.ogg", true),
        entry("x/Two/b.ogg", true),
        entry("x/One/c.wav", true),
        entry("x/Two/readme.md", true),
    ];
    let scanned = group_scanned(&walk);
    assert_eq!(scanned.len(), 2);
    for e in &walk {
        if is_audio_file(&e.path) {
            let parent = std::path::Path::new(&e.path).parent().unwrap().to_string_lossy().into_owned();
            let book = scanned.iter().find(|b| b.folder_path == parent).unwrap();
            assert!(book.files.contains(&e.path));
        }
    }
    assert_eq!(scanned[0].title, "One");
    assert_eq!(scanned[0].files.len(), 2);
}
