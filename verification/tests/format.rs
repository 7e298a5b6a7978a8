use echover::captions::{bookmarks_caption, chapter_index_label, folder_detail, home_subtitle};
use echover::data::{
    chapter_title_from_path, folder_label, format_duration_short, format_position, format_remaining,
};
use echover::player::{author_line, cover_palette_index, elapsed_label, format_remaining_ms};
use echover::records::{format_duration_text, timestamp_text};

#[test]
fn positions_render_as_clock_times() {
    assert_eq!(format_position(0), "0:00");
    assert_eq!(format_position(-5_000), "0:00");
    assert_eq!(format_position(754_000), "12:34");
    assert_eq!(format_position(59_999), "0:59");
    assert_eq!(format_position(3_600_000), "1:00:00");
    assert_eq!(format_position(3_723_000), "1:02:03");
}

#[test]
fn chapter_durations_render_in_minutes() {
    assert_eq!(format_duration_short(0), "0m");
    assert_eq!(format_duration_short(-1), "0m");
    assert_eq!(format_duration_short(12 * 60_000 + 59_000), "12m");
    assert_eq!(format_duration_short(60 * 60_000), "1h 00m");
    assert_eq!(format_duration_short(125 * 60_000), "2h 05m");
}

#[test]
fn remaining_time_captions() {
    assert_eq!(format_remaining(0, 0), "");
    assert_eq!(format_remaining(-3, 10), "");
    assert_eq!(format_remaining(5 * 3_600_000, 2 * 3_600_000), "3h 00m left");
    assert_eq!(format_remaining(10 * 60_000, 0), "10m left");
    assert_eq!(format_remaining(10 * 60_000, 10 * 60_000), "Finished");
    assert_eq!(format_remaining(10 * 60_000, 11 * 60_000), "Finished");
    assert_eq!(format_remaining(90_000, 30_000), "1m left");
}

#[test]
fn remaining_ms_captions() {
    assert_eq!(format_remaining_ms(0), "Finished");
    assert_eq!(format_remaining_ms(-20), "Finished");
    assert_eq!(format_remaining_ms(59_999), "0m left");
    assert_eq!(format_remaining_ms(61 * 60_000), "1h 01m left");
    assert_eq!(format_remaining_ms(45 * 60_000), "45m left");
}

#[test]
fn duration_texts_and_timestamps() {
    assert_eq!(format_duration_text(0), "0h 00m");
    assert_eq!(format_duration_text(-7), "0h 00m");
    assert_eq!(format_duration_text((19 * 60 + 7) * 60_000), "19h 07m");
    assert_eq!(format_duration_text(5 * 60_000 + 59_999), "0h 05m");
    assert_eq!(timestamp_text(0), "0");
    assert_eq!(timestamp_text(1_700_000_000), "1700000000");
}

#[test]
fn titles_and_labels_from_paths() {
    assert_eq!(chapter_title_from_path("a/My_Book-01.mp3"), "My Book 01");
    assert_eq!(chapter_title_from_path("Chapter 3.flac"), "Chapter 3");
    assert_eq!(chapter_title_from_path(""), "");
    assert_eq!(folder_label("/home/me/Audiobooks"), "Audiobooks");
    assert_eq!(folder_label("library"), "library");
    assert_eq!(folder_label("/"), "/");
}

#[test]
fn player_captions() {
    assert_eq!(author_line("Frank Herbert", "Scott Brick"), "Frank Herbert  ·  Narrated by Scott Brick");
    assert_eq!(elapsed_label(40, "5h 00m"), "40%  of  5h 00m");
    assert_eq!(elapsed_label(0, ""), "0%  of  ");
    assert_eq!(elapsed_label(-3, "1m"), "-3%  of  1m");
    assert_eq!(cover_palette_index(0), 0);
    assert_eq!(cover_palette_index(7), 1);
    assert_eq!(cover_palette_index(u64::MAX), (u64::MAX % 6) as usize);
}

#[test]
fn page_captions() {
    assert_eq!(home_subtitle("Andy Weir", "Chapter 1"), "Andy Weir  ·  Chapter 1");
    assert_eq!(chapter_index_label(3), "03");
    assert_eq!(chapter_index_label(12), "12");
    assert_eq!(chapter_index_label(105), "105");
    assert_eq!(
        bookmarks_caption(0),
        "No bookmarks yet — press B while playing to save the current spot."
    );
    assert_eq!(bookmarks_caption(1), "1 saved across your library");
    assert_eq!(bookmarks_caption(42), "42 saved across your library");
    assert_eq!(folder_detail("/home/me/Books", 2), "/home/me/Books  ·  2 books");
    assert_eq!(folder_detail("", 0), "  ·  0 books");
}
