use echover::playback::PlaybackCursor;

#[test]
fn a_new_cursor_has_nothing_loaded() {
    let c = PlaybackCursor::new();
    assert!(!c.is_loaded());
    assert!(c.needs_load("a.mp3"));
    assert!(!c.playing(false));
    assert_eq!(c.position_with(1500), 1500);
}

#[test]
fn loading_records_path_and_start() {
    let mut c = PlaybackCursor::new();
    c.record_load("a.mp3".to_string(), 30_000);
    assert!(c.is_loaded());
    assert!(!c.needs_load("a.mp3"));
    assert!(c.needs_load("b.mp3"));
    assert!(c.playing(false));
    assert!(!c.playing(true));
    assert_eq!(c.position_with(2_000), 32_000);
}

#[test]
fn seek_targets_stay_in_range() {
    let mut c = PlaybackCursor::new();
    c.record_load("a.mp3".to_string(), 20_000);
    assert_eq!(c.forward_target(0, 30), 50_000);
    assert_eq!(c.backward_target(0, 15), 5_000);
    assert_eq!(c.backward_target(0, 30), 0);
    assert_eq!(c.forward_target(0, u64::MAX), u64::MAX);
    assert_eq!(c.backward_target(0, u64::MAX), 0);
    assert_eq!(PlaybackCursor::seek_target(-10), 0);
    assert_eq!(PlaybackCursor::seek_target(754_000), 754_000);
    c.record_load("a.mp3".to_string(), i64::MAX as u64);
    // The current position saturates at i64::MAX; the target goes on.
    assert_eq!(c.forward_target(1, 1), i64::MAX as u64 + 1000);
}

#[test]
fn seeks_start_from_where_playback_stands() {
    let mut c = PlaybackCursor::new();
    c.record_load("a.mp3".to_string(), 0);
    // Sixty seconds played since the load.
    assert_eq!(c.forward_target(60_000, 30), 90_000);
    assert_eq!(c.backward_target(60_000, 15), 45_000);
    assert_eq!(c.backward_target(10_000, 15), 0);
    c.record_load("a.mp3".to_string(), 5_000);
    assert_eq!(c.forward_target(2_500, 30), 37_500);
}

#[test]
fn positions_saturate() {
    let mut c = PlaybackCursor::new();
    c.record_load("a".to_string(), 10);
    assert_eq!(c.position_with(i64::MAX), i64::MAX);
    assert_eq!(c.position_with(-20), -10);
}
