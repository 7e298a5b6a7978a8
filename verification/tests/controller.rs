use echover::action::UiAction;
use echover::controller::{
    handle_key, mouse_press, mouse_release, position_to_save, resume_position, shortcut_action, Dispatch, Effect,
    KeyInput, Reply, SEEK_BACKWARD_SECS, SEEK_FORWARD_SECS,
};
use echover::data::Library;
use echover::hit::{ButtonState, Interaction, RegionHit};
use echover::records::{Audiobook, BookmarkWithTitle};
use echover::state::{AppPage, AppState};

fn library_with(total_ms: i64) -> Library {
    let books = vec![Audiobook::from_row(
        3, "Dune".into(), "F".into(), "S".into(), "".into(), "".into(), total_ms, "".into(), "".into(), 0, 0,
    )];
    Library::from_parts(&books, None, &vec![vec![]], &vec![], &vec![])
}

fn finish_of(e: &Effect) -> Option<bool> {
    match e {
        Effect::Finish(r) => Some(*r),
        _ => None,
    }
}

#[test]
fn escape_clears_the_search_box_then_quits() {
    let mut state = AppState::default();
    state.search_focused = true;
    state.search_query = "du".into();
    let r = handle_key(&mut state, &KeyInput::Escape, None, false);
    assert!(r.redraw && !r.exit && r.dispatch.is_none());
    assert!(state.search_query.is_empty() && !state.search_focused);
    let r = handle_key(&mut state, &KeyInput::Escape, None, false);
    assert!(r.exit && !r.redraw);
}

#[test]
fn typing_goes_into_the_focused_box() {
    let mut state = AppState::default();
    state.search_focused = true;
    let r = handle_key(&mut state, &KeyInput::Character("b".into()), Some("b"), false);
    assert!(r.redraw && r.dispatch.is_none());
    assert_eq!(state.search_query, "b");
    let r = handle_key(&mut state, &KeyInput::Space, Some(" "), false);
    assert!(r.redraw);
    assert_eq!(state.search_query, "b ");
    let r = handle_key(&mut state, &KeyInput::Backspace, None, false);
    assert!(r.redraw);
    assert_eq!(state.search_query, "b");
    let r = handle_key(&mut state, &KeyInput::Enter, None, false);
    assert!(r.redraw && !state.search_focused);
    assert_eq!(state.search_query, "b");
}

#[test]
fn shortcuts_outside_the_box() {
    let mut state = AppState::default();
    assert_eq!(handle_key(&mut state, &KeyInput::Space, Some(" "), false).dispatch, Some(UiAction::PlayPause));
    assert_eq!(handle_key(&mut state, &KeyInput::ArrowLeft, None, false).dispatch, Some(UiAction::SeekBackward));
    assert_eq!(handle_key(&mut state, &KeyInput::ArrowRight, None, false).dispatch, Some(UiAction::SeekForward));
    assert_eq!(
        handle_key(&mut state, &KeyInput::Character("B".into()), Some("B"), false).dispatch,
        Some(UiAction::AddBookmark)
    );
    assert_eq!(handle_key(&mut state, &KeyInput::Character("f".into()), Some("f"), false).dispatch, None);
    let r = handle_key(&mut state, &KeyInput::Character("f".into()), Some("f"), true);
    assert_eq!(r.dispatch, Some(UiAction::FocusSearch));
    assert!(r.redraw);
    assert_eq!(state.current_page, AppPage::Library);
    assert_eq!(shortcut_action(&KeyInput::Other, true), None);
    assert_eq!(shortcut_action(&KeyInput::Character("x".into()), false), None);
}

fn at(region: usize, action: UiAction) -> Option<RegionHit> {
    Some(RegionHit { region, action })
}

#[test]
fn clicks_need_press_and_release_on_the_same_region() {
    let mut state = AppState::default();
    state.search_focused = true;
    let mut interaction = Interaction::default();
    assert!(mouse_press(&mut state, &mut interaction, at(0, UiAction::NavigateHome)));
    assert!(!state.search_focused);
    assert_eq!(interaction.state_for(UiAction::NavigateHome), ButtonState::Pressed);
    assert_eq!(interaction.pressed_region, Some(0));
    assert_eq!(mouse_release(&mut interaction, at(0, UiAction::NavigateHome)), Some(UiAction::NavigateHome));
    assert_eq!(interaction.state_for(UiAction::NavigateHome), ButtonState::Idle);
    assert_eq!(interaction.pressed_region, None);
    assert!(mouse_press(&mut state, &mut interaction, at(2, UiAction::PlayPause)));
    assert_eq!(mouse_release(&mut interaction, at(3, UiAction::SeekForward)), None);
    assert_eq!(mouse_release(&mut interaction, None), None);
    state.search_focused = true;
    let _ = mouse_press(&mut state, &mut interaction, at(1, UiAction::FocusSearch));
    assert!(state.search_focused);
}

#[test]
fn a_release_on_another_region_with_the_same_action_is_no_click() {
    let mut state = AppState::default();
    let mut interaction = Interaction::default();
    let jump = UiAction::JumpToBookmark(1, 500);
    let _ = mouse_press(&mut state, &mut interaction, at(4, jump));
    assert_eq!(mouse_release(&mut interaction, at(5, jump)), None);
    let _ = mouse_press(&mut state, &mut interaction, at(4, jump));
    assert_eq!(mouse_release(&mut interaction, at(4, jump)), Some(jump));
}

#[test]
fn hover_and_press_states() {
    let mut interaction = Interaction::default();
    assert!(interaction.set_hover(Some(UiAction::NavigatePlayer)));
    assert!(!interaction.set_hover(Some(UiAction::NavigatePlayer)));
    assert_eq!(interaction.state_for(UiAction::NavigatePlayer), ButtonState::Hover);
    interaction.pressed = Some(UiAction::NavigatePlayer);
    assert_eq!(interaction.state_for(UiAction::NavigatePlayer), ButtonState::Pressed);
    assert_eq!(interaction.state_for(UiAction::NavigateHome), ButtonState::Idle);
}

#[test]
fn resume_rewinds_five_seconds() {
    assert_eq!(resume_position(60_000), 55_000);
    assert_eq!(resume_position(3_000), 0);
    assert_eq!(resume_position(0), 0);
}

#[test]
fn play_pause_loads_the_book_first() {
    let mut state = AppState::with_library(library_with(600_000));
    state.playback_position_ms = 42_000;
    let (mut d, e) = Dispatch::start(&mut state, UiAction::PlayPause, true);
    assert!(matches!(e, Effect::LookupFirstFile(3)));
    let e = d.resume(&mut state, Reply::Path(Some("dune/1.mp3".into())));
    assert!(matches!(&e, Effect::LoadFile(p) if p == "dune/1.mp3"));
    let e = d.resume(&mut state, Reply::Done);
    assert!(matches!(e, Effect::SeekForward(42)));
    let e = d.resume(&mut state, Reply::Done);
    assert!(matches!(e, Effect::Toggle));
    assert_eq!(state.loaded_audiobook_id, Some(3));
    let e = d.resume(&mut state, Reply::Done);
    assert!(matches!(e, Effect::ReadEngine));
    let e = d.resume(&mut state, Reply::Engine(true, 600_000));
    assert!(matches!(e, Effect::SavePosition(3, 600_000, true)));
    assert!(state.is_playing);
    let e = d.resume(&mut state, Reply::Done);
    assert_eq!(finish_of(&e), Some(true));
    assert_eq!(state.current_page, AppPage::Home);
}

#[test]
fn playback_without_an_engine_does_nothing() {
    let mut state = AppState::with_library(library_with(1000));
    let (_, e) = Dispatch::start(&mut state, UiAction::SeekForward, false);
    assert_eq!(finish_of(&e), Some(false));
    let mut empty = AppState::default();
    let (_, e) = Dispatch::start(&mut empty, UiAction::PlayPause, true);
    assert_eq!(finish_of(&e), Some(false));
    let (_, e) = Dispatch::start(&mut empty, UiAction::AddBookmark, true);
    assert_eq!(finish_of(&e), Some(false));
}

#[test]
fn seeks_run_on_a_loaded_book() {
    let mut state = AppState::with_library(library_with(1000));
    state.loaded_audiobook_id = Some(3);
    let (mut d, e) = Dispatch::start(&mut state, UiAction::SeekBackward, true);
    assert!(matches!(e, Effect::SeekBackward(s) if s == SEEK_BACKWARD_SECS));
    let (_, e) = Dispatch::start(&mut state, UiAction::SeekForward, true);
    assert!(matches!(e, Effect::SeekForward(s) if s == SEEK_FORWARD_SECS));
    let e = d.resume(&mut state, Reply::Failed);
    assert_eq!(finish_of(&e), Some(false));
}

#[test]
fn continue_listening_opens_the_player() {
    let mut state = AppState::with_library(library_with(1000));
    state.loaded_audiobook_id = Some(3);
    let (mut d, e) = Dispatch::start(&mut state, UiAction::ContinueListening, true);
    assert!(matches!(e, Effect::Play));
    assert!(matches!(d.resume(&mut state, Reply::Done), Effect::ReadEngine));
    let e = d.resume(&mut state, Reply::Engine(true, 10));
    assert_eq!(finish_of(&e), Some(true));
    assert_eq!(state.current_page, AppPage::Player);
    assert!(state.is_playing);
}

#[test]
fn chapters_and_bookmarks_jump_to_the_player() {
    let mut state = AppState::with_library(library_with(1000));
    let (mut d, e) = Dispatch::start(&mut state, UiAction::SelectChapter(3, 2), true);
    assert!(matches!(e, Effect::LookupChapterFile(3, 2)));
    assert!(matches!(d.resume(&mut state, Reply::Path(Some("c2.mp3".into()))), Effect::LoadFile(_)));
    assert!(matches!(d.resume(&mut state, Reply::Done), Effect::SeekTo(0)));
    assert!(matches!(d.resume(&mut state, Reply::Done), Effect::Play));
    assert!(matches!(d.resume(&mut state, Reply::Done), Effect::ReadEngine));
    assert_eq!(state.loaded_audiobook_id, Some(3));
    assert!(matches!(d.resume(&mut state, Reply::Engine(true, 5)), Effect::SavePosition(3, 5, false)));
    assert_eq!(finish_of(&d.resume(&mut state, Reply::Done)), Some(true));
    assert_eq!(state.current_page, AppPage::Player);

    let mut state = AppState::with_library(library_with(1000));
    let (mut d, e) = Dispatch::start(&mut state, UiAction::JumpToBookmark(3, 700), false);
    assert!(matches!(e, Effect::LookupFirstFile(3)));
    let e = d.resume(&mut state, Reply::Path(Some("x.mp3".into())));
    assert_eq!(finish_of(&e), Some(true));
    assert_eq!(state.loaded_audiobook_id, Some(3));
    assert_eq!(state.current_page, AppPage::Player);
}

#[test]
fn quick_bookmarks_reload_the_list() {
    let mut state = AppState::with_library(library_with(1000));
    state.playback_position_ms = 250;
    let (mut d, e) = Dispatch::start(&mut state, UiAction::AddBookmark, true);
    assert!(matches!(&e, Effect::AddBookmark(3, 250, note) if note == "Quick bookmark"));
    assert!(matches!(d.resume(&mut state, Reply::Done), Effect::ReloadBookmarks));
    let rows = vec![BookmarkWithTitle::from_row(3, "Dune".into(), "Quick bookmark".into(), 250)];
    assert_eq!(finish_of(&d.resume(&mut state, Reply::Bookmarks(rows))), Some(true));
    assert_eq!(state.library.bookmarks.len(), 1);
    assert_eq!(state.library.bookmarks[0].timestamp, "0:00");
}

#[test]
fn adding_a_folder_scans_and_reloads() {
    let mut state = AppState::default();
    let (mut d, e) = Dispatch::start(&mut state, UiAction::AddLibraryFolder, true);
    assert!(matches!(e, Effect::PickFolder));
    assert!(matches!(d.resume(&mut state, Reply::Path(Some("/books".into()))), Effect::ScanFolder(_)));
    assert!(matches!(d.resume(&mut state, Reply::Done), Effect::ReloadLibrary));
    let e = d.resume(&mut state, Reply::Library(library_with(5)));
    assert_eq!(finish_of(&e), Some(true));
    assert_eq!(state.library.books.len(), 1);
    let (mut d, _) = Dispatch::start(&mut state, UiAction::AddLibraryFolder, true);
    assert_eq!(finish_of(&d.resume(&mut state, Reply::Path(None))), Some(false));
}

#[test]
fn interface_actions_finish_at_once() {
    let mut state = AppState::default();
    let (_, e) = Dispatch::start(&mut state, UiAction::NavigateSettings, true);
    assert_eq!(finish_of(&e), Some(true));
    assert_eq!(state.current_page, AppPage::Settings);
    let (_, e) = Dispatch::start(&mut state, UiAction::NavigateSettings, true);
    assert_eq!(finish_of(&e), Some(false));
}

#[test]
fn bookmark_jumps_seek_play_and_save() {
    let mut state = AppState::with_library(library_with(900_000));
    let (mut d, e) = Dispatch::start(&mut state, UiAction::JumpToBookmark(3, 754_000), true);
    assert!(matches!(e, Effect::LookupFirstFile(3)));
    assert!(matches!(d.resume(&mut state, Reply::Path(Some("d.mp3".into()))), Effect::LoadFile(_)));
    assert!(matches!(d.resume(&mut state, Reply::Done), Effect::SeekTo(754_000)));
    assert_eq!(state.loaded_audiobook_id, Some(3));
    assert!(matches!(d.resume(&mut state, Reply::Done), Effect::Play));
    assert!(matches!(d.resume(&mut state, Reply::Done), Effect::ReadEngine));
    let e = d.resume(&mut state, Reply::Engine(true, 754_010));
    assert!(matches!(e, Effect::SavePosition(3, 754_010, false)));
    assert_eq!(finish_of(&d.resume(&mut state, Reply::Done)), Some(true));
    assert_eq!(state.current_page, AppPage::Player);
    assert_eq!(state.playback_position_ms, 754_010);
}

#[test]
fn a_failed_request_ends_the_dispatch_unchanged() {
    let mut state = AppState::with_library(library_with(900_000));
    let (mut d, _) = Dispatch::start(&mut state, UiAction::SelectChapter(3, 1), true);
    let e = d.resume(&mut state, Reply::Path(Some("c.mp3".into())));
    assert!(matches!(e, Effect::LoadFile(_)));
    assert_eq!(finish_of(&d.resume(&mut state, Reply::Failed)), Some(false));
    assert_eq!(state.loaded_audiobook_id, None);
    assert_eq!(state.current_page, AppPage::Home);
}

#[test]
fn saved_positions_count_completion() {
    let mut state = AppState::with_library(library_with(1000));
    assert_eq!(position_to_save(&state), None);
    state.loaded_audiobook_id = Some(3);
    state.playback_position_ms = 999;
    assert_eq!(position_to_save(&state), Some((3, 999, false)));
    state.playback_position_ms = 1000;
    assert_eq!(position_to_save(&state), Some((3, 1000, true)));
    state.loaded_audiobook_id = Some(8);
    assert_eq!(position_to_save(&state), Some((8, 1000, false)));
}
