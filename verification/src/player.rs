//! The texts and numbers of the now-playing page and of book covers.
use crate::data::{minutes_left_text, push_minutes_left, DisplayBook};
use crate::state::AppState;
use crate::text::{dec_int, push_int};
use vstd::prelude::*;
use vstd::string::*;

verus! {

/// The number of cover colours a book's id picks from.
pub const COVER_PALETTE_LEN: u64 = 6;

/// `"Finished"` when nothing is left, else the whole minutes left.
pub open spec fn remaining_ms_text(remaining_ms: int) -> Seq<char> {
    if remaining_ms <= 0 {
        "Finished"@
    } else {
        minutes_left_text(remaining_ms)
    }
}

/// The position the player shows for `book`: the engine's live position
/// when it has this book loaded, else the saved position held to
/// `0..=total` (0 without a positive total).
pub open spec fn shown_position(state: AppState, book: DisplayBook) -> int {
    if state.loaded_audiobook_id == Some(book.id) {
        state.playback_position_ms as int
    } else if book.total_duration_ms <= 0 || book.progress_position_ms <= 0 {
        0
    } else if book.progress_position_ms >= book.total_duration_ms {
        book.total_duration_ms as int
    } else {
        book.progress_position_ms as int
    }
}

/// Renders the time left, from a remaining duration in milliseconds.
pub fn format_remaining_ms(remaining_ms: i64) -> (r: String)
    ensures
        r@ == remaining_ms_text(remaining_ms as int),
{
    let mut r = String::new();
    if remaining_ms <= 0 {
        r.append("Finished");
        assert(r@ =~= remaining_ms_text(remaining_ms as int));
        return r;
    }
    push_minutes_left(&mut r, remaining_ms);
    assert(r@ =~= remaining_ms_text(remaining_ms as int));
    r
}

/// The author and narrator line under the player's title.
pub fn author_line(author: &str, narrator: &str) -> (r: String)
    ensures
        r@ == author@ + "  ·  Narrated by "@ + narrator@,
{
    let mut r = String::new();
    r.append(author);
    r.append("  ·  Narrated by ");
    r.append(narrator);
    r
}

/// The caption left of the progress bar: a whole percentage and the
/// book's length.
pub fn elapsed_label(pct: i32, duration_text: &str) -> (r: String)
    ensures
        r@ == dec_int(pct as int) + "%  of  "@ + duration_text@,
{
    let mut r = String::new();
    push_int(&mut r, pct as i64);
    r.append("%  of  ");
    r.append(duration_text);
    r
}

/// Which cover colour a book gets: its id modulo the palette's size.
pub fn cover_palette_index(id: u64) -> (r: usize)
    ensures
        r == id % COVER_PALETTE_LEN,
{
    (id % COVER_PALETTE_LEN) as usize
}

/// The position the player shows for `book`.
pub fn player_position_ms(state: &AppState, book: &DisplayBook) -> (r: i64)
    ensures
        r == shown_position(*state, *book),
{
    if state.loaded_audiobook_id == Some(book.id) {
        state.playback_position_ms
    } else if book.total_duration_ms <= 0 || book.progress_position_ms <= 0 {
        0
    } else if book.progress_position_ms >= book.total_duration_ms {
        book.total_duration_ms
    } else {
        book.progress_position_ms
    }
}

/// The remaining-time caption of the player: from the shown position when
/// the book has a positive total, else the book's own caption.
pub fn player_remaining_text(state: &AppState, book: &DisplayBook) -> (r: String)
    requires
        book.total_duration_ms > 0 ==> i64::MIN <= book.total_duration_ms - shown_position(
            *state,
            *book,
        ) <= i64::MAX,
    ensures
        book.total_duration_ms > 0 ==> r@ == remaining_ms_text(
            book.total_duration_ms - shown_position(*state, *book),
        ),
        book.total_duration_ms <= 0 ==> r@ == book.remaining_text@,
{
    if book.total_duration_ms > 0 {
        let position = player_position_ms(state, book);
        let left: i64 = book.total_duration_ms - position;
        format_remaining_ms(if left > 0 { left } else { 0 })
    } else {
        book.remaining_text.clone()
    }
}

} // verus!
