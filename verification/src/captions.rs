//! The captions the Home, Bookmarks, Settings and Book Detail pages show
//! under titles and next to rows.
use crate::text::{dec, pad2, push_dec, push_pad2};
use vstd::prelude::*;
use vstd::string::*;

verus! {

/// The separator between parts of a caption.
pub open spec fn dot() -> Seq<char> {
    "  ·  "@
}

/// The Home hero's subtitle: the author and the current chapter.
pub fn home_subtitle(author: &str, chapter: &str) -> (r: String)
    ensures
        r@ == author@ + dot() + chapter@,
{
    let mut r = String::new();
    r.append(author);
    r.append("  ·  ");
    r.append(chapter);
    proof {
        reveal_strlit("  ·  ");
    }
    r
}

/// A chapter row's number, zero-padded to two digits.
pub fn chapter_index_label(index: u32) -> (r: String)
    ensures
        r@ == pad2(index as nat),
{
    let mut r = String::new();
    push_pad2(&mut r, index as u64);
    assert(r@ =~= pad2(index as nat));
    r
}

/// The Bookmarks page's subhead: how many bookmarks there are, or how to
/// make the first one.
pub fn bookmarks_caption(count: usize) -> (r: String)
    ensures
        count == 0 ==> r@ == "No bookmarks yet — press B while playing to save the current spot."@,
        count > 0 ==> r@ == dec(count as nat) + " saved across your library"@,
{
    if count == 0 {
        return String::from_str("No bookmarks yet — press B while playing to save the current spot.");
    }
    let mut r = String::new();
    push_dec(&mut r, count as u64);
    r.append(" saved across your library");
    assert(r@ =~= dec(count as nat) + " saved across your library"@);
    r
}

/// A library folder row's detail line: its path and how many books it
/// holds.
pub fn folder_detail(path: &str, book_count: u32) -> (r: String)
    ensures
        r@ == path@ + dot() + dec(book_count as nat) + " books"@,
{
    let mut r = String::new();
    r.append(path);
    r.append("  ·  ");
    push_dec(&mut r, book_count as u64);
    r.append(" books");
    proof {
        reveal_strlit("  ·  ");
    }
    assert(r@ =~= path@ + dot() + dec(book_count as nat) + " books"@);
    r
}

} // verus!
