//! Which books the Library page lists for a filter and a search query.
use crate::action::LibraryFilter;
use crate::data::DisplayBook;
use crate::text::{contains_seq, contains_str, lowercase, to_lowercase};
use vstd::prelude::*;

verus! {

/// A book passes a filter: in progress means started and not at the end,
/// not started means no progress, finished means marked completed or at the
/// end. Books marked completed are neither in progress nor not started.
pub open spec fn passes_filter(b: DisplayBook, filter: LibraryFilter) -> bool {
    match filter {
        LibraryFilter::All => true,
        LibraryFilter::InProgress => !b.completed && b.started() && !b.reached_end(),
        LibraryFilter::NotStarted => !b.completed && !b.started(),
        LibraryFilter::Finished => b.completed || b.reached_end(),
    }
}

/// A book passes a search query: the query is empty, or, lower-cased, it
/// occurs in the lower-cased title, author or narrator.
pub open spec fn passes_query(b: DisplayBook, query: Seq<char>) -> bool {
    query.len() == 0 || contains_seq(lowercase(b.title@), lowercase(query))
        || contains_seq(lowercase(b.author@), lowercase(query))
        || contains_seq(lowercase(b.narrator@), lowercase(query))
}

/// Law: every book passes the `All` filter and exactly one of the other
/// three: not started, in progress or finished.
pub proof fn lemma_filters_partition(b: DisplayBook)
    ensures
        passes_filter(b, LibraryFilter::All),
        passes_filter(b, LibraryFilter::NotStarted) || passes_filter(b, LibraryFilter::InProgress)
            || passes_filter(b, LibraryFilter::Finished),
        !(passes_filter(b, LibraryFilter::NotStarted) && passes_filter(b, LibraryFilter::InProgress)),
        !(passes_filter(b, LibraryFilter::NotStarted) && passes_filter(b, LibraryFilter::Finished)),
        !(passes_filter(b, LibraryFilter::InProgress) && passes_filter(b, LibraryFilter::Finished)),
{
}

/// Whether a book passes a filter.
pub fn matches_filter(book: &DisplayBook, filter: LibraryFilter) -> (r: bool)
    ensures
        r == passes_filter(*book, filter),
{
    match filter {
        LibraryFilter::All => true,
        LibraryFilter::InProgress => !book.completed && book.has_started() && !book.has_reached_end(),
        LibraryFilter::NotStarted => !book.completed && !book.has_started(),
        LibraryFilter::Finished => book.completed || book.has_reached_end(),
    }
}

/// Whether a book passes a search query.
pub fn matches_query(book: &DisplayBook, query: &str) -> (r: bool)
    ensures
        r == passes_query(*book, query@),
{
    if query.unicode_len() == 0 {
        return true;
    }
    let needle = to_lowercase(query);
    let title = to_lowercase(book.title.as_str());
    if contains_str(title.as_str(), needle.as_str()) {
        return true;
    }
    let author = to_lowercase(book.author.as_str());
    if contains_str(author.as_str(), needle.as_str()) {
        return true;
    }
    let narrator = to_lowercase(book.narrator.as_str());
    contains_str(narrator.as_str(), needle.as_str())
}

/// The positions of the books that pass both the filter and the query,
/// in library order.
pub fn visible_books(books: &Vec<DisplayBook>, filter: LibraryFilter, query: &str) -> (r: Vec<usize>)
    ensures
        forall|k: int| 0 <= k < r@.len() ==> #[trigger] r@[k] < books@.len(),
        forall|k: int, l: int| 0 <= k < l < r@.len() ==> r@[k] < r@[l],
        forall|k: int|
            0 <= k < r@.len() ==> passes_filter(books@[#[trigger] r@[k] as int], filter)
                && passes_query(books@[r@[k] as int], query@),
        forall|i: int|
            0 <= i < books@.len() && passes_filter(books@[i], filter) && passes_query(
                books@[i],
                query@,
            ) ==> r@.contains(i as usize),
{
    let mut r: Vec<usize> = Vec::new();
    let mut i: usize = 0;
    while i < books.len()
        invariant
            i <= books@.len(),
            forall|k: int| 0 <= k < r@.len() ==> #[trigger] r@[k] < i,
            forall|k: int, l: int| 0 <= k < l < r@.len() ==> r@[k] < r@[l],
            forall|k: int|
                0 <= k < r@.len() ==> passes_filter(books@[#[trigger] r@[k] as int], filter)
                    && passes_query(books@[r@[k] as int], query@),
            forall|j: int|
                0 <= j < i && passes_filter(books@[j], filter) && passes_query(books@[j], query@)
                    ==> r@.contains(j as usize),
        decreases books.len() - i,
    {
        let b = &books[i];
        let ghost before = r@;
        if matches_filter(b, filter) && matches_query(b, query) {
            r.push(i);
            assert(r@[r@.len() - 1] == i);
        }
        proof {
            assert forall|j: int|
                0 <= j < i + 1 && passes_filter(books@[j], filter) && passes_query(books@[j], query@)
                    implies r@.contains(j as usize) by {
                if j < i {
                    assert(before.contains(j as usize));
                    let k = choose|k: int| 0 <= k < before.len() && before[k] == j as usize;
                    assert(r@[k] == j as usize);
                } else {
                    assert(r@[r@.len() - 1] == i);
                }
            }
        }
        i = i + 1;
    }
    r
}

} // verus!
