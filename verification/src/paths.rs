//! Path decomposition and ordering, delegated to `std::path`.
//!
//! Each result is named by a spec function of the path text alone: what
//! `std::path::Path` makes of a string (component splitting, `.` and `..`
//! handling, trailing separators) is left to the standard library.
use std::path::{Path, PathBuf};
use vstd::prelude::*;

verus! {

/// The text of an optional string.
pub open spec fn opt_view(o: Option<String>) -> Option<Seq<char>> {
    match o {
        Some(s) => Some(s@),
        None => None,
    }
}

/// What `Path::file_stem` gives for the path text `path`.
pub uninterp spec fn path_file_stem(path: Seq<char>) -> Option<Seq<char>>;

/// What `Path::file_name` gives for the path text `path`.
pub uninterp spec fn path_file_name(path: Seq<char>) -> Option<Seq<char>>;

/// What `Path::parent` gives for the path text `path`.
pub uninterp spec fn path_parent(path: Seq<char>) -> Option<Seq<char>>;

/// What `Path::extension` gives for the path text `path`.
pub uninterp spec fn path_extension(path: Seq<char>) -> Option<Seq<char>>;

/// The order in which `<[PathBuf]>::sort` leaves the paths `paths`
/// (component-wise path order).
pub uninterp spec fn path_sorted(paths: Seq<Seq<char>>) -> Seq<Seq<char>>;

/// `Path::file_stem`: the file name without its final extension. Claimed:
/// the result is `path_file_stem` of the path text, and nothing more.
#[verifier::external_body]
pub(crate) fn file_stem(path: &str) -> (r: Option<String>)
    ensures
        opt_view(r) == path_file_stem(path@),
{
    Path::new(path).file_stem().map(|s| s.to_string_lossy().into_owned())
}

/// `Path::file_name`: the final component. Claimed: the result is
/// `path_file_name` of the path text, and nothing more.
#[verifier::external_body]
pub(crate) fn file_name(path: &str) -> (r: Option<String>)
    ensures
        opt_view(r) == path_file_name(path@),
{
    Path::new(path).file_name().map(|s| s.to_string_lossy().into_owned())
}

/// `Path::parent`: the path without its final component. Claimed: the
/// result is `path_parent` of the path text, and nothing more.
#[verifier::external_body]
pub(crate) fn parent(path: &str) -> (r: Option<String>)
    ensures
        opt_view(r) == path_parent(path@),
{
    Path::new(path).parent().map(|p| p.to_string_lossy().into_owned())
}

/// `Path::extension`: the text after the final `.` of the file name.
/// Claimed: the result is `path_extension` of the path text, and nothing
/// more.
#[verifier::external_body]
pub(crate) fn extension(path: &str) -> (r: Option<String>)
    ensures
        opt_view(r) == path_extension(path@),
{
    Path::new(path).extension().map(|s| s.to_string_lossy().into_owned())
}

/// `<[PathBuf]>::sort` on the given paths. Claimed: the result is
/// `path_sorted` of the path texts, and, as the documentation of `sort`
/// says, a rearrangement of them (same length, same multiset).
#[verifier::external_body]
pub(crate) fn sort_paths(paths: Vec<String>) -> (r: Vec<String>)
    ensures
        r.deep_view() == path_sorted(paths.deep_view()),
        r.deep_view().len() == paths.deep_view().len(),
        r.deep_view().to_multiset() == paths.deep_view().to_multiset(),
{
    let mut sorted: Vec<PathBuf> = paths.into_iter().map(PathBuf::from).collect();
    sorted.sort();
    sorted.into_iter().map(|p| p.to_string_lossy().into_owned()).collect()
}

} // verus!
