//! Turning a folder walk into audiobooks: one folder of audio files is one
//! audiobook.
use crate::data::{folder_label, folder_label_text};
use crate::paths::{extension, opt_view, parent, path_extension, path_parent, path_sorted, sort_paths};
use crate::text::{ascii_lower, str_eq, to_ascii_lowercase};
use vstd::prelude::*;
use vstd::string::*;

verus! {

/// One entry met while walking a folder: its path and whether it is a
/// regular file.
#[derive(Debug, Clone)]
pub struct ScanEntry {
    pub path: String,
    pub is_file: bool,
}

/// A folder holding audio files, taken as one audiobook: its title (the
/// folder's name), the folder's path and the paths of its audio files.
#[derive(Debug, Clone)]
pub struct ScannedAudiobook {
    pub title: String,
    pub folder_path: String,
    pub files: Vec<String>,
}

/// The file extensions taken for audio, lower case.
pub open spec fn audio_extensions() -> Seq<Seq<char>> {
    seq!["mp3"@, "m4a"@, "m4b"@, "flac"@, "ogg"@, "opus"@, "wav"@, "aac"@]
}

/// A path names an audio file: its extension, ASCII-lower-cased, is one of
/// the audio extensions.
pub open spec fn is_audio_path(path: Seq<char>) -> bool {
    match path_extension(path) {
        Some(e) => audio_extensions().contains(ascii_lower(e)),
        None => false,
    }
}

/// An entry that joins an audiobook: a regular audio file with a parent.
pub open spec fn joins_book(e: ScanEntry) -> bool {
    e.is_file && is_audio_path(e.path@) && path_parent(e.path@) is Some
}

/// The (folder, file) pairs of the entries that join an audiobook, in walk
/// order.
pub open spec fn audio_pairs(entries: Seq<ScanEntry>) -> Seq<(Seq<char>, Seq<char>)>
    decreases entries.len(),
{
    if entries.len() == 0 {
        Seq::empty()
    } else {
        let rest = audio_pairs(entries.drop_last());
        let e = entries.last();
        if joins_book(e) {
            rest.push((path_parent(e.path@).unwrap(), e.path@))
        } else {
            rest
        }
    }
}

/// The distinct folders of `pairs`, in order of first appearance.
pub open spec fn folders_of(pairs: Seq<(Seq<char>, Seq<char>)>) -> Seq<Seq<char>>
    decreases pairs.len(),
{
    if pairs.len() == 0 {
        Seq::empty()
    } else {
        let rest = folders_of(pairs.drop_last());
        if rest.contains(pairs.last().0) {
            rest
        } else {
            rest.push(pairs.last().0)
        }
    }
}

/// The files of `pairs` that lie in `folder`, in order.
pub open spec fn files_in(pairs: Seq<(Seq<char>, Seq<char>)>, folder: Seq<char>) -> Seq<Seq<char>>
    decreases pairs.len(),
{
    if pairs.len() == 0 {
        Seq::empty()
    } else {
        let rest = files_in(pairs.drop_last(), folder);
        if pairs.last().0 == folder {
            rest.push(pairs.last().1)
        } else {
            rest
        }
    }
}

/// The audiobooks a walk yields: one per folder holding audio files, in
/// path order, each with its files in path order and titled by the
/// folder's name. Sorting rearranges and drops nothing.
pub open spec fn scanned_books(entries: Seq<ScanEntry>, r: Seq<ScannedAudiobook>) -> bool {
    let pairs = audio_pairs(entries);
    let folders = path_sorted(folders_of(pairs));
    &&& r.len() == folders.len()
    &&& folders.to_multiset() == folders_of(pairs).to_multiset()
    &&& forall|k: int|
        0 <= k < r.len() ==> {
            &&& (#[trigger] r[k]).folder_path@ == folders[k]
            &&& r[k].title@ == folder_label_text(folders[k])
            &&& r[k].files.deep_view() == path_sorted(files_in(pairs, folders[k]))
            &&& r[k].files.deep_view().to_multiset() == files_in(pairs, folders[k]).to_multiset()
        }
}

proof fn lemma_pairs_of_walk(entries: Seq<ScanEntry>)
    ensures
        forall|j: int|
            0 <= j < audio_pairs(entries).len() ==> exists|i: int|
                0 <= i < entries.len() && joins_book(#[trigger] entries[i]) && #[trigger] audio_pairs(entries)[j] == (
                    path_parent(entries[i].path@).unwrap(),
                    entries[i].path@,
                ),
        forall|i: int|
            0 <= i < entries.len() && joins_book(#[trigger] entries[i]) ==> audio_pairs(entries).contains(
                (path_parent(entries[i].path@).unwrap(), entries[i].path@),
            ),
    decreases entries.len(),
{
    if entries.len() > 0 {
        let init = entries.drop_last();
        lemma_pairs_of_walk(init);
        let pairs = audio_pairs(entries);
        let rest = audio_pairs(init);
        assert forall|j: int| 0 <= j < pairs.len() implies exists|i: int|
            0 <= i < entries.len() && joins_book(#[trigger] entries[i]) && #[trigger] pairs[j] == (
                path_parent(entries[i].path@).unwrap(),
                entries[i].path@,
            ) by {
            if j < rest.len() {
                assert(pairs[j] == rest[j]);
                let i = choose|i: int|
                    0 <= i < init.len() && joins_book(#[trigger] init[i]) && rest[j] == (
                        path_parent(init[i].path@).unwrap(),
                        init[i].path@,
                    );
                assert(entries[i] == init[i]);
            } else {
                assert(entries[entries.len() - 1] == entries.last());
            }
        }
        assert forall|i: int| 0 <= i < entries.len() && joins_book(#[trigger] entries[i]) implies pairs.contains(
            (path_parent(entries[i].path@).unwrap(), entries[i].path@),
        ) by {
            if i < init.len() {
                assert(init[i] == entries[i]);
                let j = choose|j: int|
                    0 <= j < rest.len() && rest[j] == (path_parent(init[i].path@).unwrap(), init[i].path@);
                assert(pairs[j] == rest[j]);
            } else {
                assert(pairs[pairs.len() - 1] == (
                    path_parent(entries[i].path@).unwrap(),
                    entries[i].path@,
                ));
            }
        }
    }
}

proof fn lemma_folders_of(pairs: Seq<(Seq<char>, Seq<char>)>)
    ensures
        folders_of(pairs).no_duplicates(),
        forall|f: Seq<char>|
            #[trigger] folders_of(pairs).contains(f) <==> exists|j: int|
                0 <= j < pairs.len() && (#[trigger] pairs[j]).0 == f,
    decreases pairs.len(),
{
    if pairs.len() > 0 {
        let init = pairs.drop_last();
        lemma_folders_of(init);
        let rest = folders_of(init);
        assert forall|f: Seq<char>|
            #[trigger] folders_of(pairs).contains(f) <==> exists|j: int|
                0 <= j < pairs.len() && (#[trigger] pairs[j]).0 == f by {
            if folders_of(pairs).contains(f) {
                if rest.contains(f) {
                    let j = choose|j: int| 0 <= j < init.len() && (#[trigger] init[j]).0 == f;
                    assert(pairs[j] == init[j]);
                } else {
                    assert(pairs[pairs.len() - 1].0 == f);
                }
            }
            if exists|j: int| 0 <= j < pairs.len() && (#[trigger] pairs[j]).0 == f {
                let j = choose|j: int| 0 <= j < pairs.len() && (#[trigger] pairs[j]).0 == f;
                if j < init.len() {
                    assert(init[j] == pairs[j]);
                    assert(rest.contains(f));
                } else {
                    assert(pairs.last().0 == f);
                }
                if !rest.contains(pairs.last().0) {
                    assert(folders_of(pairs)[rest.len() as int] == pairs.last().0);
                }
                if rest.contains(f) {
                    let q = choose|q: int| 0 <= q < rest.len() && rest[q] == f;
                    assert(folders_of(pairs)[q] == f);
                }
            }
        }
    }
}

proof fn lemma_files_in(pairs: Seq<(Seq<char>, Seq<char>)>, folder: Seq<char>)
    ensures
        forall|x: Seq<char>|
            #[trigger] files_in(pairs, folder).contains(x) ==> pairs.contains((folder, x)),
        forall|x: Seq<char>|
            pairs.contains((folder, x)) ==> #[trigger] files_in(pairs, folder).contains(x),
    decreases pairs.len(),
{
    if pairs.len() > 0 {
        let init = pairs.drop_last();
        lemma_files_in(init, folder);
        let rest = files_in(init, folder);
        let all = files_in(pairs, folder);
        assert forall|x: Seq<char>| #[trigger] all.contains(x) implies pairs.contains((folder, x)) by {
            if rest.contains(x) {
                let j = choose|j: int| 0 <= j < init.len() && init[j] == (folder, x);
                assert(pairs[j] == init[j]);
            } else {
                assert(pairs[pairs.len() - 1] == (folder, x));
            }
        }
        assert forall|x: Seq<char>| pairs.contains((folder, x)) implies #[trigger] all.contains(x) by {
            let j = choose|j: int| 0 <= j < pairs.len() && pairs[j] == (folder, x);
            if j < init.len() {
                assert(init[j] == pairs[j]);
                assert(rest.contains(x));
                let q = choose|q: int| 0 <= q < rest.len() && rest[q] == x;
                assert(all[q] == x);
            } else {
                assert(all[all.len() - 1] == x);
            }
        }
    }
}

proof fn lemma_same_elements(a: Seq<Seq<char>>, b: Seq<Seq<char>>)
    requires
        a.to_multiset() == b.to_multiset(),
    ensures
        forall|x: Seq<char>| a.contains(x) <==> b.contains(x),
        b.no_duplicates() ==> a.no_duplicates(),
{
    broadcast use vstd::seq_lib::group_to_multiset_ensures;

    assert forall|x: Seq<char>| a.contains(x) <==> b.contains(x) by {
        vstd::seq_lib::to_multiset_contains(a, x);
        vstd::seq_lib::to_multiset_contains(b, x);
    }
    if b.no_duplicates() {
        b.lemma_multiset_has_no_duplicates();
        a.lemma_multiset_has_no_duplicates_conv();
    }
}

/// A scan is a grouping of the walk's audio files by folder: no two
/// audiobooks share a folder; every file of an audiobook is an audio file
/// met by the walk whose parent is that audiobook's folder; and every audio
/// file the walk met lies in the audiobook of its parent folder.
pub proof fn lemma_scan_groups_by_folder(entries: Seq<ScanEntry>, r: Seq<ScannedAudiobook>)
    requires
        scanned_books(entries, r),
    ensures
        forall|k1: int, k2: int|
            0 <= k1 < r.len() && 0 <= k2 < r.len() && k1 != k2 ==> (#[trigger] r[k1]).folder_path@
                != (#[trigger] r[k2]).folder_path@,
        forall|k: int, x: Seq<char>|
            0 <= k < r.len() && #[trigger] r[k].files.deep_view().contains(x) ==> {
                &&& path_parent(x) == Some(r[k].folder_path@)
                &&& exists|i: int| 0 <= i < entries.len() && joins_book(#[trigger] entries[i]) && entries[i].path@ == x
            },
        forall|i: int|
            0 <= i < entries.len() && joins_book(#[trigger] entries[i]) ==> exists|k: int|
                0 <= k < r.len() && (#[trigger] r[k]).folder_path@ == path_parent(entries[i].path@).unwrap()
                    && r[k].files.deep_view().contains(entries[i].path@),
{
    let pairs = audio_pairs(entries);
    let unsorted = folders_of(pairs);
    let folders = path_sorted(unsorted);
    lemma_pairs_of_walk(entries);
    lemma_folders_of(pairs);
    lemma_same_elements(folders, unsorted);
    assert forall|k1: int, k2: int|
        0 <= k1 < r.len() && 0 <= k2 < r.len() && k1 != k2 implies (#[trigger] r[k1]).folder_path@
            != (#[trigger] r[k2]).folder_path@ by {
        assert(folders[k1] != folders[k2]);
    }
    assert forall|k: int, x: Seq<char>|
        0 <= k < r.len() && #[trigger] r[k].files.deep_view().contains(x) implies {
            &&& path_parent(x) == Some(r[k].folder_path@)
            &&& exists|i: int| 0 <= i < entries.len() && joins_book(#[trigger] entries[i]) && entries[i].path@ == x
        } by {
        let folder = folders[k];
        lemma_files_in(pairs, folder);
        lemma_same_elements(r[k].files.deep_view(), files_in(pairs, folder));
        assert(files_in(pairs, folder).contains(x));
        let j = choose|j: int| 0 <= j < pairs.len() && pairs[j] == (folder, x);
        let i = choose|i: int|
            0 <= i < entries.len() && joins_book(#[trigger] entries[i]) && pairs[j] == (
                path_parent(entries[i].path@).unwrap(),
                entries[i].path@,
            );
        assert(entries[i].path@ == x);
    }
    assert forall|i: int| 0 <= i < entries.len() && joins_book(#[trigger] entries[i]) implies exists|k: int|
        0 <= k < r.len() && (#[trigger] r[k]).folder_path@ == path_parent(entries[i].path@).unwrap()
            && r[k].files.deep_view().contains(entries[i].path@) by {
        let x = entries[i].path@;
        let folder = path_parent(x).unwrap();
        assert(pairs.contains((folder, x)));
        let j = choose|j: int| 0 <= j < pairs.len() && pairs[j] == (folder, x);
        assert(pairs[j].0 == folder);
        assert(unsorted.contains(folder));
        assert(folders.contains(folder));
        let k = choose|k: int| 0 <= k < folders.len() && folders[k] == folder;
        lemma_files_in(pairs, folder);
        assert(files_in(pairs, folder).contains(x));
        lemma_same_elements(r[k].files.deep_view(), files_in(pairs, folder));
        assert(r[k].folder_path@ == folder);
    }
}

/// Law: an extension names audio exactly when, ASCII-lower-cased, it is
/// mp3, m4a, m4b, flac, ogg, opus, wav or aac.
pub proof fn lemma_audio_extensions(ext: Seq<char>)
    ensures
        audio_extensions().contains(ascii_lower(ext)) <==> {
            let l = ascii_lower(ext);
            ||| l == "mp3"@
            ||| l == "m4a"@
            ||| l == "m4b"@
            ||| l == "flac"@
            ||| l == "ogg"@
            ||| l == "opus"@
            ||| l == "wav"@
            ||| l == "aac"@
        },
{
    let l = ascii_lower(ext);
    let a = audio_extensions();
    if a.contains(l) {
        let i = choose|i: int| 0 <= i < a.len() && a[i] == l;
        assert(0 <= i < 8);
    }
    if l == "mp3"@ { assert(a[0] == l); }
    if l == "m4a"@ { assert(a[1] == l); }
    if l == "m4b"@ { assert(a[2] == l); }
    if l == "flac"@ { assert(a[3] == l); }
    if l == "ogg"@ { assert(a[4] == l); }
    if l == "opus"@ { assert(a[5] == l); }
    if l == "wav"@ { assert(a[6] == l); }
    if l == "aac"@ { assert(a[7] == l); }
}

/// Law: every file of a scanned audiobook has an extension that,
/// ASCII-lower-cased, is mp3, m4a, m4b, flac, ogg, opus, wav or aac; files
/// with any other extension, or none, join no audiobook.
pub proof fn lemma_scanned_files_are_audio(entries: Seq<ScanEntry>, r: Seq<ScannedAudiobook>)
    requires
        scanned_books(entries, r),
    ensures
        forall|k: int, x: Seq<char>|
            0 <= k < r.len() && #[trigger] r[k].files.deep_view().contains(x) ==> exists|e: Seq<char>|
                #[trigger] path_extension(x) == Some(e) && {
                    let l = ascii_lower(e);
                    ||| l == "mp3"@
                    ||| l == "m4a"@
                    ||| l == "m4b"@
                    ||| l == "flac"@
                    ||| l == "ogg"@
                    ||| l == "opus"@
                    ||| l == "wav"@
                    ||| l == "aac"@
                },
{
    lemma_scan_groups_by_folder(entries, r);
    assert forall|k: int, x: Seq<char>|
        0 <= k < r.len() && #[trigger] r[k].files.deep_view().contains(x) implies exists|e: Seq<char>|
            #[trigger] path_extension(x) == Some(e) && {
                let l = ascii_lower(e);
                ||| l == "mp3"@
                ||| l == "m4a"@
                ||| l == "m4b"@
                ||| l == "flac"@
                ||| l == "ogg"@
                ||| l == "opus"@
                ||| l == "wav"@
                ||| l == "aac"@
            } by {
        let i = choose|i: int| 0 <= i < entries.len() && joins_book(#[trigger] entries[i]) && entries[i].path@ == x;
        assert(is_audio_path(x));
        let e = path_extension(x).unwrap();
        lemma_audio_extensions(e);
    }
}

/// Whether an extension names audio.
pub fn is_audio_extension(ext: &str) -> (r: bool)
    ensures
        r == audio_extensions().contains(ascii_lower(ext@)),
{
    let lower = to_ascii_lowercase(ext);
    let known: Vec<&str> = vec!["mp3", "m4a", "m4b", "flac", "ogg", "opus", "wav", "aac"];
    assert(known@.map_values(|s: &str| s@) =~= audio_extensions());
    let mut i: usize = 0;
    while i < known.len()
        invariant
            known@.map_values(|s: &str| s@) == audio_extensions(),
            lower@ == ascii_lower(ext@),
            i <= known@.len(),
            forall|j: int| 0 <= j < i ==> audio_extensions()[j] != lower@,
        decreases known.len() - i,
    {
        if str_eq(lower.as_str(), known[i]) {
            assert(audio_extensions()[i as int] == lower@);
            return true;
        }
        assert(audio_extensions()[i as int] == known@[i as int]@);
        i = i + 1;
    }
    false
}

/// Whether a path names an audio file.
pub fn is_audio_file(path: &str) -> (r: bool)
    ensures
        r == is_audio_path(path@),
{
    match extension(path) {
        Some(ext) => is_audio_extension(ext.as_str()),
        None => false,
    }
}

fn index_of_folder(folders: &Vec<String>, folder: &str) -> (r: Option<usize>)
    ensures
        r is None <==> !folders.deep_view().contains(folder@),
        r matches Some(i) ==> i < folders@.len() && folders@[i as int]@ == folder@,
{
    let mut i: usize = 0;
    while i < folders.len()
        invariant
            i <= folders@.len(),
            forall|j: int| 0 <= j < i ==> folders@[j]@ != folder@,
        decreases folders.len() - i,
    {
        if str_eq(folders[i].as_str(), folder) {
            assert(folders.deep_view()[i as int] == folder@);
            return Some(i);
        }
        i = i + 1;
    }
    assert forall|j: int| 0 <= j < folders.deep_view().len() implies folders.deep_view()[j] != folder@ by {
        assert(folders.deep_view()[j] == folders@[j]@);
    }
    None
}

/// Groups the audio files met by a folder walk into audiobooks.
pub fn group_scanned(entries: &Vec<ScanEntry>) -> (r: Vec<ScannedAudiobook>)
    ensures
        scanned_books(entries@, r@),
{
    // The (folder, file) pairs, in walk order.
    let mut pair_folders: Vec<String> = Vec::new();
    let mut pair_files: Vec<String> = Vec::new();
    let mut i: usize = 0;
    while i < entries.len()
        invariant
            i <= entries@.len(),
            pair_folders@.len() == pair_files@.len(),
            pair_folders@.len() == audio_pairs(entries@.take(i as int)).len(),
            forall|k: int|
                0 <= k < pair_folders@.len() ==> audio_pairs(entries@.take(i as int))[k] == (
                    #[trigger] pair_folders@[k]@,
                    pair_files@[k]@,
                ),
        decreases entries.len() - i,
    {
        let e = &entries[i];
        assert(entries@.take(i as int + 1).drop_last() =~= entries@.take(i as int));
        assert(entries@.take(i as int + 1).last() == entries@[i as int]);
        if e.is_file && is_audio_file(e.path.as_str()) {
            match parent(e.path.as_str()) {
                Some(p) => {
                    pair_folders.push(p);
                    pair_files.push(e.path.clone());
                },
                None => {},
            }
        }
        i = i + 1;
    }
    assert(entries@.take(entries@.len() as int) =~= entries@);
    let ghost pairs = audio_pairs(entries@);

    // The distinct folders, in order of first appearance.
    let mut folders: Vec<String> = Vec::new();
    let mut k: usize = 0;
    while k < pair_folders.len()
        invariant
            pairs == audio_pairs(entries@),
            pair_folders@.len() == pair_files@.len(),
            pair_folders@.len() == pairs.len(),
            forall|j: int|
                0 <= j < pair_folders@.len() ==> pairs[j] == (#[trigger] pair_folders@[j]@, pair_files@[j]@),
            k <= pair_folders@.len(),
            folders.deep_view() == folders_of(pairs.take(k as int)),
        decreases pair_folders.len() - k,
    {
        assert(pairs.take(k as int + 1).drop_last() =~= pairs.take(k as int));
        assert(pairs.take(k as int + 1).last() == pairs[k as int]);
        let found = index_of_folder(&folders, pair_folders[k].as_str());
        if found.is_none() {
            let ghost before = folders.deep_view();
            folders.push(pair_folders[k].clone());
            assert(folders.deep_view() =~= before.push(pair_folders@[k as int]@));
        }
        k = k + 1;
    }
    assert(pairs.take(pairs.len() as int) =~= pairs);
    let sorted = sort_paths(folders);

    // One audiobook per folder, in path order.
    let mut books: Vec<ScannedAudiobook> = Vec::new();
    let mut b: usize = 0;
    while b < sorted.len()
        invariant
            pairs == audio_pairs(entries@),
            pair_folders@.len() == pair_files@.len(),
            pair_folders@.len() == pairs.len(),
            forall|j: int|
                0 <= j < pair_folders@.len() ==> pairs[j] == (#[trigger] pair_folders@[j]@, pair_files@[j]@),
            sorted.deep_view() == path_sorted(folders_of(pairs)),
            sorted.deep_view().to_multiset() == folders_of(pairs).to_multiset(),
            b <= sorted@.len(),
            books@.len() == b,
            forall|q: int|
                0 <= q < b ==> {
                    &&& (#[trigger] books@[q]).folder_path@ == sorted.deep_view()[q]
                    &&& books@[q].title@ == folder_label_text(sorted.deep_view()[q])
                    &&& books@[q].files.deep_view() == path_sorted(files_in(pairs, sorted.deep_view()[q]))
                    &&& books@[q].files.deep_view().to_multiset() == files_in(
                        pairs,
                        sorted.deep_view()[q],
                    ).to_multiset()
                },
        decreases sorted.len() - b,
    {
        let folder = sorted[b].as_str();
        assert(sorted.deep_view()[b as int] == folder@);
        let mut files: Vec<String> = Vec::new();
        let mut j: usize = 0;
        while j < pair_files.len()
            invariant
                pair_folders@.len() == pair_files@.len(),
                pair_folders@.len() == pairs.len(),
                forall|t: int|
                    0 <= t < pair_folders@.len() ==> pairs[t] == (#[trigger] pair_folders@[t]@, pair_files@[t]@),
                j <= pair_files@.len(),
                files.deep_view() == files_in(pairs.take(j as int), folder@),
            decreases pair_files.len() - j,
        {
            assert(pairs.take(j as int + 1).drop_last() =~= pairs.take(j as int));
            assert(pairs.take(j as int + 1).last() == pairs[j as int]);
            if str_eq(pair_folders[j].as_str(), folder) {
                let ghost before = files.deep_view();
                files.push(pair_files[j].clone());
                assert(files.deep_view() =~= before.push(pair_files@[j as int]@));
            }
            j = j + 1;
        }
        assert(pairs.take(pairs.len() as int) =~= pairs);
        let ordered = sort_paths(files);
        books.push(
            ScannedAudiobook {
                title: folder_label(folder),
                folder_path: sorted[b].clone(),
                files: ordered,
            },
        );
        b = b + 1;
    }
    books
}

} // verus!
