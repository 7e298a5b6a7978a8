//! The vector icons of the interface and the sizes they are baked at.
use vstd::prelude::*;

verus! {

/// An icon of the interface.
#[derive(Debug, Clone, Copy, PartialEq, Eq, Hash, Structural)]
pub enum IconId {
    Home,
    Library,
    Player,
    Bookmarks,
    Settings,
    Play,
    Pause,
    Rewind,
    Forward,
    Search,
    Heart,
    ArrowLeft,
    FolderPlus,
    Plus,
    Minus,
}

/// Every icon, in baking order.
pub open spec fn icon_list() -> Seq<IconId> {
    seq![
        IconId::Home,
        IconId::Library,
        IconId::Player,
        IconId::Bookmarks,
        IconId::Settings,
        IconId::Play,
        IconId::Pause,
        IconId::Rewind,
        IconId::Forward,
        IconId::Search,
        IconId::Heart,
        IconId::ArrowLeft,
        IconId::FolderPlus,
        IconId::Plus,
        IconId::Minus,
    ]
}

/// The pixel sizes icons are baked at, ascending.
pub open spec fn icon_size_list() -> Seq<u8> {
    seq![16u8, 18u8, 20u8, 24u8, 32u8]
}

/// Every icon, in baking order.
pub fn all_icons() -> (r: Vec<IconId>)
    ensures
        r@ == icon_list(),
{
    let r = vec![
        IconId::Home,
        IconId::Library,
        IconId::Player,
        IconId::Bookmarks,
        IconId::Settings,
        IconId::Play,
        IconId::Pause,
        IconId::Rewind,
        IconId::Forward,
        IconId::Search,
        IconId::Heart,
        IconId::ArrowLeft,
        IconId::FolderPlus,
        IconId::Plus,
        IconId::Minus,
    ];
    assert(r@ =~= icon_list());
    r
}

/// The pixel sizes icons are baked at.
pub fn icon_sizes() -> (r: Vec<u8>)
    ensures
        r@ == icon_size_list(),
{
    let r = vec![16u8, 18u8, 20u8, 24u8, 32u8];
    assert(r@ =~= icon_size_list());
    r
}

/// The baked size used for an icon asked for at `size`: `size` itself when
/// baked, else the largest baked size below it, else the smallest baked
/// size; `None` when nothing is baked.
pub open spec fn size_choice(baked: Seq<u8>, size: u8, r: Option<u8>) -> bool {
    if baked.contains(size) {
        r == Some(size)
    } else if exists|i: int| 0 <= i < baked.len() && baked[i] <= size {
        r matches Some(c) && baked.contains(c) && c <= size && forall|i: int|
            0 <= i < baked.len() && baked[i] <= size ==> baked[i] <= c
    } else if baked.len() > 0 {
        r matches Some(c) && baked.contains(c) && forall|i: int| 0 <= i < baked.len() ==> c <= baked[i]
    } else {
        r is None
    }
}

/// Picks the baked size for an icon asked for at `size`.
pub fn icon_size_for(baked: &Vec<u8>, size: u8) -> (r: Option<u8>)
    ensures
        size_choice(baked@, size, r),
{
    let mut below: Option<u8> = None;
    let mut smallest: Option<u8> = None;
    let mut i: usize = 0;
    while i < baked.len()
        invariant
            i <= baked@.len(),
            forall|j: int| 0 <= j < i ==> baked@[j] != size,
            below is None ==> forall|j: int| 0 <= j < i ==> baked@[j] > size,
            below matches Some(c) ==> baked@.subrange(0, i as int).contains(c) && c <= size
                && forall|j: int| 0 <= j < i && baked@[j] <= size ==> baked@[j] <= c,
            smallest is None ==> i == 0,
            smallest matches Some(c) ==> baked@.subrange(0, i as int).contains(c) && forall|j: int|
                0 <= j < i ==> c <= baked@[j],
        decreases baked.len() - i,
    {
        let c = baked[i];
        if c == size {
            assert(baked@[i as int] == size);
            return Some(size);
        }
        proof {
            assert(baked@.subrange(0, i as int + 1)[i as int] == c);
            assert forall|x: u8| baked@.subrange(0, i as int).contains(x) implies baked@.subrange(
                0,
                i as int + 1,
            ).contains(x) by {
                let k = choose|k: int| 0 <= k < i && baked@.subrange(0, i as int)[k] == x;
                assert(baked@.subrange(0, i as int + 1)[k] == x);
            }
        }
        if c < size {
            match below {
                Some(b) => {
                    if c > b {
                        below = Some(c);
                    }
                },
                None => {
                    below = Some(c);
                },
            }
        }
        match smallest {
            Some(s) => {
                if c < s {
                    smallest = Some(c);
                }
            },
            None => {
                smallest = Some(c);
            },
        }
        i = i + 1;
    }
    assert(baked@.subrange(0, i as int) =~= baked@);
    if below.is_some() {
        below
    } else {
        smallest
    }
}

} // verus!
