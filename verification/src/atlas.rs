//! The glyph atlas: a one-channel bitmap into which glyph and icon bitmaps
//! are packed shelf by shelf, left to right, with a gutter between them.
use vstd::prelude::*;

verus! {

/// A one-channel bitmap, row-major, `width * height` bytes.
pub struct Atlas {
    pub width: u32,
    pub height: u32,
    pub pixels: Vec<u8>,
}

/// How a draw command is filled.
#[derive(Debug, Clone, Copy, PartialEq, Eq, Structural)]
pub enum DrawKind {
    /// Solid fill with rounded-rect anti-aliasing.
    Solid,
    /// Sample the glyph atlas; the sampled alpha modulates the colour.
    Glyph,
}

/// The packer's cursor: pen position on the current shelf, the shelf's top
/// and the tallest item on it so far.
pub struct Shelf {
    pub pen_x: int,
    pub row_y: int,
    pub row_h: int,
}

/// Where the packer puts items of the given sizes into a `width` by
/// `height` atlas with gutter `gutter`, and where its cursor ends; or the
/// index of the first item that no longer fits. Empty items get no place.
/// An item goes at the pen when it fits before the right edge (keeping a
/// gutter), else at the start of a new shelf one gutter below the tallest
/// item of the current one; it must end a gutter above the bottom edge.
pub open spec fn pack_trace(width: int, height: int, gutter: int, sizes: Seq<(u32, u32)>) -> Result<
    (Seq<Option<(u32, u32)>>, Shelf),
    nat,
>
    decreases sizes.len(),
{
    if sizes.len() == 0 {
        Ok((Seq::empty(), Shelf { pen_x: gutter, row_y: gutter, row_h: 0 }))
    } else {
        match pack_trace(width, height, gutter, sizes.drop_last()) {
            Err(i) => Err(i),
            Ok((placed, cur)) => {
                let w = sizes.last().0 as int;
                let h = sizes.last().1 as int;
                if w == 0 || h == 0 {
                    Ok((placed.push(None), cur))
                } else {
                    let start = if cur.pen_x + w + gutter >= width {
                        Shelf { pen_x: gutter, row_y: cur.row_y + cur.row_h + gutter, row_h: 0 }
                    } else {
                        cur
                    };
                    if start.row_y + h + gutter >= height {
                        Err((sizes.len() - 1) as nat)
                    } else {
                        Ok(
                            (
                                placed.push(Some((start.pen_x as u32, start.row_y as u32))),
                                Shelf {
                                    pen_x: start.pen_x + w + gutter,
                                    row_y: start.row_y,
                                    row_h: if h > start.row_h {
                                        h
                                    } else {
                                        start.row_h
                                    },
                                },
                            ),
                        )
                    }
                }
            },
        }
    }
}

/// The column of a place.
pub open spec fn place_x(p: Option<(u32, u32)>) -> int {
    match p {
        Some((x, _)) => x as int,
        None => 0,
    }
}

/// The row of a place.
pub open spec fn place_y(p: Option<(u32, u32)>) -> int {
    match p {
        Some((_, y)) => y as int,
        None => 0,
    }
}

/// An item of size `(w, h)` at `(x, y)` lies inside the atlas: a gutter
/// from the left, top and bottom edges, and from the right edge too unless
/// it starts a shelf (a shelf's first item only has to fit the width).
pub open spec fn inside(width: int, height: int, gutter: int, x: int, y: int, w: int, h: int) -> bool {
    &&& gutter <= x
    &&& x + w <= width
    &&& (x + w + gutter < width || x == gutter)
    &&& gutter <= y
    &&& y + h + gutter < height
}

/// Two items keep at least a gutter between them, side by side or one
/// above the other.
pub open spec fn apart(
    gutter: int,
    x1: int,
    y1: int,
    w1: int,
    h1: int,
    x2: int,
    y2: int,
    w2: int,
    h2: int,
) -> bool {
    x1 + w1 + gutter <= x2 || x2 + w2 + gutter <= x1 || y1 + h1 + gutter <= y2 || y2 + h2 + gutter
        <= y1
}

/// Every item fits the width after a shelf's leading gutter.
pub open spec fn fit_width(width: int, gutter: int, sizes: Seq<(u32, u32)>) -> bool {
    forall|i: int| 0 <= i < sizes.len() ==> (#[trigger] sizes[i]).0 + gutter <= width
}

/// Packed placements are sound: one per item, none exactly for the empty
/// items, each inside the atlas, each pair apart.
pub open spec fn placements_sound(
    width: int,
    height: int,
    gutter: int,
    sizes: Seq<(u32, u32)>,
    placed: Seq<Option<(u32, u32)>>,
) -> bool {
    &&& placed.len() == sizes.len()
    &&& forall|i: int|
        0 <= i < sizes.len() ==> ((#[trigger] placed[i]) is None <==> sizes[i].0 == 0 || sizes[i].1
            == 0)
    &&& forall|i: int|
        0 <= i < sizes.len() && (#[trigger] placed[i]) is Some ==> inside(
            width,
            height,
            gutter,
            place_x(placed[i]),
            place_y(placed[i]),
            sizes[i].0 as int,
            sizes[i].1 as int,
        )
    &&& forall|i: int, j: int|
        0 <= i < j < sizes.len() && (#[trigger] placed[i]) is Some && (#[trigger] placed[j]) is Some
            ==> apart(
            gutter,
            place_x(placed[i]),
            place_y(placed[i]),
            sizes[i].0 as int,
            sizes[i].1 as int,
            place_x(placed[j]),
            place_y(placed[j]),
            sizes[j].0 as int,
            sizes[j].1 as int,
        )
}

/// The shelf cursor bounds every placed item: earlier shelves end a gutter
/// above the current one, items on the current shelf end a gutter before
/// the pen and are no taller than the shelf.
pub open spec fn cursor_bounds(
    gutter: int,
    sizes: Seq<(u32, u32)>,
    placed: Seq<Option<(u32, u32)>>,
    cur: Shelf,
) -> bool {
    &&& gutter <= cur.pen_x
    &&& gutter <= cur.row_y
    &&& 0 <= cur.row_h
    &&& forall|i: int|
        0 <= i < sizes.len() && (#[trigger] placed[i]) is Some ==> {
            ||| place_y(placed[i]) + sizes[i].1 + gutter <= cur.row_y
            ||| (place_y(placed[i]) == cur.row_y && place_x(placed[i]) + sizes[i].0 + gutter <= cur.pen_x
                && sizes[i].1 <= cur.row_h)
        }
}

proof fn lemma_pack_step(width: int, height: int, gutter: int, sizes: Seq<(u32, u32)>)
    requires
        0 <= gutter,
        width <= u32::MAX,
        height <= u32::MAX,
        sizes.len() > 0,
        fit_width(width, gutter, sizes),
        pack_trace(width, height, gutter, sizes.drop_last()) matches Ok((placed, cur))
            && placements_sound(width, height, gutter, sizes.drop_last(), placed) && cursor_bounds(
            gutter,
            sizes.drop_last(),
            placed,
            cur,
        ),
    ensures
        pack_trace(width, height, gutter, sizes) matches Ok((placed, cur)) ==> placements_sound(
            width,
            height,
            gutter,
            sizes,
            placed,
        ) && cursor_bounds(gutter, sizes, placed, cur),
{
    let prev = sizes.drop_last();
    let (placed0, cur0) = pack_trace(width, height, gutter, prev)->Ok_0;
    let n = sizes.len() - 1;
    let w = sizes.last().0 as int;
    let h = sizes.last().1 as int;
    assert(sizes[n] == sizes.last());
    assert forall|i: int| 0 <= i < n implies sizes[i] == prev[i] by {}
    if pack_trace(width, height, gutter, sizes) is Ok {
        let (placed, cur) = pack_trace(width, height, gutter, sizes)->Ok_0;
        if w == 0 || h == 0 {
            assert(placed == placed0.push(None));
            assert forall|i: int| 0 <= i < n implies placed[i] == placed0[i] by {}
        } else {
            let start = if cur0.pen_x + w + gutter >= width {
                Shelf { pen_x: gutter, row_y: cur0.row_y + cur0.row_h + gutter, row_h: 0 }
            } else {
                cur0
            };
            assert(placed == placed0.push(Some((start.pen_x as u32, start.row_y as u32))));
            assert(start.pen_x < width);
            assert(start.row_y < height);
            assert(place_x(placed[n]) == start.pen_x);
            assert(place_y(placed[n]) == start.row_y);
            assert forall|i: int| 0 <= i < n implies placed[i] == placed0[i] by {}
            assert(sizes[n].0 + gutter <= width);
            assert forall|i: int|
                0 <= i < n && (#[trigger] placed[i]) is Some implies place_y(placed[i]) + sizes[i].1 + gutter
                <= start.row_y || (place_y(placed[i]) == start.row_y && place_x(placed[i]) + sizes[i].0 + gutter
                <= start.pen_x && sizes[i].1 <= start.row_h) by {
                assert(placed0[i] is Some);
            }
            assert forall|i: int, j: int|
                0 <= i < j < sizes.len() && (#[trigger] placed[i]) is Some && (#[trigger] placed[j]) is Some
                    implies apart(
                gutter,
                place_x(placed[i]),
                place_y(placed[i]),
                sizes[i].0 as int,
                sizes[i].1 as int,
                place_x(placed[j]),
                place_y(placed[j]),
                sizes[j].0 as int,
                sizes[j].1 as int,
            ) by {
                if j < n {
                    assert(placed0[i] is Some && placed0[j] is Some);
                } else {
                    assert(placed0[i] is Some);
                }
            }
        }
    }
}

/// Law: whenever the packer succeeds on items that each fit the width after
/// a shelf's leading gutter, every item gets a place exactly when it is not
/// empty, every place lies inside the atlas (with a gutter to the right
/// edge, unless it starts a shelf), and any two places keep a gutter apart.
pub proof fn lemma_pack_sound(width: int, height: int, gutter: int, sizes: Seq<(u32, u32)>)
    requires
        0 <= gutter,
        width <= u32::MAX,
        height <= u32::MAX,
        fit_width(width, gutter, sizes),
    ensures
        pack_trace(width, height, gutter, sizes) matches Ok((placed, cur)) ==> placements_sound(
            width,
            height,
            gutter,
            sizes,
            placed,
        ) && cursor_bounds(gutter, sizes, placed, cur),
    decreases sizes.len(),
{
    if sizes.len() > 0 {
        let prev = sizes.drop_last();
        assert forall|i: int| 0 <= i < prev.len() implies (#[trigger] prev[i]).0 + gutter <= width by {
            assert(prev[i] == sizes[i]);
        }
        lemma_pack_sound(width, height, gutter, prev);
        if pack_trace(width, height, gutter, prev) is Ok {
            lemma_pack_step(width, height, gutter, sizes);
        }
    }
}

/// Law: an item narrower than the width less two gutters keeps a gutter to
/// the right edge wherever the packer puts it.
pub proof fn lemma_narrow_keeps_right_gutter(width: int, height: int, gutter: int, x: int, y: int, w: int, h: int)
    requires
        inside(width, height, gutter, x, y, w, h),
        w + 2 * gutter < width,
    ensures
        x + w + gutter < width,
{
}

proof fn lemma_err_persists(width: int, height: int, gutter: int, sizes: Seq<(u32, u32)>, k: int)
    requires
        0 <= k <= sizes.len(),
        pack_trace(width, height, gutter, sizes.take(k)) is Err,
    ensures
        pack_trace(width, height, gutter, sizes) == pack_trace(width, height, gutter, sizes.take(k)),
    decreases sizes.len() - k,
{
    if k == sizes.len() {
        assert(sizes.take(k) =~= sizes);
    } else {
        assert(sizes.take(k + 1).drop_last() =~= sizes.take(k));
        lemma_err_persists(width, height, gutter, sizes, k + 1);
    }
}

/// Packs items of the given sizes; `Err(i)` when item `i` is the first that
/// no longer fits.
pub fn pack(width: u32, height: u32, gutter: u32, sizes: &Vec<(u32, u32)>) -> (r: Result<
    Vec<Option<(u32, u32)>>,
    usize,
>)
    requires
        fit_width(width as int, gutter as int, sizes@),
    ensures
        match r {
            Ok(placed) => pack_trace(width as int, height as int, gutter as int, sizes@) matches Ok(
                (p, _),
            ) && placed@ == p,
            Err(i) => pack_trace(width as int, height as int, gutter as int, sizes@) == Err::<
                (Seq<Option<(u32, u32)>>, Shelf),
                nat,
            >(i as nat),
        },
{
    let mut placed: Vec<Option<(u32, u32)>> = Vec::new();
    let mut pen_x: u64 = gutter as u64;
    let mut row_y: u64 = gutter as u64;
    let mut row_h: u64 = 0;
    let mut i: usize = 0;
    proof {
        lemma_pack_sound(width as int, height as int, gutter as int, sizes@.take(0));
        assert(sizes@.take(0) =~= Seq::<(u32, u32)>::empty());
    }
    while i < sizes.len()
        invariant
            fit_width(width as int, gutter as int, sizes@),
            i <= sizes@.len(),
            pack_trace(width as int, height as int, gutter as int, sizes@.take(i as int)) == Ok::<
                (Seq<Option<(u32, u32)>>, Shelf),
                nat,
            >((placed@, Shelf { pen_x: pen_x as int, row_y: row_y as int, row_h: row_h as int })),
            pen_x <= width as u64 + gutter as u64,
            row_y <= gutter as u64 || row_y < height as u64,
            row_h == 0 || row_y + row_h + gutter < height,
        decreases sizes.len() - i,
    {
        let (w, h) = sizes[i];
        assert(sizes@.take(i as int + 1).drop_last() =~= sizes@.take(i as int));
        assert(sizes@.take(i as int + 1).last() == sizes@[i as int]);
        if w == 0 || h == 0 {
            placed.push(None);
        } else {
            assert(sizes@[i as int].0 + gutter <= width);
            if pen_x + w as u64 + gutter as u64 >= width as u64 {
                pen_x = gutter as u64;
                row_y = row_y + row_h + gutter as u64;
                row_h = 0;
            }
            if row_y + h as u64 + gutter as u64 >= height as u64 {
                proof {
                    lemma_err_persists(width as int, height as int, gutter as int, sizes@, i + 1);
                }
                return Err(i);
            }
            placed.push(Some((pen_x as u32, row_y as u32)));
            pen_x = pen_x + w as u64 + gutter as u64;
            if h as u64 > row_h {
                row_h = h as u64;
            }
        }
        i = i + 1;
    }
    assert(sizes@.take(sizes@.len() as int) =~= sizes@);
    Ok(placed)
}

/// The position of cell (`row`, `col`) in a row-major bitmap `width` wide.
pub open spec fn cell(width: int, row: int, col: int) -> int {
    row * width + col
}

/// Cell (`row`, `col`) lies in the box of size (`w`, `h`) at (`x`, `y`).
pub open spec fn in_box(x: int, y: int, w: int, h: int, row: int, col: int) -> bool {
    y <= row < y + h && x <= col < x + w
}

/// Cell (`row`, `col`) lies under an item placed at `p` with size `size`.
pub open spec fn covers(p: Option<(u32, u32)>, size: (u32, u32), row: int, col: int) -> bool {
    p is Some && in_box(place_x(p), place_y(p), size.0 as int, size.1 as int, row, col)
}

proof fn lemma_cell_bounds(width: int, height: int, row: int, col: int)
    requires
        0 <= row < height,
        0 <= col < width,
    ensures
        0 <= cell(width, row, col) < width * height,
{
    assert(0 <= row * width) by (nonlinear_arith)
        requires
            0 <= row,
            0 <= width,
    ;
    assert(row * width + col < width * height) by (nonlinear_arith)
        requires
            0 <= row < height,
            0 <= col < width,
    ;
}

proof fn lemma_cell_unique(width: int, r1: int, c1: int, r2: int, c2: int)
    requires
        0 <= c1 < width,
        0 <= c2 < width,
        0 <= r1,
        0 <= r2,
        cell(width, r1, c1) == cell(width, r2, c2),
    ensures
        r1 == r2,
        c1 == c2,
{
    if r1 < r2 {
        assert(r1 * width + width <= r2 * width) by (nonlinear_arith)
            requires
                r1 < r2,
                0 <= width,
        ;
    } else if r2 < r1 {
        assert(r2 * width + width <= r1 * width) by (nonlinear_arith)
            requires
                r2 < r1,
                0 <= width,
        ;
    }
}

proof fn lemma_offset_bounds(w: int, h: int, r: int, c: int)
    requires
        0 <= r < h,
        0 <= c < w,
    ensures
        0 <= r * w + c < w * h,
{
    lemma_cell_bounds(w, h, r, c);
}

/// An atlas of the given size with every pixel clear.
pub fn new_atlas(width: u32, height: u32) -> (r: Atlas)
    requires
        width as int * height as int <= usize::MAX,
    ensures
        r.width == width,
        r.height == height,
        r.pixels@.len() == width as int * height as int,
        forall|i: int| 0 <= i < r.pixels@.len() ==> r.pixels@[i] == 0,
{
    let n: usize = (width as usize) * (height as usize);
    let mut pixels: Vec<u8> = Vec::new();
    let mut i: usize = 0;
    while i < n
        invariant
            i <= n,
            pixels@.len() == i,
            forall|j: int| 0 <= j < i ==> pixels@[j] == 0,
        decreases n - i,
    {
        pixels.push(0);
        i = i + 1;
    }
    Atlas { width, height, pixels }
}

/// Copies a `w` by `h` bitmap into `pixels` with its top-left corner at
/// (`x`, `y`); every other pixel is kept.
pub fn blit(
    pixels: &mut Vec<u8>,
    width: u32,
    height: u32,
    x: u32,
    y: u32,
    w: u32,
    h: u32,
    bitmap: &Vec<u8>,
)
    requires
        old(pixels)@.len() == width as int * height as int,
        width as int * height as int <= usize::MAX,
        x as int + w as int <= width as int,
        y as int + h as int <= height as int,
        bitmap@.len() == w as int * h as int,
    ensures
        final(pixels)@.len() == old(pixels)@.len(),
        forall|row: int, col: int|
            0 <= row < height && 0 <= col < width ==> #[trigger] final(pixels)@[cell(
                width as int,
                row,
                col,
            )] == if in_box(x as int, y as int, w as int, h as int, row, col) {
                bitmap@[(row - y) * w + (col - x)]
            } else {
                old(pixels)@[cell(width as int, row, col)]
            },
{
    let ghost start = pixels@;
    let blen: usize = bitmap.len();
    let mut r: u32 = 0;
    while r < h
        invariant
            blen == bitmap@.len(),
            width as int * height as int <= usize::MAX,
            start.len() == width as int * height as int,
            pixels@.len() == start.len(),
            x as int + w as int <= width as int,
            y as int + h as int <= height as int,
            bitmap@.len() == w as int * h as int,
            r <= h,
            forall|row: int, col: int|
                0 <= row < height && 0 <= col < width ==> #[trigger] pixels@[cell(
                    width as int,
                    row,
                    col,
                )] == if in_box(x as int, y as int, w as int, r as int, row, col) {
                    bitmap@[(row - y) * w + (col - x)]
                } else {
                    start[cell(width as int, row, col)]
                },
        decreases h - r,
    {
        let mut c: u32 = 0;
        while c < w
            invariant
                blen == bitmap@.len(),
                width as int * height as int <= usize::MAX,
                start.len() == width as int * height as int,
                pixels@.len() == start.len(),
                x as int + w as int <= width as int,
                y as int + h as int <= height as int,
                bitmap@.len() == w as int * h as int,
                r < h,
                c <= w,
                forall|row: int, col: int|
                    0 <= row < height && 0 <= col < width ==> #[trigger] pixels@[cell(
                        width as int,
                        row,
                        col,
                    )] == if in_box(x as int, y as int, w as int, r as int, row, col) || (row == y
                        + r && x <= col < x + c) {
                        bitmap@[(row - y) * w + (col - x)]
                    } else {
                        start[cell(width as int, row, col)]
                    },
            decreases w - c,
        {
            let ghost row0: int = y as int + r as int;
            let ghost col0: int = x as int + c as int;
            proof {
                lemma_cell_bounds(width as int, height as int, row0, col0);
                lemma_offset_bounds(w as int, h as int, r as int, c as int);
                assert(0 <= (y as int + r as int) * (width as int)) by (nonlinear_arith)
                    requires
                        0 <= y as int + r as int,
                        0 <= width as int,
                ;
                assert(0 <= (r as int) * (w as int)) by (nonlinear_arith)
                    requires
                        0 <= r as int,
                        0 <= w as int,
                ;
            }
            let dst: usize = (y as usize + r as usize) * width as usize + x as usize + c as usize;
            let src: usize = r as usize * w as usize + c as usize;
            assert(dst as int == cell(width as int, row0, col0));
            let ghost before = pixels@;
            pixels.set(dst, bitmap[src]);
            proof {
                assert forall|row: int, col: int|
                    0 <= row < height && 0 <= col < width implies #[trigger] pixels@[cell(
                        width as int,
                        row,
                        col,
                    )] == if in_box(x as int, y as int, w as int, r as int, row, col) || (row == y
                        + r && x <= col < x + c + 1) {
                        bitmap@[(row - y) * w + (col - x)]
                    } else {
                        start[cell(width as int, row, col)]
                    } by {
                    lemma_cell_bounds(width as int, height as int, row, col);
                    if row == row0 && col == col0 {
                    } else {
                        if cell(width as int, row, col) == cell(width as int, row0, col0) {
                            lemma_cell_unique(width as int, row, col, row0, col0);
                        }
                        assert(pixels@[cell(width as int, row, col)] == before[cell(
                            width as int,
                            row,
                            col,
                        )]);
                    }
                }
            }
            c = c + 1;
        }
        r = r + 1;
    }
}

/// The pixels of a packed atlas: each placed bitmap sits in its box and
/// every pixel under no box is clear.
pub open spec fn painted(
    atlas: Atlas,
    sizes: Seq<(u32, u32)>,
    bitmaps: Seq<Seq<u8>>,
    placed: Seq<Option<(u32, u32)>>,
    upto: int,
) -> bool {
    let width = atlas.width as int;
    let height = atlas.height as int;
    &&& atlas.pixels@.len() == width * height
    &&& forall|i: int, row: int, col: int|
        0 <= i < upto && #[trigger] covers(placed[i], sizes[i], row, col) ==> atlas.pixels@[cell(
            width,
            row,
            col,
        )] == bitmaps[i][(row - place_y(placed[i])) * sizes[i].0 + (col - place_x(placed[i]))]
    &&& forall|row: int, col: int|
        0 <= row < height && 0 <= col < width && (forall|i: int|
            0 <= i < upto ==> !covers(placed[i], sizes[i], row, col)) ==> #[trigger] atlas.pixels@[cell(
            width,
            row,
            col,
        )] == 0
}

/// Packs the bitmaps of the given sizes into a fresh `width` by `height`
/// atlas; returns the atlas and each item's place, or `Err(i)` when item
/// `i` is the first that no longer fits.
pub fn build_atlas(
    width: u32,
    height: u32,
    gutter: u32,
    sizes: &Vec<(u32, u32)>,
    bitmaps: &Vec<Vec<u8>>,
) -> (r: Result<(Atlas, Vec<Option<(u32, u32)>>), usize>)
    requires
        fit_width(width as int, gutter as int, sizes@),
        width as int * height as int <= usize::MAX,
        bitmaps@.len() == sizes@.len(),
        forall|i: int|
            0 <= i < sizes@.len() ==> (#[trigger] bitmaps@[i])@.len() == sizes@[i].0 as int
                * sizes@[i].1 as int,
    ensures
        match r {
            Ok((atlas, placed)) => {
                &&& pack_trace(width as int, height as int, gutter as int, sizes@) matches Ok((p, _))
                    && placed@ == p
                &&& atlas.width == width
                &&& atlas.height == height
                &&& painted(atlas, sizes@, bitmaps.deep_view(), placed@, sizes@.len() as int)
            },
            Err(i) => pack_trace(width as int, height as int, gutter as int, sizes@) == Err::<
                (Seq<Option<(u32, u32)>>, Shelf),
                nat,
            >(i as nat),
        },
{
    let placed = match pack(width, height, gutter, sizes) {
        Ok(p) => p,
        Err(i) => return Err(i),
    };
    proof {
        lemma_pack_sound(width as int, height as int, gutter as int, sizes@);
    }
    let mut atlas = new_atlas(width, height);
    proof {
        assert forall|row: int, col: int|
            0 <= row < height && 0 <= col < width implies #[trigger] atlas.pixels@[cell(
            width as int,
            row,
            col,
        )] == 0 by {
            lemma_cell_bounds(width as int, height as int, row, col);
        }
    }
    let mut k: usize = 0;
    while k < sizes.len()
        invariant
            pack_trace(width as int, height as int, gutter as int, sizes@) matches Ok((p, _))
                && placed@ == p,
            placements_sound(width as int, height as int, gutter as int, sizes@, placed@),
            bitmaps@.len() == sizes@.len(),
            forall|i: int|
                0 <= i < sizes@.len() ==> (#[trigger] bitmaps@[i])@.len() == sizes@[i].0 as int
                    * sizes@[i].1 as int,
            atlas.width == width,
            atlas.height == height,
            width as int * height as int <= usize::MAX,
            k <= sizes@.len(),
            painted(atlas, sizes@, bitmaps.deep_view(), placed@, k as int),
        decreases sizes.len() - k,
    {
        let ghost before = atlas.pixels@;
        match placed[k] {
            Some((px, py)) => {
                let (w, h) = sizes[k];
                assert(inside(
                    width as int,
                    height as int,
                    gutter as int,
                    px as int,
                    py as int,
                    w as int,
                    h as int,
                ));
                assert(bitmaps@[k as int]@.len() == w as int * h as int);
                blit(&mut atlas.pixels, width, height, px, py, w, h, &bitmaps[k]);
                proof {
                    let wi = width as int;
                    let hi = height as int;
                    assert(bitmaps.deep_view()[k as int] == bitmaps@[k as int]@);
                    assert forall|i: int, row: int, col: int|
                        0 <= i < k + 1 && #[trigger] covers(placed@[i], sizes@[i], row, col)
                            implies atlas.pixels@[cell(wi, row, col)] == bitmaps.deep_view()[i][(row
                        - place_y(placed@[i])) * sizes@[i].0 + (col - place_x(placed@[i]))] by {
                        let ip = placements_sound(wi, hi, gutter as int, sizes@, placed@);
                        assert(inside(
                            wi,
                            hi,
                            gutter as int,
                            place_x(placed@[i]),
                            place_y(placed@[i]),
                            sizes@[i].0 as int,
                            sizes@[i].1 as int,
                        ));
                        if i < k {
                            assert(placed@[i] is Some && placed@[k as int] is Some);
                            assert(!in_box(px as int, py as int, w as int, h as int, row, col));
                        }
                    }
                    assert forall|row: int, col: int|
                        0 <= row < hi && 0 <= col < wi && (forall|i: int|
                            0 <= i < k + 1 ==> !covers(placed@[i], sizes@[i], row, col)) implies #[trigger] atlas.pixels@[cell(
                        wi,
                        row,
                        col,
                    )] == 0 by {
                        assert(!covers(placed@[k as int], sizes@[k as int], row, col));
                        assert(forall|i: int|
                            0 <= i < k ==> !covers(placed@[i], sizes@[i], row, col));
                    }
                }
            },
            None => {
                proof {
                    assert forall|row: int, col: int|
                        0 <= row < height && 0 <= col < width && (forall|i: int|
                            0 <= i < k + 1 ==> !covers(placed@[i], sizes@[i], row, col)) implies #[trigger] atlas.pixels@[cell(
                        width as int,
                        row,
                        col,
                    )] == 0 by {
                        assert(forall|i: int|
                            0 <= i < k ==> !covers(placed@[i], sizes@[i], row, col));
                    }
                }
            },
        }
        k = k + 1;
    }
    Ok((atlas, placed))
}

} // verus!
