//! The choices the renderer makes from what the graphics driver reports:
//! memory type, queue family, swapchain size, surface format and image
//! count. Driver queries stay with the caller; these functions take their
//! answers as plain values.
use vstd::prelude::*;

verus! {

/// The most memory types a device reports.
pub const MAX_MEMORY_TYPES: usize = 32;

/// Memory type `i` is allowed by `filter` and has every property in
/// `required`.
pub open spec fn memory_type_fits(filter: u32, flags: u32, required: u32, i: int) -> bool {
    (filter & (1u32 << (i as u32))) != 0 && (flags & required) == required
}

/// The first memory type, in index order, that `filter` allows and whose
/// property flags hold every flag of `required`; `None` when there is none.
pub fn pick_memory_type(filter: u32, type_flags: &Vec<u32>, required: u32) -> (r: Option<u32>)
    requires
        type_flags@.len() <= MAX_MEMORY_TYPES,
    ensures
        r matches Some(i) ==> i < type_flags@.len() && memory_type_fits(
            filter,
            type_flags@[i as int],
            required,
            i as int,
        ) && forall|j: int|
            0 <= j < i ==> !memory_type_fits(filter, #[trigger] type_flags@[j], required, j),
        r is None ==> forall|j: int|
            0 <= j < type_flags@.len() ==> !memory_type_fits(filter, #[trigger] type_flags@[j], required, j),
{
    let mut i: usize = 0;
    while i < type_flags.len()
        invariant
            i <= type_flags@.len() <= MAX_MEMORY_TYPES,
            forall|j: int| 0 <= j < i ==> !memory_type_fits(filter, #[trigger] type_flags@[j], required, j),
        decreases type_flags.len() - i,
    {
        let shift: u32 = i as u32;
        if (filter & (1u32 << shift)) != 0 && (type_flags[i] & required) == required {
            return Some(shift);
        }
        i = i + 1;
    }
    None
}

/// A queue family, given as `(does graphics, can present)`, that the
/// renderer can draw and present with.
pub open spec fn family_fits(f: (bool, bool)) -> bool {
    f.0 && f.1
}

/// Picks the device and queue family the renderer draws and presents
/// with, as `(device index, family index)`: the first that does both,
/// scanning devices in order and each device's families in order.
pub fn pick_queue_family(families: &Vec<Vec<(bool, bool)>>) -> (r: Option<(usize, u32)>)
    requires
        forall|d: int| 0 <= d < families@.len() ==> (#[trigger] families@[d])@.len() <= u32::MAX,
    ensures
        r matches Some((d, q)) ==> {
            &&& d < families@.len()
            &&& q < families@[d as int]@.len()
            &&& family_fits(families@[d as int]@[q as int])
            &&& forall|e: int, p: int|
                0 <= e < families@.len() && 0 <= p < families@[e]@.len() && (e < d || (e == d && p < q))
                    ==> !family_fits(#[trigger] families@[e]@[p])
        },
        r is None ==> forall|e: int, p: int|
            0 <= e < families@.len() && 0 <= p < families@[e]@.len() ==> !family_fits(
                #[trigger] families@[e]@[p],
            ),
{
    let mut d: usize = 0;
    while d < families.len()
        invariant
            d <= families@.len(),
            forall|e: int| 0 <= e < families@.len() ==> (#[trigger] families@[e])@.len() <= u32::MAX,
            forall|e: int, p: int|
                0 <= e < d && 0 <= p < families@[e]@.len() ==> !family_fits(#[trigger] families@[e]@[p]),
        decreases families.len() - d,
    {
        let device = &families[d];
        let mut q: usize = 0;
        while q < device.len()
            invariant
                d < families@.len(),
                *device == families@[d as int],
                device@.len() <= u32::MAX,
                q <= device@.len(),
                forall|e: int, p: int|
                    0 <= e < d && 0 <= p < families@[e]@.len() ==> !family_fits(#[trigger] families@[e]@[p]),
                forall|p: int| 0 <= p < q ==> !family_fits(#[trigger] families@[d as int]@[p]),
            decreases device.len() - q,
        {
            let (graphics, present) = device[q];
            if graphics && present {
                return Some((d, q as u32));
            }
            q = q + 1;
        }
        d = d + 1;
    }
    None
}

/// `v` held to `lo..=hi`.
pub open spec fn clamped(v: u32, lo: u32, hi: u32) -> u32 {
    if v < lo {
        lo
    } else if v > hi {
        hi
    } else {
        v
    }
}

/// The swapchain's size: the surface's current size, or, when the surface
/// leaves it to the window (`u32::MAX` wide), the window's size held to the
/// surface's limits.
pub fn swap_extent(current: (u32, u32), min: (u32, u32), max: (u32, u32), window: (u32, u32)) -> (r: (
    u32,
    u32,
))
    requires
        current.0 == u32::MAX ==> min.0 <= max.0 && min.1 <= max.1,
    ensures
        current.0 != u32::MAX ==> r == current,
        current.0 == u32::MAX ==> r == (clamped(window.0, min.0, max.0), clamped(window.1, min.1, max.1)),
{
    if current.0 == u32::MAX {
        (clamp_u32(window.0, min.0, max.0), clamp_u32(window.1, min.1, max.1))
    } else {
        current
    }
}

fn clamp_u32(v: u32, lo: u32, hi: u32) -> (r: u32)
    ensures
        r == clamped(v, lo, hi),
{
    if v < lo {
        lo
    } else if v > hi {
        hi
    } else {
        v
    }
}

/// Which of the reported surface formats, `(format, colour space)`, the
/// swapchain uses: the first equal to `wanted`, else the first reported.
pub fn pick_surface_format(formats: &Vec<(i32, i32)>, wanted: (i32, i32)) -> (r: usize)
    requires
        formats@.len() > 0,
    ensures
        r < formats@.len(),
        formats@.contains(wanted) ==> formats@[r as int] == wanted && forall|j: int|
            0 <= j < r ==> #[trigger] formats@[j] != wanted,
        !formats@.contains(wanted) ==> r == 0,
{
    let mut i: usize = 0;
    while i < formats.len()
        invariant
            i <= formats@.len(),
            forall|j: int| 0 <= j < i ==> #[trigger] formats@[j] != wanted,
        decreases formats.len() - i,
    {
        if formats[i].0 == wanted.0 && formats[i].1 == wanted.1 {
            return i;
        }
        i = i + 1;
    }
    0
}

/// How many images the swapchain asks for: one more than the surface's
/// minimum, but no more than its maximum when it has one (maximum 0).
pub fn swap_image_count(min_count: u32, max_count: u32) -> (r: u32)
    requires
        min_count < u32::MAX,
    ensures
        r == (if max_count != 0 && min_count + 1 > max_count { max_count as int } else { min_count + 1 }),
{
    let wanted: u32 = min_count + 1;
    if max_count != 0 && wanted > max_count {
        max_count
    } else {
        wanted
    }
}

} // verus!
