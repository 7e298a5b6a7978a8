use echover::atlas::{blit, build_atlas, new_atlas, pack};
use echover::icons::{all_icons, icon_size_for, icon_sizes, IconId};

#[test]
fn items_pack_left_to_right_then_on_new_shelves() {
    // 20 wide, gutter 1: items of width 5 go at x = 1, 7; the third would
    // end at 13 + 5 + 1 = 19 >= 20, so it starts a new shelf.
    let sizes = vec![(5, 3), (5, 4), (5, 2), (0, 7)];
    let placed = pack(20, 20, 1, &sizes).unwrap();
    assert_eq!(placed, vec![Some((1, 1)), Some((7, 1)), Some((13, 1)), None]);
    let sizes = vec![(5, 3), (5, 4), (5, 2), (5, 2)];
    let placed = pack(20, 20, 1, &sizes).unwrap();
    assert_eq!(placed[3], Some((1, 6)));
}

#[test]
fn a_full_atlas_reports_the_first_item_that_does_not_fit() {
    let sizes = vec![(4, 4), (4, 4), (4, 4)];
    assert_eq!(pack(10, 11, 1, &sizes), Err(1));
    assert_eq!(pack(10, 16, 1, &sizes), Err(2));
    assert_eq!(pack(10, 5, 1, &sizes), Err(0));
}

#[test]
fn bitmaps_are_copied_into_their_boxes() {
    let sizes = vec![(2, 2), (1, 1)];
    let bitmaps = vec![vec![1, 2, 3, 4], vec![9]];
    let (atlas, placed) = build_atlas(8, 6, 1, &sizes, &bitmaps).unwrap();
    assert_eq!(placed, vec![Some((1, 1)), Some((4, 1))]);
    assert_eq!(atlas.pixels.len(), 48);
    assert_eq!(atlas.pixels[8 + 1], 1);
    assert_eq!(atlas.pixels[8 + 2], 2);
    assert_eq!(atlas.pixels[16 + 1], 3);
    assert_eq!(atlas.pixels[16 + 2], 4);
    assert_eq!(atlas.pixels[8 + 4], 9);
    let painted: u32 = atlas.pixels.iter().map(|&p| p as u32).sum();
    assert_eq!(painted, 1 + 2 + 3 + 4 + 9);
}

#[test]
fn blit_keeps_other_pixels() {
    let mut a = new_atlas(4, 3);
    assert!(a.pixels.iter().all(|&p| p == 0));
    a.pixels[0] = 7;
    blit(&mut a.pixels, 4, 3, 2, 1, 2, 2, &vec![5, 6, 7, 8]);
    assert_eq!(a.pixels, vec![7, 0, 0, 0, 0, 0, 5, 6, 0, 0, 7, 8]);
}

#[test]
fn icon_sizes_prefer_exact_then_smaller() {
    let baked = icon_sizes();
    assert!(!baked.is_empty());
    for &s in &baked {
        assert_eq!(icon_size_for(&baked, s), Some(s));
    }
    assert_eq!(icon_size_for(&vec![16, 24, 32], 28), Some(24));
    assert_eq!(icon_size_for(&vec![16, 24, 32], 100), Some(32));
    assert_eq!(icon_size_for(&vec![16, 24, 32], 8), Some(16));
    assert_eq!(icon_size_for(&vec![], 8), None);
}

#[test]
fn every_icon_is_listed_once() {
    let icons = all_icons();
    let set: std::collections::HashSet<IconId> = icons.iter().copied().collect();
    assert_eq!(set.len(), icons.len());
    assert!(icons.contains(&IconId::Play));
}

#[test]
fn an_item_as_wide_as_the_atlas_less_one_gutter_fits() {
    // It does not fit beside the opening gutter with one to spare, so it
    // starts a new shelf at the left gutter and ends at the right edge.
    let placed = pack(1024, 10, 1, &vec![(1023, 2)]).unwrap();
    assert_eq!(placed, vec![Some((1, 2))]);
    let (atlas, _) = build_atlas(8, 8, 1, &vec![(7, 1)], &vec![vec![5; 7]]).unwrap();
    assert_eq!(&atlas.pixels[2 * 8..3 * 8], &[0, 5, 5, 5, 5, 5, 5, 5]);
    assert!(atlas.pixels[..2 * 8].iter().all(|&p| p == 0));
}
