use echover::gpu::{pick_memory_type, pick_queue_family, pick_surface_format, swap_extent, swap_image_count};

#[test]
fn memory_types_need_the_filter_bit_and_every_property() {
    let types = vec![0b001, 0b110, 0b111, 0b010];
    assert_eq!(pick_memory_type(0b1111, &types, 0b110), Some(1));
    assert_eq!(pick_memory_type(0b1101, &types, 0b110), Some(2));
    assert_eq!(pick_memory_type(0b1000, &types, 0b110), None);
    assert_eq!(pick_memory_type(u32::MAX, &types, 0), Some(0));
    assert_eq!(pick_memory_type(u32::MAX, &vec![], 0), None);
}

#[test]
fn queue_families_are_scanned_in_order() {
    let devices = vec![vec![(false, true), (true, false)], vec![(false, false), (true, true), (true, true)]];
    assert_eq!(pick_queue_family(&devices), Some((1, 1)));
    assert_eq!(pick_queue_family(&vec![vec![(true, false)]]), None);
    assert_eq!(pick_queue_family(&vec![]), None);
}

#[test]
fn swapchain_extent_and_image_count() {
    assert_eq!(swap_extent((800, 600), (1, 1), (4096, 4096), (10, 10)), (800, 600));
    assert_eq!(swap_extent((u32::MAX, u32::MAX), (100, 100), (1000, 1000), (50, 5000)), (100, 1000));
    assert_eq!(swap_extent((u32::MAX, u32::MAX), (100, 100), (1000, 1000), (640, 480)), (640, 480));
    assert_eq!(swap_image_count(2, 0), 3);
    assert_eq!(swap_image_count(2, 3), 3);
    assert_eq!(swap_image_count(2, 2), 2);
}

#[test]
fn surface_format_prefers_the_wanted_pair() {
    let formats = vec![(44, 0), (50, 0), (50, 1)];
    assert_eq!(pick_surface_format(&formats, (50, 0)), 1);
    assert_eq!(pick_surface_format(&formats, (9, 9)), 0);
}
