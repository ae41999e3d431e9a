use astcenc_rs::geometry::{blocks_along, component_count, compressed_len};
use astcenc_rs::Extents;

#[test]
fn extents_new_sets_depth_one() {
    let e = Extents::new(7, 9);
    assert_eq!((e.x, e.y, e.z), (7, 9, 1));
}

#[test]
fn extents_new_3d_keeps_depth() {
    let e = Extents::new_3d(3, 5, 6);
    assert_eq!((e.x, e.y, e.z), (3, 5, 6));
}

#[test]
fn default_block_size_is_4x4x1() {
    assert_eq!(Extents::default_block_size(), Extents::new_3d(4, 4, 1));
}

#[test]
fn blocks_along_rounds_up() {
    assert_eq!(blocks_along(6, 4), 2);
    assert_eq!(blocks_along(8, 4), 2);
    assert_eq!(blocks_along(9, 4), 3);
    assert_eq!(blocks_along(0, 4), 0);
    assert_eq!(blocks_along(1, 12), 1);
    assert_eq!(blocks_along(u32::MAX, 1), u32::MAX);
    assert_eq!(blocks_along(u32::MAX, 2), 1 << 31);
}

#[test]
fn compressed_len_six_by_six_with_four_by_four_blocks() {
    let n = compressed_len(Extents::new(6, 6), Extents::new(4, 4));
    assert_eq!(n, Some(64));
}

#[test]
fn compressed_len_exact_multiple_and_3d() {
    assert_eq!(compressed_len(Extents::new(8, 8), Extents::new(4, 4)), Some(64));
    assert_eq!(compressed_len(Extents::new(10, 5), Extents::new(5, 5)), Some(32));
    assert_eq!(compressed_len(Extents::new_3d(7, 7, 7), Extents::new_3d(3, 3, 3)), Some(27 * 16));
    assert_eq!(compressed_len(Extents::new(0, 0), Extents::new(4, 4)), Some(0));
}

#[test]
fn compressed_len_too_large_for_usize() {
    let huge = Extents::new_3d(u32::MAX, u32::MAX, u32::MAX);
    assert_eq!(compressed_len(huge, Extents::new_3d(1, 1, 1)), None);
}

#[test]
fn component_count_is_four_per_texel() {
    assert_eq!(component_count(Extents::new(6, 6)), Some(144));
    assert_eq!(component_count(Extents::new_3d(2, 3, 4)), Some(96));
    assert_eq!(component_count(Extents::new(0, 10)), Some(0));
    assert_eq!(component_count(Extents::new_3d(u32::MAX, u32::MAX, u32::MAX)), None);
}
