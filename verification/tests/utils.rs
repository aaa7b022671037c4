use candle_d3d12::utils::{copy2d_groups, div_ceil, linear_groups, matmul_groups};

#[test]
fn div_ceil_rounds_up() {
    assert_eq!(div_ceil(0, 256), 0);
    assert_eq!(div_ceil(1, 256), 1);
    assert_eq!(div_ceil(256, 256), 1);
    assert_eq!(div_ceil(257, 256), 2);
    assert_eq!(div_ceil(10, 3), 4);
    assert_eq!(div_ceil(9, 3), 3);
    assert_eq!(div_ceil(u32::MAX - 1, 1), u32::MAX - 1);
}

#[test]
fn linear_groups_cover_every_element() {
    assert_eq!(linear_groups(0), [0, 1, 1]);
    assert_eq!(linear_groups(1), [1, 1, 1]);
    assert_eq!(linear_groups(256), [1, 1, 1]);
    assert_eq!(linear_groups(1000), [4, 1, 1]);
    for count in [1u32, 255, 256, 257, 511, 512, 513, 100_000] {
        let g = linear_groups(count)[0];
        assert!(g * 256 >= count);
        assert!((g - 1) * 256 < count);
    }
}

#[test]
fn matmul_groups_tile_columns_rows_batches() {
    assert_eq!(matmul_groups(17, 8, 3), [3, 1, 3]);
    assert_eq!(matmul_groups(2, 2, 1), [1, 1, 1]);
    assert_eq!(matmul_groups(0, 0, 5), [0, 0, 5]);
}

#[test]
fn copy2d_groups_tile_both_dimensions() {
    assert_eq!(copy2d_groups(33, 16), [3, 1, 1]);
    assert_eq!(copy2d_groups(1, 1), [1, 1, 1]);
}
