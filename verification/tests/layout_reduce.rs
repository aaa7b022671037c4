use candle_d3d12::layout::{layout_meta_bytes, layout_meta_words, Layout};
use candle_d3d12::reduce::{is_trailing_reduction, sorted_distinct};

fn layout(dims: &[usize], stride: &[usize], start_offset: usize) -> Layout {
    Layout { dims: dims.to_vec(), stride: stride.to_vec(), start_offset }
}

#[test]
fn elem_count_is_product_of_dims() {
    assert_eq!(layout(&[2, 3, 4], &[12, 4, 1], 0).elem_count(), 24);
    assert_eq!(layout(&[], &[], 0).elem_count(), 1);
    assert_eq!(layout(&[5, 0], &[1, 1], 0).elem_count(), 0);
}

#[test]
fn contiguity() {
    assert!(layout(&[2, 3], &[3, 1], 0).is_contiguous());
    assert!(layout(&[2, 3], &[3, 1], 5).is_contiguous());
    assert!(!layout(&[2, 3], &[1, 2], 0).is_contiguous());
    // Axes of size one may have any stride.
    assert!(layout(&[1, 3], &[99, 1], 0).is_contiguous());
    assert!(layout(&[2, 1, 3], &[3, 7, 1], 0).is_contiguous());
    assert!(!layout(&[2, 3], &[3], 0).is_contiguous());
    assert!(layout(&[], &[], 0).is_contiguous());
}

#[test]
fn layout_meta_is_dims_then_strides() {
    let l = layout(&[2, 3], &[3, 1], 0);
    assert_eq!(layout_meta_words(&l), vec![2, 3, 3, 1]);
    assert_eq!(layout_meta_bytes(&l), vec![2, 0, 0, 0, 3, 0, 0, 0, 3, 0, 0, 0, 1, 0, 0, 0]);
    let big = layout(&[1 << 33], &[1], 0);
    assert_eq!(layout_meta_words(&big), vec![0, 1]);
}

#[test]
fn sorted_distinct_dims() {
    assert_eq!(sorted_distinct(&[3, 1, 3, 2, 1]), vec![1, 2, 3]);
    assert_eq!(sorted_distinct(&[]), Vec::<usize>::new());
}

#[test]
fn trailing_reductions() {
    assert!(is_trailing_reduction(3, &[2]));
    assert!(is_trailing_reduction(3, &[1, 2]));
    assert!(is_trailing_reduction(3, &[2, 1]));
    assert!(is_trailing_reduction(3, &[2, 2]));
    assert!(is_trailing_reduction(3, &[0, 1, 2]));
    assert!(!is_trailing_reduction(3, &[1]));
    assert!(!is_trailing_reduction(3, &[0, 2]));
    assert!(!is_trailing_reduction(3, &[]));
    assert!(!is_trailing_reduction(3, &[5]));
}
