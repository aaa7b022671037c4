use candle_d3d12::buffer::{BufferBinding, GpuBuffer};
use candle_d3d12::dispatch::Dispatch;
use candle_d3d12::kernels::affine::{call_affine, call_affine_strided};
use candle_d3d12::kernels::binary::{call_binary_contiguous, call_binary_strided};
use candle_d3d12::kernels::cast::{call_cast_f32_to_u32, call_cast_f64_to_f32, call_cast_u32_to_f32};
use candle_d3d12::kernels::conv::call_conv1d;
use candle_d3d12::kernels::fill::{call_fill_f32, call_fill_u32, call_fill_u8};
use candle_d3d12::kernels::indexing::{call_copy2d, call_copy_strided, call_gather, call_index_select};
use candle_d3d12::kernels::matmul::call_matmul;
use candle_d3d12::kernels::reduce::{call_arg_reduce, call_reduce, call_softmax};
use candle_d3d12::kernels::ternary::call_where_cond;
use candle_d3d12::kernels::unary::{call_unary_contiguous, call_unary_strided};
use candle_d3d12::source::Source;

fn b(id: u32, size: u64) -> GpuBuffer<u32> {
    GpuBuffer::new(id, size)
}

fn view(x: &BufferBinding<u32>) -> (u32, u32, u32, u32) {
    (*x.buffer.resource(), x.first_element, x.num_elements, x.stride)
}

fn srvs(d: &Dispatch<u32>) -> Vec<(u32, u32, u32, u32)> {
    d.srvs.iter().map(view).collect()
}

#[test]
fn fill_scenario() {
    let out = b(1, 32);
    let d = call_fill_f32(8, 42.0f32.to_bits(), &out);
    assert_eq!(d.source, Source::Fill);
    assert_eq!(d.entry_point, "fill_f32");
    assert_eq!(d.constants, vec![8, 42.0f32.to_bits()]);
    assert!(d.srvs.is_empty());
    assert_eq!(view(&d.uav), (1, 0, 8, 4));
    assert_eq!(d.groups, [1, 1, 1]);
    let u = call_fill_u32(300, 3.0f32.to_bits(), &out);
    assert_eq!((u.entry_point, u.groups), ("fill_u32", [2, 1, 1]));
    assert_eq!(view(&u.uav), (1, 0, 300, 4));
    let r = call_fill_u8(5, 9.0f32.to_bits(), &out);
    assert_eq!(r.entry_point, "fill_u8");
    assert_eq!(view(&r.uav), (1, 0, 8, 0));
}

#[test]
fn unary_scenarios() {
    let (i, o, m) = (b(1, 32), b(2, 32), b(3, 16));
    let d = call_unary_contiguous("neg_f32", 8, &i, &o);
    assert_eq!((d.source, d.entry_point), (Source::Unary, "neg_f32"));
    assert_eq!(d.constants, vec![8]);
    assert_eq!(srvs(&d), vec![(1, 0, 8, 4)]);
    assert_eq!(view(&d.uav), (2, 0, 8, 4));
    assert_eq!(d.groups, [1, 1, 1]);
    let s = call_unary_strided("copy_f32_strided", 6, 2, &i, 8, &m, &o);
    assert_eq!(s.constants, vec![6, 2]);
    assert_eq!(srvs(&s), vec![(1, 0, 8, 4), (3, 0, 4, 0)]);
}

#[test]
fn binary_scenarios() {
    let (l, r, o, lm, rm) = (b(1, 16), b(2, 16), b(3, 16), b(4, 16), b(5, 32));
    let d = call_binary_contiguous("add_f32", 4, &l, &r, &o);
    assert_eq!((d.source, d.entry_point), (Source::Binary, "add_f32"));
    assert_eq!(d.constants, vec![4]);
    assert_eq!(srvs(&d), vec![(1, 0, 4, 4), (2, 0, 4, 4)]);
    assert_eq!(view(&d.uav), (3, 0, 4, 4));
    let s = call_binary_strided("mul_f32_strided", 4, 2, &l, 4, &r, 2, &lm, &rm, &o);
    assert_eq!(s.constants, vec![4, 2]);
    assert_eq!(srvs(&s), vec![(1, 0, 4, 4), (2, 0, 2, 4), (4, 0, 4, 0), (5, 0, 8, 0)]);
}

#[test]
fn reduce_scenarios() {
    let (i, o) = (b(1, 32), b(2, 4));
    let d = call_reduce("sum_f32", 8, 1, &i, &o);
    assert_eq!((d.source, d.entry_point), (Source::Reduce, "sum_f32"));
    assert_eq!(d.constants, vec![8, 1, 8, 0]);
    assert_eq!(srvs(&d), vec![(1, 0, 8, 4)]);
    assert_eq!(view(&d.uav), (2, 0, 1, 4));
    assert_eq!(d.groups, [1, 1, 1]);
    let m = call_reduce("mean_f32", 8, 2, &i, &o);
    assert_eq!(m.constants, vec![8, 2, 4, 0]);
    assert_eq!(m.groups, [2, 1, 1]);
    let a = call_arg_reduce("argmax_f32", 6, 2, &i, &o);
    assert_eq!((a.entry_point, a.constants.clone()), ("argmax_f32", vec![6, 2, 3, 0]));
    let s = call_softmax(4, 1, &i, &o);
    assert_eq!((s.entry_point, s.constants.clone(), s.groups), ("softmax_f32", vec![4, 1], [1, 1, 1]));
    assert_eq!(srvs(&s), vec![(1, 0, 4, 4)]);
    assert_eq!(view(&s.uav), (2, 0, 4, 4));
}

#[test]
fn affine_scenario() {
    let (i, o, m) = (b(1, 16), b(2, 16), b(3, 32));
    let d = call_affine(4, &i, &o, 2.0f32.to_bits(), 1.0f32.to_bits());
    assert_eq!((d.source, d.entry_point), (Source::Affine, "affine_f32"));
    assert_eq!(d.constants, vec![4, 2.0f32.to_bits(), 1.0f32.to_bits()]);
    assert_eq!(srvs(&d), vec![(1, 0, 4, 4)]);
    let s = call_affine_strided(4, 2, &i, 6, &m, &o, 3, 5);
    assert_eq!(s.constants, vec![4, 3, 5, 2]);
    assert_eq!(srvs(&s), vec![(1, 0, 6, 4), (3, 0, 8, 0)]);
}

#[test]
fn matmul_scenario() {
    let (a, bb, c) = (b(1, 24), b(2, 24), b(3, 16));
    let d = call_matmul(1, 2, 2, 3, 6, 3, 1, 6, 2, 1, &a, 6, &bb, 6, &c);
    assert_eq!((d.source, d.entry_point), (Source::Matmul, "matmul_f32"));
    assert_eq!(d.constants, vec![1, 2, 2, 3, 6, 3, 1, 6, 2, 1]);
    assert_eq!(srvs(&d), vec![(1, 0, 6, 4), (2, 0, 6, 4)]);
    assert_eq!(view(&d.uav), (3, 0, 4, 4));
    assert_eq!(d.groups, [1, 1, 1]);
}

#[test]
fn cast_conv_index_ternary() {
    let (i, o, x) = (b(1, 80), b(2, 40), b(3, 40));
    assert_eq!(srvs(&call_cast_f32_to_u32(10, &i, &o)), vec![(1, 0, 10, 4)]);
    assert_eq!(call_cast_u32_to_f32(10, &i, &o).entry_point, "cast_u32_to_f32");
    assert_eq!(srvs(&call_cast_f64_to_f32(10, &i, &o)), vec![(1, 0, 20, 0)]);
    let c = call_conv1d(2, 3, 4, 10, 8, 3, 1, 0, 1, &i, 60, &x, 36, &o);
    assert_eq!(c.constants, vec![2, 3, 4, 10, 8, 3, 1, 0, 1]);
    assert_eq!(view(&c.uav), (2, 0, 64, 4));
    assert_eq!(c.groups, [1, 1, 1]);
    let s = call_index_select(12, 2, 5, 3, &i, 30, &x, 2, &o);
    assert_eq!(s.constants, vec![12, 2, 5, 3]);
    assert_eq!(srvs(&s), vec![(1, 0, 30, 4), (3, 0, 2, 4)]);
    let g = call_gather(12, 2, 5, 3, 2, &i, 30, &x, 12, &o);
    assert_eq!(g.constants, vec![12, 2, 5, 3, 2]);
    let cs = call_copy_strided(6, 2, 4, &i, 20, &x, &o, 10);
    assert_eq!(cs.constants, vec![6, 2, 4]);
    assert_eq!(view(&cs.uav), (2, 0, 10, 4));
    let c2 = call_copy2d(20, 17, 17, 20, 1, 2, &i, 400, &o, 500);
    assert_eq!(c2.constants, vec![20, 17, 17, 20, 1, 2]);
    assert_eq!(c2.groups, [2, 2, 1]);
    let w = call_where_cond(9, &x, 3, &i, &i, &o);
    assert_eq!(srvs(&w), vec![(3, 0, 3, 4), (1, 0, 9, 4), (1, 0, 9, 4)]);
    assert_eq!(w.entry_point, "where_f32");
}
