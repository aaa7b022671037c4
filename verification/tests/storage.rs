use std::sync::Arc;

use candle_d3d12::buffer::GpuBuffer;
use candle_d3d12::conv::ParamsConv1D;
use candle_d3d12::dtype::DType;
use candle_d3d12::layout::Layout;
use candle_d3d12::reduce::ReduceOp;
use candle_d3d12::storage::{
    reduce_dispatch, ClonePlan, ContiguousPlan, CopyPlan, D3D12Storage, Route,
};

fn storage(id: u32, count: usize, dtype: DType) -> D3D12Storage<(), u32> {
    let size = (count * dtype.size_in_bytes()) as u64;
    D3D12Storage::new((), Arc::new(GpuBuffer::new(id, size)), count, dtype)
}

fn layout(dims: &[usize], stride: &[usize], start_offset: usize) -> Layout {
    Layout { dims: dims.to_vec(), stride: stride.to_vec(), start_offset }
}

fn contiguous(dims: &[usize]) -> Layout {
    let mut stride = vec![1; dims.len()];
    for i in (0..dims.len().saturating_sub(1)).rev() {
        stride[i] = stride[i + 1] * dims[i + 1];
    }
    layout(dims, &stride, 0)
}

#[test]
fn getters() {
    let s = storage(5, 6, DType::F32);
    assert_eq!(s.elem_count(), 6);
    assert_eq!(s.dtype(), DType::F32);
    assert_eq!(s.buffer().size(), 24);
    assert_eq!(*s.buffer_arc().resource(), 5);
    assert_eq!(s.download_size_bytes(), 24);
    let t = s.new_storage(GpuBuffer::new(9, 8), 2, DType::U32);
    assert_eq!((t.elem_count(), t.dtype(), t.buffer().size()), (2, DType::U32, 8));
}

#[test]
fn contiguous_plans() {
    let s = storage(1, 12, DType::F32);
    match s.contiguous_f32_plan(&contiguous(&[3, 4])) {
        ContiguousPlan::Reuse { elem_count } => assert_eq!(elem_count, 12),
        _ => panic!("expected reuse"),
    }
    match s.contiguous_f32_plan(&layout(&[2, 4], &[4, 1], 4)) {
        ContiguousPlan::CopyRegion { elem_count, src_offset_bytes, size_bytes } => {
            assert_eq!((elem_count, src_offset_bytes, size_bytes), (8, 16, 32))
        }
        _ => panic!("expected a region copy"),
    }
    match s.contiguous_f32_plan(&layout(&[4, 3], &[1, 4], 0)) {
        ContiguousPlan::Gather { elem_count, size_bytes, meta } => {
            assert_eq!((elem_count, size_bytes), (12, 48));
            assert_eq!(meta, vec![4, 0, 0, 0, 3, 0, 0, 0, 1, 0, 0, 0, 4, 0, 0, 0]);
        }
        _ => panic!("expected a gather"),
    }
}

#[test]
fn strided_copy_dispatch_binds_from_offset() {
    let s = storage(1, 12, DType::F32);
    let meta = GpuBuffer::new(2, 256);
    let out = GpuBuffer::new(3, 40);
    let l = layout(&[2, 3], &[1, 2], 2);
    let d = s.strided_copy_dispatch(&l, &meta, &out, 6, 0);
    assert_eq!(d.entry_point, "copy_strided_f32");
    assert_eq!(d.constants, vec![6, 2, 0]);
    let src = &d.srvs[0];
    assert_eq!((src.first_element, src.num_elements, src.stride), (2, 10, 4));
    assert_eq!(d.srvs[1].num_elements, 64);
    assert_eq!((d.uav.num_elements, d.groups), (6, [1, 1, 1]));
    let far = layout(&[2, 3], &[1, 2], 20);
    assert_eq!(s.strided_copy_dispatch(&far, &meta, &out, 6, 0).srvs[0].num_elements, 0);
}

#[test]
fn elementwise_routes() {
    let s = storage(1, 4, DType::F32);
    let l = contiguous(&[4]);
    match s.affine_route(&l) {
        Route::Device(p) => assert_eq!((p.elem_count, p.output_bytes), (4, 16)),
        Route::Host => panic!("f32 affine runs on the device"),
    }
    assert!(matches!(storage(1, 4, DType::F16).affine_route(&l), Route::Host));
    match s.unary_route("uexp", &l) {
        Route::Device(p) => assert_eq!((p.entry_point, p.elem_count, p.output_bytes), ("exp_f32", 4, 16)),
        Route::Host => panic!("exp runs on the device"),
    }
    assert!(matches!(s.unary_route("uerf", &l), Route::Host));
    assert!(matches!(storage(1, 4, DType::U32).unary_route("uneg", &l), Route::Host));
    let r = storage(2, 4, DType::F32);
    match s.binary_route(&r, "badd", &l, &l) {
        Route::Device(p) => assert_eq!((p.entry_point, p.elem_count, p.output_bytes), ("add_f32", 4, 16)),
        Route::Host => panic!("add runs on the device"),
    }
    assert!(matches!(s.binary_route(&r, "bpow", &l, &l), Route::Host));
}

#[test]
fn clone_plans() {
    let s = storage(1, 6, DType::F32);
    match s.try_clone_plan(&contiguous(&[2, 3])) {
        ClonePlan::Copy { size_bytes, count } => assert_eq!((size_bytes, count), (24, 6)),
        _ => panic!("expected a whole copy"),
    }
    match s.try_clone_plan(&contiguous(&[2, 2])) {
        ClonePlan::Copy { size_bytes, count } => assert_eq!((size_bytes, count), (16, 4)),
        _ => panic!("expected a prefix copy"),
    }
    assert!(matches!(s.try_clone_plan(&layout(&[3, 2], &[1, 3], 0)), ClonePlan::Contiguous(ContiguousPlan::Gather { .. })));
    let h = storage(1, 6, DType::I64);
    match h.try_clone_plan(&contiguous(&[6])) {
        ClonePlan::Copy { size_bytes, count } => assert_eq!((size_bytes, count), (48, 6)),
        _ => panic!("expected a whole copy"),
    }
    assert!(matches!(h.try_clone_plan(&contiguous(&[3])), ClonePlan::Host));
}

#[test]
fn reduce_route_sum_over_last_axis() {
    let s = storage(1, 6, DType::F32);
    let l = contiguous(&[2, 3]);
    match s.reduce_route(ReduceOp::Sum, &l, &[1]) {
        Route::Device(p) => {
            assert_eq!((p.entry_point, p.total, p.out_length, p.out_dtype), ("sum_f32", 6, 2, DType::F32));
            assert_eq!(p.output_bytes, 8);
            let (i, o) = (GpuBuffer::new(1u32, 24), GpuBuffer::new(2u32, 8));
            let d = reduce_dispatch(&p, &i, &o);
            assert_eq!(d.constants, vec![6, 2, 3, 0]);
            assert_eq!(d.groups, [2, 1, 1]);
        }
        Route::Host => panic!("trailing sum runs on the device"),
    }
    match s.reduce_route(ReduceOp::ArgMax, &l, &[1]) {
        Route::Device(p) => assert_eq!((p.entry_point, p.out_dtype), ("argmax_f32", DType::U32)),
        Route::Host => panic!("trailing argmax runs on the device"),
    }
    match s.reduce_route(ReduceOp::Min, &l, &[0, 1]) {
        Route::Device(p) => assert_eq!((p.entry_point, p.out_length), ("min_f32", 1)),
        Route::Host => panic!("full min runs on the device"),
    }
    assert!(matches!(s.reduce_route(ReduceOp::Max, &l, &[0]), Route::Host));
    assert!(matches!(s.reduce_route(ReduceOp::Sum, &layout(&[2, 3], &[1, 2], 0), &[1]), Route::Host));
    assert!(matches!(storage(1, 6, DType::F64).reduce_route(ReduceOp::Sum, &l, &[1]), Route::Host));
}

#[test]
fn conv1d_route_and_dispatch() {
    let x = storage(1, 60, DType::F32);
    let k = storage(2, 36, DType::F32);
    let p = ParamsConv1D { b_size: 2, l_in: 10, c_out: 4, c_in: 3, k_size: 3, padding: 0, stride: 1, dilation: 1 };
    let (xl, kl) = (contiguous(&[2, 3, 10]), contiguous(&[4, 3, 3]));
    match x.conv1d_route(&xl, &k, &kl, &p) {
        Route::Device(plan) => {
            assert_eq!((plan.l_out, plan.out_count, plan.output_bytes), (8, 64, 256));
            let out = GpuBuffer::new(3u32, 256);
            let d = x.conv1d_dispatch(&k, &p, &plan, &out);
            assert_eq!(d.constants, vec![2, 3, 4, 10, 8, 3, 1, 0, 1]);
            assert_eq!(d.srvs[0].num_elements, 60);
            assert_eq!(d.srvs[1].num_elements, 36);
        }
        Route::Host => panic!("contiguous f32 conv runs on the device"),
    }
    let shifted = layout(&[2, 3, 10], &[30, 10, 1], 1);
    assert!(matches!(x.conv1d_route(&shifted, &k, &kl, &p), Route::Host));
}

#[test]
fn index_select_route_and_dispatch() {
    let src = storage(1, 24, DType::F32);
    let ids = storage(2, 2, DType::U32);
    let sl = contiguous(&[2, 3, 4]);
    let il = contiguous(&[2]);
    match src.index_select_route(&ids, &sl, &il, 1) {
        Route::Device(p) => {
            assert_eq!((p.left_size, p.dim_size, p.right_size, p.ids_count), (2, 3, 4, 2));
            assert_eq!((p.out_count, p.output_bytes), (16, 64));
            let out = GpuBuffer::new(3u32, 64);
            let d = src.index_select_dispatch(&ids, &p, &out);
            assert_eq!(d.constants, vec![16, 2, 3, 4]);
            assert_eq!(d.srvs[0].num_elements, 24);
            assert_eq!(d.srvs[1].num_elements, 2);
        }
        Route::Host => panic!("f32 index select with u32 ids runs on the device"),
    }
    let ids64 = storage(2, 2, DType::I64);
    assert!(matches!(src.index_select_route(&ids64, &sl, &il, 1), Route::Host));
}

#[test]
fn matmul_of_two_by_three_and_three_by_two() {
    let a = storage(1, 6, DType::F32);
    let b = storage(2, 6, DType::F32);
    let (out_count, bytes) = a.matmul_output(1, 2, 2).unwrap();
    assert_eq!((out_count, bytes), (4, 16));
    let out = GpuBuffer::new(3u32, 16);
    let d = a.matmul_dispatch(&b, 1, 2, 2, 3, &contiguous(&[2, 3]), &contiguous(&[3, 2]), &out, out_count);
    assert_eq!(d.entry_point, "matmul_f32");
    assert_eq!(d.constants, vec![1, 2, 2, 3, 6, 3, 1, 6, 2, 1]);
    assert_eq!((d.srvs[0].first_element, d.srvs[0].num_elements), (0, 6));
    assert_eq!(d.uav.num_elements, 4);
    assert_eq!(d.groups, [1, 1, 1]);
    let batched = a.matmul_dispatch(&b, 1, 2, 2, 3, &layout(&[1, 2, 3], &[6, 1, 2], 0), &layout(&[3, 2], &[2, 1], 0), &out, 4);
    assert_eq!(batched.constants[4..7].to_vec(), vec![6, 1, 2]);
    let e = storage(1, 6, DType::BF16).matmul_output(1, 2, 2).unwrap_err();
    assert_eq!(e.text(), "D3D12 matmul only supports F32, got BF16");
}

#[test]
fn copy_routes() {
    let s = storage(1, 12, DType::F32);
    let d = storage(2, 20, DType::F32);
    match s.copy_strided_route(&d, 5, &layout(&[2, 3], &[3, 1], 2)) {
        Route::Device(CopyPlan::Region { src_offset_bytes, dst_offset_bytes, size_bytes }) => {
            assert_eq!((src_offset_bytes, dst_offset_bytes, size_bytes), (8, 20, 24))
        }
        _ => panic!("expected a region copy"),
    }
    match s.copy_strided_route(&d, 0, &layout(&[3, 2], &[1, 3], 0)) {
        Route::Device(CopyPlan::Gather { meta }) => assert_eq!(meta.len(), 16),
        _ => panic!("expected a gather"),
    }
    assert!(matches!(storage(1, 12, DType::U8).copy_strided_route(&d, 0, &contiguous(&[12])), Route::Host));
    assert!(s.copy2d_on_device());
    assert!(!storage(1, 12, DType::F16).copy2d_on_device());
    let c = s.copy2d_dispatch(&d, 2, 3, 4, 5, 1, 2);
    assert_eq!(c.constants, vec![2, 3, 4, 5, 1, 2]);
    assert_eq!((c.srvs[0].num_elements, c.uav.num_elements), (12, 20));
}

#[test]
fn const_set_needs_contiguous_layout() {
    let s = storage(1, 6, DType::F32);
    assert_eq!(s.const_set_count(&contiguous(&[2, 3])).unwrap(), 6);
    let e = s.const_set_count(&layout(&[2, 3], &[1, 2], 0)).unwrap_err();
    assert_eq!(e.text(), "D3D12 const_set only supports contiguous layouts");
    let d = s.const_set_dispatch(6, 1.5f32.to_bits());
    assert_eq!((d.entry_point, d.constants.clone()), ("fill_f32", vec![6, 1.5f32.to_bits()]));
    assert_eq!(d.uav.num_elements, 6);
}
