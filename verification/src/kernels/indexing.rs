use vstd::prelude::*;

use crate::buffer::{binding, raw_binding, BufferBinding, GpuBuffer};
use crate::dispatch::Dispatch;
use crate::source::Source;
use crate::utils::{
    copy2d_groups, linear_groups, spec_copy2d_groups, spec_linear_groups, COPY2D_TILE,
    LINEAR_GROUP_SIZE,
};

verus! {

/// `r` is the dispatch of the index-select kernel with these arguments.
pub open spec fn is_index_select_dispatch<'a, R>(
    r: &Dispatch<'a, R>,
    count: u32,
    left_size: u32,
    dim_size: u32,
    right_size: u32,
    input: &'a GpuBuffer<R>,
    input_count: u32,
    indices: &'a GpuBuffer<R>,
    indices_count: u32,
    output: &'a GpuBuffer<R>,
) -> bool {
    &&& r.source == Source::Indexing
    &&& r.entry_point@ == "index_select_f32"@
    &&& r.constants@ == seq![count, left_size, dim_size, right_size]
    &&& r.srvs@ == seq![binding(input, 0, input_count, 4), binding(indices, 0, indices_count, 4)]
    &&& r.uav == binding(output, 0, count, 4)
    &&& r.groups@ == spec_linear_groups(count)
    &&& r.fits_root_signature()
}

/// Index select: output[i] = input[(left * dim_size + indices[id]) * right_size + right]
/// for output position i = (left, id, right).
pub fn call_index_select<'a, R>(
    count: u32,
    left_size: u32,
    dim_size: u32,
    right_size: u32,
    input: &'a GpuBuffer<R>,
    input_count: u32,
    indices: &'a GpuBuffer<R>,
    indices_count: u32,
    output: &'a GpuBuffer<R>,
) -> (r: Dispatch<'a, R>)
    requires
        count + LINEAR_GROUP_SIZE <= u32::MAX,
    ensures
        is_index_select_dispatch(&r, count, left_size, dim_size, right_size, input, input_count, indices, indices_count, output),
{
    let srvs = vec![
        BufferBinding::structured_f32(input, input_count),
        BufferBinding::structured_u32(indices, indices_count),
    ];
    Dispatch {
        source: Source::Indexing,
        entry_point: "index_select_f32",
        constants: vec![count, left_size, dim_size, right_size],
        srvs,
        uav: BufferBinding::structured_f32(output, count),
        groups: linear_groups(count),
    }
}

/// Gather: output[i] = input[gather_index(i)].
pub fn call_gather<'a, R>(
    count: u32,
    left_size: u32,
    dim_size: u32,
    right_size: u32,
    idx_dim_size: u32,
    input: &'a GpuBuffer<R>,
    input_count: u32,
    indices: &'a GpuBuffer<R>,
    indices_count: u32,
    output: &'a GpuBuffer<R>,
) -> (r: Dispatch<'a, R>)
    requires
        count + LINEAR_GROUP_SIZE <= u32::MAX,
    ensures
        r.source == Source::Indexing,
        r.entry_point@ == "gather_f32"@,
        r.constants@ == seq![count, left_size, dim_size, right_size, idx_dim_size],
        r.srvs@ == seq![binding(input, 0, input_count, 4), binding(indices, 0, indices_count, 4)],
        r.uav == binding(output, 0, count, 4),
        r.groups@ == spec_linear_groups(count),
        r.fits_root_signature(),
{
    let srvs = vec![
        BufferBinding::structured_f32(input, input_count),
        BufferBinding::structured_u32(indices, indices_count),
    ];
    Dispatch {
        source: Source::Indexing,
        entry_point: "gather_f32",
        constants: vec![count, left_size, dim_size, right_size, idx_dim_size],
        srvs,
        uav: BufferBinding::structured_f32(output, count),
        groups: linear_groups(count),
    }
}

/// Strided copy: output[dst_offset + i] = input[strided_index(i)], where `meta_buffer` holds
/// the input's dims then strides as u32 words.
pub fn call_copy_strided<'a, R>(
    count: u32,
    num_dims: u32,
    dst_offset: u32,
    input: &'a GpuBuffer<R>,
    input_count: u32,
    meta_buffer: &'a GpuBuffer<R>,
    output: &'a GpuBuffer<R>,
    output_count: u32,
) -> (r: Dispatch<'a, R>)
    requires
        count + LINEAR_GROUP_SIZE <= u32::MAX,
    ensures
        r.source == Source::Indexing,
        r.entry_point@ == "copy_strided_f32"@,
        r.constants@ == seq![count, num_dims, dst_offset],
        r.srvs@ == seq![binding(input, 0, input_count, 4), raw_binding(meta_buffer)],
        r.uav == binding(output, 0, output_count, 4),
        r.groups@ == spec_linear_groups(count),
        r.fits_root_signature(),
{
    let srvs = vec![
        BufferBinding::structured_f32(input, input_count),
        BufferBinding::raw(meta_buffer),
    ];
    Dispatch {
        source: Source::Indexing,
        entry_point: "copy_strided_f32",
        constants: vec![count, num_dims, dst_offset],
        srvs,
        uav: BufferBinding::structured_f32(output, output_count),
        groups: linear_groups(count),
    }
}

/// `r` is the dispatch of the 2D copy kernel with these arguments.
pub open spec fn is_copy2d_dispatch<'a, R>(
    r: &Dispatch<'a, R>,
    d1: u32,
    d2: u32,
    src_stride: u32,
    dst_stride: u32,
    src_offset: u32,
    dst_offset: u32,
    input: &'a GpuBuffer<R>,
    input_count: u32,
    output: &'a GpuBuffer<R>,
    output_count: u32,
) -> bool {
    &&& r.source == Source::Indexing
    &&& r.entry_point@ == "copy2d_f32"@
    &&& r.constants@ == seq![d1, d2, src_stride, dst_stride, src_offset, dst_offset]
    &&& r.srvs@ == seq![binding(input, 0, input_count, 4)]
    &&& r.uav == binding(output, 0, output_count, 4)
    &&& r.groups@ == spec_copy2d_groups(d1, d2)
    &&& r.fits_root_signature()
}

/// 2D copy with strides: output[dst_offset + i1 * dst_stride + i2] =
/// input[src_offset + i1 * src_stride + i2] for i1 < d1, i2 < d2.
pub fn call_copy2d<'a, R>(
    d1: u32,
    d2: u32,
    src_stride: u32,
    dst_stride: u32,
    src_offset: u32,
    dst_offset: u32,
    input: &'a GpuBuffer<R>,
    input_count: u32,
    output: &'a GpuBuffer<R>,
    output_count: u32,
) -> (r: Dispatch<'a, R>)
    requires
        d1 + COPY2D_TILE <= u32::MAX,
        d2 + COPY2D_TILE <= u32::MAX,
    ensures
        is_copy2d_dispatch(&r, d1, d2, src_stride, dst_stride, src_offset, dst_offset, input, input_count, output, output_count),
{
    let r = Dispatch {
        source: Source::Indexing,
        entry_point: "copy2d_f32",
        constants: vec![d1, d2, src_stride, dst_stride, src_offset, dst_offset],
        srvs: vec![BufferBinding::structured_f32(input, input_count)],
        uav: BufferBinding::structured_f32(output, output_count),
        groups: copy2d_groups(d1, d2),
    };
    assert(r.constants@ =~= seq![d1, d2, src_stride, dst_stride, src_offset, dst_offset]);
    assert(r.srvs@ =~= seq![binding(input, 0, input_count, 4)]);
    r

}

} // verus!
