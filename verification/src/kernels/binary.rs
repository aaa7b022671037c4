use vstd::prelude::*;

use crate::buffer::{binding, raw_binding, BufferBinding, GpuBuffer};
use crate::dispatch::Dispatch;
use crate::source::Source;
use crate::utils::{linear_groups, spec_linear_groups, LINEAR_GROUP_SIZE};

verus! {

/// Dispatch a contiguous binary kernel (add_f32, sub_f32, mul_f32, div_f32, etc.).
pub fn call_binary_contiguous<'a, R>(
    entry_point: &'a str,
    count: u32,
    lhs: &'a GpuBuffer<R>,
    rhs: &'a GpuBuffer<R>,
    output: &'a GpuBuffer<R>,
) -> (r: Dispatch<'a, R>)
    requires
        count + LINEAR_GROUP_SIZE <= u32::MAX,
    ensures
        r.source == Source::Binary,
        r.entry_point == entry_point,
        r.constants@ == seq![count],
        r.srvs@ == seq![binding(lhs, 0, count, 4), binding(rhs, 0, count, 4)],
        r.uav == binding(output, 0, count, 4),
        r.groups@ == spec_linear_groups(count),
        r.fits_root_signature(),
{
    let srvs = vec![
        BufferBinding::structured_f32(lhs, count),
        BufferBinding::structured_f32(rhs, count),
    ];
    Dispatch {
        source: Source::Binary,
        entry_point,
        constants: vec![count],
        srvs,
        uav: BufferBinding::structured_f32(output, count),
        groups: linear_groups(count),
    }
}

/// Dispatch a strided binary kernel (add_f32_strided, etc.); `lhs_meta` and `rhs_meta` each
/// hold packed dims[] then strides[] as u32 words.
pub fn call_binary_strided<'a, R>(
    entry_point: &'a str,
    count: u32,
    num_dims: u32,
    lhs: &'a GpuBuffer<R>,
    lhs_count: u32,
    rhs: &'a GpuBuffer<R>,
    rhs_count: u32,
    lhs_meta: &'a GpuBuffer<R>,
    rhs_meta: &'a GpuBuffer<R>,
    output: &'a GpuBuffer<R>,
) -> (r: Dispatch<'a, R>)
    requires
        count + LINEAR_GROUP_SIZE <= u32::MAX,
    ensures
        r.source == Source::Binary,
        r.entry_point == entry_point,
        r.constants@ == seq![count, num_dims],
        r.srvs@ == seq![
            binding(lhs, 0, lhs_count, 4),
            binding(rhs, 0, rhs_count, 4),
            raw_binding(lhs_meta),
            raw_binding(rhs_meta),
        ],
        r.uav == binding(output, 0, count, 4),
        r.groups@ == spec_linear_groups(count),
        r.fits_root_signature(),
{
    let srvs = vec![
        BufferBinding::structured_f32(lhs, lhs_count),
        BufferBinding::structured_f32(rhs, rhs_count),
        BufferBinding::raw(lhs_meta),
        BufferBinding::raw(rhs_meta),
    ];
    Dispatch {
        source: Source::Binary,
        entry_point,
        constants: vec![count, num_dims],
        srvs,
        uav: BufferBinding::structured_f32(output, count),
        groups: linear_groups(count),
    }
}

} // verus!
