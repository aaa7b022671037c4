use vstd::prelude::*;

use crate::buffer::{binding, raw_binding, BufferBinding, GpuBuffer};
use crate::dispatch::Dispatch;
use crate::source::Source;
use crate::utils::{linear_groups, spec_linear_groups, LINEAR_GROUP_SIZE};

verus! {

/// Dispatch a contiguous unary kernel ("copy_f32", "neg_f32", "exp_f32", ..), reading
/// `input` and writing `output`.
pub fn call_unary_contiguous<'a, R>(
    entry_point: &'a str,
    count: u32,
    input: &'a GpuBuffer<R>,
    output: &'a GpuBuffer<R>,
) -> (r: Dispatch<'a, R>)
    requires
        count + LINEAR_GROUP_SIZE <= u32::MAX,
    ensures
        r.source == Source::Unary,
        r.entry_point == entry_point,
        r.constants@ == seq![count],
        r.srvs@ == seq![binding(input, 0, count, 4)],
        r.uav == binding(output, 0, count, 4),
        r.groups@ == spec_linear_groups(count),
        r.fits_root_signature(),
{
    Dispatch {
        source: Source::Unary,
        entry_point,
        constants: vec![count],
        srvs: vec![BufferBinding::structured_f32(input, count)],
        uav: BufferBinding::structured_f32(output, count),
        groups: linear_groups(count),
    }
}

/// Dispatch a strided unary kernel ("copy_f32_strided", ..); `meta_buffer` holds packed
/// dims[] then strides[] as u32 words.
pub fn call_unary_strided<'a, R>(
    entry_point: &'a str,
    count: u32,
    num_dims: u32,
    input: &'a GpuBuffer<R>,
    input_count: u32,
    meta_buffer: &'a GpuBuffer<R>,
    output: &'a GpuBuffer<R>,
) -> (r: Dispatch<'a, R>)
    requires
        count + LINEAR_GROUP_SIZE <= u32::MAX,
    ensures
        r.source == Source::Unary,
        r.entry_point == entry_point,
        r.constants@ == seq![count, num_dims],
        r.srvs@ == seq![binding(input, 0, input_count, 4), raw_binding(meta_buffer)],
        r.uav == binding(output, 0, count, 4),
        r.groups@ == spec_linear_groups(count),
        r.fits_root_signature(),
{
    let srvs = vec![
        BufferBinding::structured_f32(input, input_count),
        BufferBinding::raw(meta_buffer),
    ];
    Dispatch {
        source: Source::Unary,
        entry_point,
        constants: vec![count, num_dims],
        srvs,
        uav: BufferBinding::structured_f32(output, count),
        groups: linear_groups(count),
    }
}

} // verus!
