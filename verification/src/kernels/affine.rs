use vstd::prelude::*;

use crate::buffer::{binding, raw_binding, BufferBinding, GpuBuffer};
use crate::dispatch::Dispatch;
use crate::source::Source;
use crate::utils::{linear_groups, spec_linear_groups, LINEAR_GROUP_SIZE};

verus! {

/// Contiguous affine: output[i] = input[i] * mul + add, with `mul` and `add` given by their
/// f32 bit patterns.
pub fn call_affine<'a, R>(
    count: u32,
    input: &'a GpuBuffer<R>,
    output: &'a GpuBuffer<R>,
    mul_bits: u32,
    add_bits: u32,
) -> (r: Dispatch<'a, R>)
    requires
        count + LINEAR_GROUP_SIZE <= u32::MAX,
    ensures
        r.source == Source::Affine,
        r.entry_point@ == "affine_f32"@,
        r.constants@ == seq![count, mul_bits, add_bits],
        r.srvs@ == seq![binding(input, 0, count, 4)],
        r.uav == binding(output, 0, count, 4),
        r.groups@ == spec_linear_groups(count),
        r.fits_root_signature(),
{
    let constants = vec![count, mul_bits, add_bits];
    let srvs = vec![BufferBinding::structured_f32(input, count)];
    let uav = BufferBinding::structured_f32(output, count);
    Dispatch {
        source: Source::Affine,
        entry_point: "affine_f32",
        constants,
        srvs,
        uav,
        groups: linear_groups(count),
    }
}

/// Strided affine: output[i] = input[strided(i)] * mul + add, where `meta_buffer` holds the
/// input's dims then strides as u32 words.
pub fn call_affine_strided<'a, R>(
    count: u32,
    num_dims: u32,
    input: &'a GpuBuffer<R>,
    input_count: u32,
    meta_buffer: &'a GpuBuffer<R>,
    output: &'a GpuBuffer<R>,
    mul_bits: u32,
    add_bits: u32,
) -> (r: Dispatch<'a, R>)
    requires
        count + LINEAR_GROUP_SIZE <= u32::MAX,
    ensures
        r.source == Source::Affine,
        r.entry_point@ == "affine_f32_strided"@,
        r.constants@ == seq![count, mul_bits, add_bits, num_dims],
        r.srvs@ == seq![binding(input, 0, input_count, 4), raw_binding(meta_buffer)],
        r.uav == binding(output, 0, count, 4),
        r.groups@ == spec_linear_groups(count),
        r.fits_root_signature(),
{
    let constants = vec![count, mul_bits, add_bits, num_dims];
    let srvs = vec![
        BufferBinding::structured_f32(input, input_count),
        BufferBinding::raw(meta_buffer),
    ];
    let uav = BufferBinding::structured_f32(output, count);
    Dispatch {
        source: Source::Affine,
        entry_point: "affine_f32_strided",
        constants,
        srvs,
        uav,
        groups: linear_groups(count),
    }
}

} // verus!
