use vstd::prelude::*;

use crate::buffer::{binding, raw_binding, BufferBinding, GpuBuffer};
use crate::dispatch::Dispatch;
use crate::source::Source;
use crate::utils::{linear_groups, spec_linear_groups, LINEAR_GROUP_SIZE};

verus! {

/// Cast f32 -> u32.
pub fn call_cast_f32_to_u32<'a, R>(count: u32, input: &'a GpuBuffer<R>, output: &'a GpuBuffer<R>) -> (r:
    Dispatch<'a, R>)
    requires
        count + LINEAR_GROUP_SIZE <= u32::MAX,
    ensures
        r.source == Source::Cast,
        r.entry_point@ == "cast_f32_to_u32"@,
        r.constants@ == seq![count],
        r.srvs@ == seq![binding(input, 0, count, 4)],
        r.uav == binding(output, 0, count, 4),
        r.groups@ == spec_linear_groups(count),
        r.fits_root_signature(),
{
    Dispatch {
        source: Source::Cast,
        entry_point: "cast_f32_to_u32",
        constants: vec![count],
        srvs: vec![BufferBinding::structured_f32(input, count)],
        uav: BufferBinding::structured_u32(output, count),
        groups: linear_groups(count),
    }
}

/// Cast u32 -> f32.
pub fn call_cast_u32_to_f32<'a, R>(count: u32, input: &'a GpuBuffer<R>, output: &'a GpuBuffer<R>) -> (r:
    Dispatch<'a, R>)
    requires
        count + LINEAR_GROUP_SIZE <= u32::MAX,
    ensures
        r.source == Source::Cast,
        r.entry_point@ == "cast_u32_to_f32"@,
        r.constants@ == seq![count],
        r.srvs@ == seq![binding(input, 0, count, 4)],
        r.uav == binding(output, 0, count, 4),
        r.groups@ == spec_linear_groups(count),
        r.fits_root_signature(),
{
    Dispatch {
        source: Source::Cast,
        entry_point: "cast_u32_to_f32",
        constants: vec![count],
        srvs: vec![BufferBinding::structured_u32(input, count)],
        uav: BufferBinding::structured_f32(output, count),
        groups: linear_groups(count),
    }
}

/// Cast f64 -> f32 (the input is bound raw, for its 8-byte elements).
pub fn call_cast_f64_to_f32<'a, R>(count: u32, input: &'a GpuBuffer<R>, output: &'a GpuBuffer<R>) -> (r:
    Dispatch<'a, R>)
    requires
        count + LINEAR_GROUP_SIZE <= u32::MAX,
    ensures
        r.source == Source::Cast,
        r.entry_point@ == "cast_f64_to_f32"@,
        r.constants@ == seq![count],
        r.srvs@ == seq![raw_binding(input)],
        r.uav == binding(output, 0, count, 4),
        r.groups@ == spec_linear_groups(count),
        r.fits_root_signature(),
{
    Dispatch {
        source: Source::Cast,
        entry_point: "cast_f64_to_f32",
        constants: vec![count],
        srvs: vec![BufferBinding::raw(input)],
        uav: BufferBinding::structured_f32(output, count),
        groups: linear_groups(count),
    }
}

} // verus!
