use vstd::prelude::*;

use crate::buffer::{binding, raw_binding, BufferBinding, GpuBuffer};
use crate::dispatch::Dispatch;
use crate::source::Source;
use crate::utils::{linear_groups, spec_linear_groups, LINEAR_GROUP_SIZE};

verus! {

/// `r` is the dispatch of the f32 fill kernel with these arguments.
pub open spec fn is_fill_f32_dispatch<'a, R>(
    r: &Dispatch<'a, R>,
    count: u32,
    value_bits: u32,
    output: &'a GpuBuffer<R>,
) -> bool {
    &&& r.source == Source::Fill
    &&& r.entry_point@ == "fill_f32"@
    &&& r.constants@ == seq![count, value_bits]
    &&& r.srvs@ == Seq::<crate::buffer::BufferBinding<'a, R>>::empty()
    &&& r.uav == binding(output, 0, count, 4)
    &&& r.groups@ == spec_linear_groups(count)
    &&& r.fits_root_signature()
}

/// Fill `count` f32 elements of `output` with the value of bit pattern `value_bits`.
pub fn call_fill_f32<'a, R>(count: u32, value_bits: u32, output: &'a GpuBuffer<R>) -> (r: Dispatch<
    'a,
    R,
>)
    requires
        count + LINEAR_GROUP_SIZE <= u32::MAX,
    ensures
        is_fill_f32_dispatch(&r, count, value_bits, output),
{
    Dispatch {
        source: Source::Fill,
        entry_point: "fill_f32",
        constants: vec![count, value_bits],
        srvs: Vec::new(),
        uav: BufferBinding::structured_f32(output, count),
        groups: linear_groups(count),
    }
}

/// Fill `count` u32 elements of `output` with the f32 value of bit pattern `value_bits`,
/// converted on the device.
pub fn call_fill_u32<'a, R>(count: u32, value_bits: u32, output: &'a GpuBuffer<R>) -> (r: Dispatch<
    'a,
    R,
>)
    requires
        count + LINEAR_GROUP_SIZE <= u32::MAX,
    ensures
        r.source == Source::Fill,
        r.entry_point@ == "fill_u32"@,
        r.constants@ == seq![count, value_bits],
        r.srvs@ == Seq::<crate::buffer::BufferBinding<'a, R>>::empty(),
        r.uav == binding(output, 0, count, 4),
        r.groups@ == spec_linear_groups(count),
        r.fits_root_signature(),
{
    Dispatch {
        source: Source::Fill,
        entry_point: "fill_u32",
        constants: vec![count, value_bits],
        srvs: Vec::new(),
        uav: BufferBinding::structured_u32(output, count),
        groups: linear_groups(count),
    }
}

/// Fill `count` bytes of `output`, bound raw, with the f32 value of bit pattern
/// `value_bits`, converted on the device.
pub fn call_fill_u8<'a, R>(count: u32, value_bits: u32, output: &'a GpuBuffer<R>) -> (r: Dispatch<
    'a,
    R,
>)
    requires
        count + LINEAR_GROUP_SIZE <= u32::MAX,
    ensures
        r.source == Source::Fill,
        r.entry_point@ == "fill_u8"@,
        r.constants@ == seq![count, value_bits],
        r.srvs@ == Seq::<crate::buffer::BufferBinding<'a, R>>::empty(),
        r.uav == raw_binding(output),
        r.groups@ == spec_linear_groups(count),
        r.fits_root_signature(),
{
    Dispatch {
        source: Source::Fill,
        entry_point: "fill_u8",
        constants: vec![count, value_bits],
        srvs: Vec::new(),
        uav: BufferBinding::raw(output),
        groups: linear_groups(count),
    }
}

} // verus!
