use vstd::prelude::*;

use crate::buffer::{binding, BufferBinding, GpuBuffer};
use crate::dispatch::Dispatch;
use crate::source::Source;
use crate::utils::{linear_groups, spec_linear_groups, LINEAR_GROUP_SIZE};

verus! {

/// Where conditional: output[i] = cond[i] ? true_val[i] : false_val[i], with the u8
/// conditions packed four to a u32 word.
pub fn call_where_cond<'a, R>(
    count: u32,
    cond: &'a GpuBuffer<R>,
    cond_u32_count: u32,
    true_val: &'a GpuBuffer<R>,
    false_val: &'a GpuBuffer<R>,
    output: &'a GpuBuffer<R>,
) -> (r: Dispatch<'a, R>)
    requires
        count + LINEAR_GROUP_SIZE <= u32::MAX,
    ensures
        r.source == Source::Ternary,
        r.entry_point@ == "where_f32"@,
        r.constants@ == seq![count],
        r.srvs@ == seq![
            binding(cond, 0, cond_u32_count, 4),
            binding(true_val, 0, count, 4),
            binding(false_val, 0, count, 4),
        ],
        r.uav == binding(output, 0, count, 4),
        r.groups@ == spec_linear_groups(count),
        r.fits_root_signature(),
{
    let srvs = vec![
        BufferBinding::structured_u32(cond, cond_u32_count),
        BufferBinding::structured_f32(true_val, count),
        BufferBinding::structured_f32(false_val, count),
    ];
    Dispatch {
        source: Source::Ternary,
        entry_point: "where_f32",
        constants: vec![count],
        srvs,
        uav: BufferBinding::structured_f32(output, count),
        groups: linear_groups(count),
    }
}

} // verus!
