use vstd::prelude::*;

use crate::buffer::{binding, BufferBinding, GpuBuffer};
use crate::dispatch::Dispatch;
use crate::source::Source;


verus! {

/// `r` is the dispatch of the reduction kernel `entry_point` with these arguments.
pub open spec fn is_reduce_dispatch<'a, R>(
    r: &Dispatch<'a, R>,
    entry_point: &'a str,
    total_length: u32,
    out_length: u32,
    input: &'a GpuBuffer<R>,
    output: &'a GpuBuffer<R>,
) -> bool {
    &&& r.source == Source::Reduce
    &&& r.entry_point == entry_point
    &&& r.constants@ == seq![total_length, out_length, total_length / out_length, 0u32]
    &&& r.srvs@ == seq![binding(input, 0, total_length, 4)]
    &&& r.uav == binding(output, 0, out_length, 4)
    &&& r.groups@ == seq![out_length, 1u32, 1u32]
    &&& r.fits_root_signature()
}

/// Reduction dispatch (sum_f32, mean_f32, max_f32, min_f32): `out_length` thread groups, each
/// reducing `total_length / out_length` consecutive elements.
pub fn call_reduce<'a, R>(
    entry_point: &'a str,
    total_length: u32,
    out_length: u32,
    input: &'a GpuBuffer<R>,
    output: &'a GpuBuffer<R>,
) -> (r: Dispatch<'a, R>)
    requires
        out_length > 0,
    ensures
        is_reduce_dispatch(&r, entry_point, total_length, out_length, input, output),
{
    let work_per_group = total_length / out_length;
    let r = Dispatch {
        source: Source::Reduce,
        entry_point,
        constants: vec![total_length, out_length, work_per_group, 0],
        srvs: vec![BufferBinding::structured_f32(input, total_length)],
        uav: BufferBinding::structured_f32(output, out_length),
        groups: [out_length, 1, 1],
    };
    assert(r.constants@ =~= seq![total_length, out_length, total_length / out_length, 0u32]);
    assert(r.srvs@ =~= seq![binding(input, 0, total_length, 4)]);
    assert(r.groups@ =~= seq![out_length, 1u32, 1u32]);
    r

}

/// `r` is the dispatch of the arg-reduction kernel `entry_point` with these arguments.
pub open spec fn is_arg_reduce_dispatch<'a, R>(
    r: &Dispatch<'a, R>,
    entry_point: &'a str,
    total_length: u32,
    out_length: u32,
    input: &'a GpuBuffer<R>,
    output: &'a GpuBuffer<R>,
) -> bool {
    &&& r.source == Source::Reduce
    &&& r.entry_point == entry_point
    &&& r.constants@ == seq![total_length, out_length, total_length / out_length, 0u32]
    &&& r.srvs@ == seq![binding(input, 0, total_length, 4)]
    &&& r.uav == binding(output, 0, out_length, 4)
    &&& r.groups@ == seq![out_length, 1u32, 1u32]
    &&& r.fits_root_signature()
}

/// Argmax/argmin dispatch; the output holds u32 indices.
pub fn call_arg_reduce<'a, R>(
    entry_point: &'a str,
    total_length: u32,
    out_length: u32,
    input: &'a GpuBuffer<R>,
    output: &'a GpuBuffer<R>,
) -> (r: Dispatch<'a, R>)
    requires
        out_length > 0,
    ensures
        is_arg_reduce_dispatch(&r, entry_point, total_length, out_length, input, output),
{
    let work_per_group = total_length / out_length;
    let r = Dispatch {
        source: Source::Reduce,
        entry_point,
        constants: vec![total_length, out_length, work_per_group, 0],
        srvs: vec![BufferBinding::structured_f32(input, total_length)],
        uav: BufferBinding::structured_u32(output, out_length),
        groups: [out_length, 1, 1],
    };
    assert(r.constants@ =~= seq![total_length, out_length, total_length / out_length, 0u32]);
    assert(r.srvs@ =~= seq![binding(input, 0, total_length, 4)]);
    assert(r.groups@ =~= seq![out_length, 1u32, 1u32]);
    r

}

/// Softmax over the last dimension; each thread group handles one row of `row_size` elements.
pub fn call_softmax<'a, R>(
    row_size: u32,
    num_rows: u32,
    input: &'a GpuBuffer<R>,
    output: &'a GpuBuffer<R>,
) -> (r: Dispatch<'a, R>)
    requires
        row_size * num_rows <= u32::MAX,
    ensures
        r.source == Source::Reduce,
        r.entry_point@ == "softmax_f32"@,
        r.constants@ == seq![row_size, num_rows],
        r.srvs@ == seq![binding(input, 0, (row_size * num_rows) as u32, 4)],
        r.uav == binding(output, 0, (row_size * num_rows) as u32, 4),
        r.groups@ == seq![num_rows, 1u32, 1u32],
        r.fits_root_signature(),
{
    let total = row_size * num_rows;
    Dispatch {
        source: Source::Reduce,
        entry_point: "softmax_f32",
        constants: vec![row_size, num_rows],
        srvs: vec![BufferBinding::structured_f32(input, total)],
        uav: BufferBinding::structured_f32(output, total),
        groups: [num_rows, 1, 1],
    }
}

} // verus!
