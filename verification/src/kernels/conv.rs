use vstd::prelude::*;

use crate::buffer::{binding, raw_binding, BufferBinding, GpuBuffer};
use crate::dispatch::Dispatch;
use crate::source::Source;
use crate::utils::{linear_groups, spec_linear_groups, LINEAR_GROUP_SIZE};

verus! {

/// `r` is the dispatch of the 1D convolution kernel with these arguments.
pub open spec fn is_conv1d_dispatch<'a, R>(
    r: &Dispatch<'a, R>,
    batch_size: u32,
    c_in: u32,
    c_out: u32,
    l_in: u32,
    l_out: u32,
    k_size: u32,
    stride: u32,
    padding: u32,
    dilation: u32,
    input: &'a GpuBuffer<R>,
    input_count: u32,
    kernel_buf: &'a GpuBuffer<R>,
    kernel_count: u32,
    output: &'a GpuBuffer<R>,
) -> bool {
    &&& r.source == Source::Conv
    &&& r.entry_point@ == "conv1d_f32"@
    &&& r.constants@ == seq![
        batch_size,
        c_in,
        c_out,
        l_in,
        l_out,
        k_size,
        stride,
        padding,
        dilation,
    ]
    &&& r.srvs@ == seq![binding(input, 0, input_count, 4), binding(kernel_buf, 0, kernel_count, 4)]
    &&& r.uav == binding(output, 0, (batch_size * c_out * l_out) as u32, 4)
    &&& r.groups@ == spec_linear_groups((batch_size * c_out * l_out) as u32)
    &&& r.fits_root_signature()
}

/// 1D convolution of `input` (batch, c_in, l_in) with `kernel_buf` (c_out, c_in, k_size)
/// into `output` (batch, c_out, l_out).
pub fn call_conv1d<'a, R>(
    batch_size: u32,
    c_in: u32,
    c_out: u32,
    l_in: u32,
    l_out: u32,
    k_size: u32,
    stride: u32,
    padding: u32,
    dilation: u32,
    input: &'a GpuBuffer<R>,
    input_count: u32,
    kernel_buf: &'a GpuBuffer<R>,
    kernel_count: u32,
    output: &'a GpuBuffer<R>,
) -> (r: Dispatch<'a, R>)
    requires
        batch_size * c_out <= u32::MAX,
        batch_size * c_out * l_out + LINEAR_GROUP_SIZE <= u32::MAX,
    ensures
        is_conv1d_dispatch(
            &r,
            batch_size,
            c_in,
            c_out,
            l_in,
            l_out,
            k_size,
            stride,
            padding,
            dilation,
            input,
            input_count,
            kernel_buf,
            kernel_count,
            output,
        ),
{
    let constants = vec![batch_size, c_in, c_out, l_in, l_out, k_size, stride, padding, dilation];
    let srvs = vec![
        BufferBinding::structured_f32(input, input_count),
        BufferBinding::structured_f32(kernel_buf, kernel_count),
    ];
    let total_out = batch_size * c_out * l_out;
    Dispatch {
        source: Source::Conv,
        entry_point: "conv1d_f32",
        constants,
        srvs,
        uav: BufferBinding::structured_f32(output, total_out),
        groups: linear_groups(total_out),
    }
}

} // verus!
