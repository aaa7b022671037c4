use vstd::prelude::*;

use crate::text::str_eq;

verus! {

/// The GPU entry point of an elementwise unary operation, by the operation's kernel name.
pub open spec fn unary_entry(kernel: Seq<char>) -> Option<Seq<char>> {
    if kernel == "uneg"@ {
        Some("neg_f32"@)
    } else if kernel == "uabs"@ {
        Some("abs_f32"@)
    } else if kernel == "uexp"@ {
        Some("exp_f32"@)
    } else if kernel == "ulog"@ {
        Some("log_f32"@)
    } else if kernel == "usin"@ {
        Some("sin_f32"@)
    } else if kernel == "ucos"@ {
        Some("cos_f32"@)
    } else if kernel == "usqrt"@ {
        Some("sqrt_f32"@)
    } else if kernel == "usqr"@ {
        Some("sqr_f32"@)
    } else if kernel == "urecip"@ {
        Some("recip_f32"@)
    } else if kernel == "urelu"@ {
        Some("relu_f32"@)
    } else if kernel == "utanh"@ {
        Some("tanh_f32"@)
    } else if kernel == "ugelu"@ {
        Some("gelu_f32"@)
    } else if kernel == "ugelu_erf"@ {
        Some("gelu_erf_f32"@)
    } else if kernel == "usilu"@ {
        Some("silu_f32"@)
    } else if kernel == "uceil"@ {
        Some("ceil_f32"@)
    } else if kernel == "ufloor"@ {
        Some("floor_f32"@)
    } else if kernel == "uround"@ {
        Some("round_f32"@)
    } else {
        None
    }
}

/// The GPU entry point of an elementwise binary operation, by the operation's kernel name.
pub open spec fn binary_entry(kernel: Seq<char>) -> Option<Seq<char>> {
    if kernel == "badd"@ {
        Some("add_f32"@)
    } else if kernel == "bsub"@ {
        Some("sub_f32"@)
    } else if kernel == "bmul"@ {
        Some("mul_f32"@)
    } else if kernel == "bdiv"@ {
        Some("div_f32"@)
    } else if kernel == "bmaximum"@ {
        Some("max_f32"@)
    } else if kernel == "bminimum"@ {
        Some("min_f32"@)
    } else {
        None
    }
}

/// The GPU entry point of the unary operation `kernel`, if the GPU runs it.
pub fn unary_entry_point(kernel: &str) -> (r: Option<&'static str>)
    ensures
        r is Some <==> unary_entry(kernel@) is Some,
        r matches Some(e) ==> unary_entry(kernel@) == Some(e@),
{
    if str_eq(kernel, "uneg") {
        Some("neg_f32")
    } else if str_eq(kernel, "uabs") {
        Some("abs_f32")
    } else if str_eq(kernel, "uexp") {
        Some("exp_f32")
    } else if str_eq(kernel, "ulog") {
        Some("log_f32")
    } else if str_eq(kernel, "usin") {
        Some("sin_f32")
    } else if str_eq(kernel, "ucos") {
        Some("cos_f32")
    } else if str_eq(kernel, "usqrt") {
        Some("sqrt_f32")
    } else if str_eq(kernel, "usqr") {
        Some("sqr_f32")
    } else if str_eq(kernel, "urecip") {
        Some("recip_f32")
    } else if str_eq(kernel, "urelu") {
        Some("relu_f32")
    } else if str_eq(kernel, "utanh") {
        Some("tanh_f32")
    } else if str_eq(kernel, "ugelu") {
        Some("gelu_f32")
    } else if str_eq(kernel, "ugelu_erf") {
        Some("gelu_erf_f32")
    } else if str_eq(kernel, "usilu") {
        Some("silu_f32")
    } else if str_eq(kernel, "uceil") {
        Some("ceil_f32")
    } else if str_eq(kernel, "ufloor") {
        Some("floor_f32")
    } else if str_eq(kernel, "uround") {
        Some("round_f32")
    } else {
        None
    }
}

/// The GPU entry point of the binary operation `kernel`, if the GPU runs it.
pub fn binary_entry_point(kernel: &str) -> (r: Option<&'static str>)
    ensures
        r is Some <==> binary_entry(kernel@) is Some,
        r matches Some(e) ==> binary_entry(kernel@) == Some(e@),
{
    if str_eq(kernel, "badd") {
        Some("add_f32")
    } else if str_eq(kernel, "bsub") {
        Some("sub_f32")
    } else if str_eq(kernel, "bmul") {
        Some("mul_f32")
    } else if str_eq(kernel, "bdiv") {
        Some("div_f32")
    } else if str_eq(kernel, "bmaximum") {
        Some("max_f32")
    } else if str_eq(kernel, "bminimum") {
        Some("min_f32")
    } else {
        None
    }
}

} // verus!
