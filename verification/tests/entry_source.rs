use candle_d3d12::entry::{binary_entry_point, unary_entry_point};
use candle_d3d12::source::Source;

#[test]
fn unary_entry_points() {
    let cases = [
        ("uneg", "neg_f32"),
        ("uabs", "abs_f32"),
        ("uexp", "exp_f32"),
        ("ulog", "log_f32"),
        ("usin", "sin_f32"),
        ("ucos", "cos_f32"),
        ("usqrt", "sqrt_f32"),
        ("usqr", "sqr_f32"),
        ("urecip", "recip_f32"),
        ("urelu", "relu_f32"),
        ("utanh", "tanh_f32"),
        ("ugelu", "gelu_f32"),
        ("ugelu_erf", "gelu_erf_f32"),
        ("usilu", "silu_f32"),
        ("uceil", "ceil_f32"),
        ("ufloor", "floor_f32"),
        ("uround", "round_f32"),
    ];
    for (kernel, entry) in cases.iter() {
        assert_eq!(unary_entry_point(kernel), Some(*entry));
        let op = entry.trim_end_matches("_f32");
        assert!(Source::Unary.hlsl_source().contains(&format!("UNARY_OP({},", op)));
    }
    assert_eq!(unary_entry_point("uerf"), None);
    assert_eq!(unary_entry_point(""), None);
    assert_eq!(unary_entry_point("neg"), None);
}

#[test]
fn binary_entry_points() {
    let cases = [
        ("badd", "add_f32"),
        ("bsub", "sub_f32"),
        ("bmul", "mul_f32"),
        ("bdiv", "div_f32"),
        ("bmaximum", "max_f32"),
        ("bminimum", "min_f32"),
    ];
    for (kernel, entry) in cases.iter() {
        assert_eq!(binary_entry_point(kernel), Some(*entry));
        let op = entry.trim_end_matches("_f32");
        assert!(Source::Binary.hlsl_source().contains(&format!("BINARY_OP({},", op)));
    }
    assert_eq!(binary_entry_point("bpow"), None);
}

#[test]
fn each_source_holds_its_entry_points() {
    let cases: [(Source, &[&str]); 10] = [
        (Source::Affine, &["affine_f32", "affine_f32_strided"]),
        (Source::Binary, &["BINARY_OP(add", "_f32_strided"]),
        (Source::Cast, &["cast_f32_to_u32", "cast_u32_to_f32", "cast_f64_to_f32"]),
        (Source::Conv, &["conv1d_f32"]),
        (Source::Fill, &["fill_f32", "fill_u32", "fill_u8"]),
        (Source::Indexing, &["index_select_f32", "gather_f32", "copy_strided_f32", "copy2d_f32"]),
        (Source::Matmul, &["matmul_f32"]),
        (Source::Reduce, &["sum_f32", "mean_f32", "max_f32", "min_f32", "argmax_f32", "argmin_f32", "softmax_f32"]),
        (Source::Ternary, &["where_f32"]),
        (Source::Unary, &["UNARY_OP(copy", "UNARY_OP(neg"]),
    ];
    for (source, entries) in cases.iter() {
        let text = source.hlsl_source();
        for e in entries.iter() {
            assert!(text.contains(e), "{:?} lacks {}", source, e);
        }
        assert!(text.contains("register(b0)"));
        assert!(text.contains("register(u0)"));
    }
}
