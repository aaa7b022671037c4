use candle_d3d12::conv::ParamsConv1D;
use candle_d3d12::gpu::{adapter_name_len, bytes_lt, sdk_versions_newest_first};
use candle_d3d12::pipelines::{hlsl_cache_key, PipelineCache};
use candle_d3d12::source::Source;

#[test]
fn cache_gives_back_what_was_stored() {
    let mut c: PipelineCache<u32> = PipelineCache::new();
    assert_eq!(c.len(), 0);
    assert_eq!(c.get(Source::Unary, "neg_f32"), None);
    c.insert(Source::Unary, "neg_f32", 1);
    c.insert(Source::Binary, "neg_f32", 2);
    c.insert(Source::Unary, "exp_f32", 3);
    assert_eq!(c.get(Source::Unary, "neg_f32"), Some(&1));
    assert_eq!(c.get(Source::Binary, "neg_f32"), Some(&2));
    assert_eq!(c.get(Source::Unary, "exp_f32"), Some(&3));
    assert_eq!(c.len(), 3);
    c.insert(Source::Unary, "neg_f32", 9);
    assert_eq!(c.get(Source::Unary, "neg_f32"), Some(&9));
    assert_eq!(c.len(), 3);
    assert_eq!(c.get(Source::Matmul, "neg_f32"), None);
}

#[test]
fn adapter_names_stop_at_nul() {
    let desc: Vec<u16> = "GPU\0junk".encode_utf16().collect();
    assert_eq!(adapter_name_len(&desc), 3);
    let full: Vec<u16> = "abc".encode_utf16().collect();
    assert_eq!(adapter_name_len(&full), 3);
    assert_eq!(adapter_name_len(&[]), 0);
}

#[test]
fn byte_order() {
    assert!(bytes_lt(b"abc", b"abd"));
    assert!(bytes_lt(b"ab", b"abc"));
    assert!(!bytes_lt(b"abc", b"abc"));
    assert!(!bytes_lt(b"b", b"abc"));
}

#[test]
fn sdk_versions_newest_first_order() {
    let names: Vec<String> = ["10.0.19041.0", "arm64", "10.0.22621.0", "8.1", "10.0.17763.0", "10."]
        .iter()
        .map(|s| s.to_string())
        .collect();
    assert_eq!(sdk_versions_newest_first(&names), vec![2, 0, 4, 5]);
    assert_eq!(sdk_versions_newest_first(&[]), Vec::<usize>::new());
}

#[test]
fn sdk_versions_keep_equal_names_in_order() {
    let names: Vec<String> = ["10.1", "x", "10.2", "10.1", "10.2"].iter().map(|s| s.to_string()).collect();
    assert_eq!(sdk_versions_newest_first(&names), vec![2, 4, 0, 3]);
}

#[test]
fn conv1d_output_length() {
    let p = ParamsConv1D { b_size: 2, l_in: 10, c_out: 4, c_in: 3, k_size: 3, padding: 0, stride: 1, dilation: 1 };
    assert_eq!(p.l_out(), 8);
    let q = ParamsConv1D { padding: 1, stride: 2, ..p };
    assert_eq!(q.l_out(), 5);
    let r = ParamsConv1D { dilation: 2, ..p };
    assert_eq!(r.l_out(), 6);
}

#[test]
fn hlsl_keys_name_entry_and_hash() {
    assert_eq!(hlsl_cache_key("main", 255), "triton_main_ff");
    assert_eq!(hlsl_cache_key("k", 0), "triton_k_0");
    assert_eq!(hlsl_cache_key("kernel", 0x1234abcd), "triton_kernel_1234abcd");
    assert_eq!(hlsl_cache_key("", u64::MAX), "triton__ffffffffffffffff");
    assert_eq!(hlsl_cache_key("x", 16), format!("triton_x_{:x}", 16u64));
}

#[test]
fn hlsl_keys_tell_entry_and_hash_apart() {
    assert_ne!(hlsl_cache_key("a_1", 0x2), hlsl_cache_key("a", 0x12));
    assert_ne!(hlsl_cache_key("a", 0x12), hlsl_cache_key("a_", 0x12));
    assert_ne!(hlsl_cache_key("main", 1), hlsl_cache_key("main", 0x10));
    assert_eq!(hlsl_cache_key("main", 7), hlsl_cache_key("main", 7));
}
