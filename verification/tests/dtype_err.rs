use candle_d3d12::dtype::DType;
use candle_d3d12::err::{d3d12_err, D3D12Error, D3D12KernelError};

#[test]
fn sizes_in_bytes() {
    assert_eq!(DType::U8.size_in_bytes(), 1);
    assert_eq!(DType::U32.size_in_bytes(), 4);
    assert_eq!(DType::I16.size_in_bytes(), 2);
    assert_eq!(DType::I32.size_in_bytes(), 4);
    assert_eq!(DType::I64.size_in_bytes(), 8);
    assert_eq!(DType::BF16.size_in_bytes(), 2);
    assert_eq!(DType::F16.size_in_bytes(), 2);
    assert_eq!(DType::F32.size_in_bytes(), 4);
    assert_eq!(DType::F64.size_in_bytes(), 8);
    assert_eq!(DType::F8E4M3.size_in_bytes(), 1);
    assert_eq!(DType::F64.bytes_for(3), 24);
    assert_eq!(DType::BF16.bytes_for(0), 0);
}

#[test]
fn names() {
    assert_eq!(DType::F32.name(), "F32");
    assert_eq!(DType::F8E4M3.name(), "F8E4M3");
    assert_eq!(DType::BF16.name(), "BF16");
}

#[test]
fn kernel_error_messages() {
    let cases = [
        (D3D12KernelError::DeviceCreation("x".to_string()), "Device creation failed: x"),
        (D3D12KernelError::BufferError("y".to_string()), "Buffer operation failed: y"),
        (D3D12KernelError::PipelineCreation("z".to_string()), "Pipeline creation failed: z"),
        (D3D12KernelError::ShaderCompilation("w".to_string()), "Shader compilation failed: w"),
        (D3D12KernelError::Dispatch("d".to_string()), "Dispatch failed: d"),
        (D3D12KernelError::DataTransfer("t".to_string()), "Data transfer failed: t"),
    ];
    for (e, text) in cases.iter() {
        assert_eq!(e.message(), *text);
        assert_eq!(d3d12_err(e).text(), *text);
    }
}

#[test]
fn storage_error_from_string() {
    let e: D3D12Error = D3D12Error::from("boom".to_string());
    assert_eq!(e.text(), "boom");
    match e {
        D3D12Error::Message(m) => assert_eq!(m, "boom"),
    }
}
