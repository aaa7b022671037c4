use candle_d3d12::cpu_storage::{bytes_to_cpu_storage, cpu_storage_elem_count, cpu_storage_to_bytes, CpuStorage};
use candle_d3d12::dtype::DType;

fn same(a: &CpuStorage, b: &CpuStorage) -> bool {
    format!("{:?}", a) == format!("{:?}", b)
}

#[test]
fn bytes_of_each_type_are_little_endian() {
    assert_eq!(cpu_storage_to_bytes(&CpuStorage::U8(vec![1, 2, 255])), vec![1, 2, 255]);
    assert_eq!(
        cpu_storage_to_bytes(&CpuStorage::U32(vec![0x0403_0201, 7])),
        vec![1, 2, 3, 4, 7, 0, 0, 0]
    );
    assert_eq!(cpu_storage_to_bytes(&CpuStorage::I16(vec![-2, 0x0102])), vec![0xfe, 0xff, 2, 1]);
    assert_eq!(cpu_storage_to_bytes(&CpuStorage::I32(vec![-1])), vec![0xff; 4]);
    assert_eq!(
        cpu_storage_to_bytes(&CpuStorage::I64(vec![0x0102_0304_0506_0708])),
        vec![8, 7, 6, 5, 4, 3, 2, 1]
    );
    assert_eq!(cpu_storage_to_bytes(&CpuStorage::BF16(vec![0x3f80])), vec![0x80, 0x3f]);
    assert_eq!(cpu_storage_to_bytes(&CpuStorage::F16(vec![0x3c00])), vec![0x00, 0x3c]);
    assert_eq!(
        cpu_storage_to_bytes(&CpuStorage::F32(vec![1.0f32.to_bits()])),
        1.0f32.to_le_bytes().to_vec()
    );
    assert_eq!(
        cpu_storage_to_bytes(&CpuStorage::F64(vec![(-2.5f64).to_bits()])),
        (-2.5f64).to_le_bytes().to_vec()
    );
    assert_eq!(cpu_storage_to_bytes(&CpuStorage::F8E4M3(vec![1, 2])), Vec::<u8>::new());
}

#[test]
fn element_counts() {
    assert_eq!(cpu_storage_elem_count(&CpuStorage::U8(vec![1, 2, 3])), 3);
    assert_eq!(cpu_storage_elem_count(&CpuStorage::F64(vec![1, 2])), 2);
    assert_eq!(cpu_storage_elem_count(&CpuStorage::I16(vec![])), 0);
    assert_eq!(cpu_storage_elem_count(&CpuStorage::F8E4M3(vec![1, 2])), 0);
}

#[test]
fn decode_each_type() {
    let data: Vec<u8> = (1..=16).collect();
    let f = bytes_to_cpu_storage(&data, 2, DType::F32).unwrap();
    assert!(same(&f, &CpuStorage::F32(vec![0x0403_0201, 0x0807_0605])));
    let d = bytes_to_cpu_storage(&data, 2, DType::F64).unwrap();
    assert!(same(&d, &CpuStorage::F64(vec![0x0807_0605_0403_0201, 0x100f_0e0d_0c0b_0a09])));
    let u = bytes_to_cpu_storage(&data, 3, DType::U8).unwrap();
    assert!(same(&u, &CpuStorage::U8(vec![1, 2, 3])));
    let w = bytes_to_cpu_storage(&data, 1, DType::U32).unwrap();
    assert!(same(&w, &CpuStorage::U32(vec![0x0403_0201])));
    let s = bytes_to_cpu_storage(&[0xfe, 0xff], 1, DType::I16).unwrap();
    assert!(same(&s, &CpuStorage::I16(vec![-2])));
    let i = bytes_to_cpu_storage(&[0xff, 0xff, 0xff, 0xff], 1, DType::I32).unwrap();
    assert!(same(&i, &CpuStorage::I32(vec![-1])));
    let l = bytes_to_cpu_storage(&[0xff; 8], 1, DType::I64).unwrap();
    assert!(same(&l, &CpuStorage::I64(vec![-1])));
    let b = bytes_to_cpu_storage(&[0x80, 0x3f], 1, DType::BF16).unwrap();
    assert!(same(&b, &CpuStorage::BF16(vec![0x3f80])));
    let h = bytes_to_cpu_storage(&[0x00, 0x3c], 1, DType::F16).unwrap();
    assert!(same(&h, &CpuStorage::F16(vec![0x3c00])));
}

#[test]
fn decode_stops_at_whole_elements() {
    // Six bytes hold one whole f32; a request for three gives one.
    let f = bytes_to_cpu_storage(&[0, 0, 128, 63, 9, 9], 3, DType::F32).unwrap();
    assert!(same(&f, &CpuStorage::F32(vec![1.0f32.to_bits()])));
    // Fewer requested than held.
    let f = bytes_to_cpu_storage(&[0; 12], 1, DType::F32).unwrap();
    assert!(same(&f, &CpuStorage::F32(vec![0])));
    let f = bytes_to_cpu_storage(&[], 0, DType::F64).unwrap();
    assert!(same(&f, &CpuStorage::F64(vec![])));
}

#[test]
fn decode_unsupported_type_fails() {
    let e = bytes_to_cpu_storage(&[1, 2, 3], 3, DType::F8E4M3).unwrap_err();
    assert_eq!(e.text(), "D3D12 bytes_to_cpu_storage not implemented for F8E4M3");
}

#[test]
fn upload_then_download_round_trips() {
    let values = vec![
        CpuStorage::U8(vec![0, 1, 254, 255]),
        CpuStorage::U32(vec![0, 1, u32::MAX, 0x1234_5678]),
        CpuStorage::I16(vec![i16::MIN, -1, 0, i16::MAX]),
        CpuStorage::I32(vec![i32::MIN, -7, 7, i32::MAX]),
        CpuStorage::I64(vec![i64::MIN, -1, 1, i64::MAX]),
        CpuStorage::BF16(vec![0x3f80, 0xc000, 0x7f80]),
        CpuStorage::F16(vec![0x3c00, 0xbc00, 0x7c00]),
        CpuStorage::F32(vec![1.5f32.to_bits(), f32::NAN.to_bits(), (-0.0f32).to_bits()]),
        CpuStorage::F64(vec![std::f64::consts::PI.to_bits(), f64::INFINITY.to_bits()]),
    ];
    for s in values.iter() {
        let bytes = cpu_storage_to_bytes(s);
        let count = cpu_storage_elem_count(s);
        assert_eq!(bytes.len(), count * s.dtype().size_in_bytes());
        let back = bytes_to_cpu_storage(&bytes, count, s.dtype()).unwrap();
        assert!(same(&back, s));
    }
}
