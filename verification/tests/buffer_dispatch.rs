use candle_d3d12::buffer::{allocation_size, download_size, upload_size, BufferBinding, GpuBuffer};
use candle_d3d12::dispatch::{
    descriptor_offset, dispatch_descriptor_slots, root_parameters, uav_only_descriptor_slots,
    uav_table_offset, DescriptorSlot, RootParameter,
};

#[test]
fn allocation_has_a_minimum() {
    assert_eq!(allocation_size(0), 256);
    assert_eq!(allocation_size(16), 256);
    assert_eq!(allocation_size(256), 256);
    assert_eq!(allocation_size(1000), 1000);
}

#[test]
fn transfer_sizes() {
    let b = GpuBuffer::new((), 256);
    assert_eq!(b.size(), 256);
    assert_eq!(upload_size(100, &b), Some(100));
    assert_eq!(upload_size(256, &b), Some(256));
    assert_eq!(upload_size(257, &b), None);
    assert_eq!(download_size(&b, 16), 16);
    assert_eq!(download_size(&b, 1000), 256);
}

#[test]
fn binding_constructors() {
    let b = GpuBuffer::new(7u32, 1024);
    let s = BufferBinding::structured_f32(&b, 10);
    assert_eq!((s.first_element, s.num_elements, s.stride), (0, 10, 4));
    assert_eq!(*s.buffer.resource(), 7);
    let o = BufferBinding::structured_f32_offset(&b, 3, 5);
    assert_eq!((o.first_element, o.num_elements, o.stride), (3, 5, 4));
    let u = BufferBinding::structured_u32(&b, 2);
    assert_eq!((u.first_element, u.num_elements, u.stride), (0, 2, 4));
    let h = BufferBinding::structured_f16(&b, 8);
    assert_eq!((h.first_element, h.num_elements, h.stride), (0, 8, 2));
    let c = BufferBinding::structured(&b, 4, 12);
    assert_eq!((c.first_element, c.num_elements, c.stride), (0, 4, 12));
    let r = BufferBinding::raw(&b);
    assert_eq!((r.first_element, r.num_elements, r.stride), (0, 256, 0));
    assert!(r.is_raw());
    assert!(!s.is_raw());
}

#[test]
fn descriptor_slots_for_dispatch() {
    let slots = dispatch_descriptor_slots(2);
    assert_eq!(
        slots,
        vec![
            DescriptorSlot::Srv(0),
            DescriptorSlot::Srv(1),
            DescriptorSlot::NullSrv,
            DescriptorSlot::NullSrv,
            DescriptorSlot::Uav(0),
        ]
    );
    assert_eq!(dispatch_descriptor_slots(4)[3], DescriptorSlot::Srv(3));
}

#[test]
fn descriptor_slots_for_uav_only_dispatch() {
    let slots = uav_only_descriptor_slots(3);
    assert_eq!(slots.len(), 12);
    assert!(slots[..4].iter().all(|s| *s == DescriptorSlot::NullSrv));
    assert_eq!(&slots[4..7], &[DescriptorSlot::Uav(0), DescriptorSlot::Uav(1), DescriptorSlot::Uav(2)]);
    assert!(slots[7..].iter().all(|s| *s == DescriptorSlot::NullUav));
}

#[test]
fn descriptor_offsets() {
    assert_eq!(descriptor_offset(3, 32), 96);
    assert_eq!(uav_table_offset(32), 128);
}

#[test]
fn shared_root_signature() {
    assert_eq!(
        root_parameters(),
        vec![
            RootParameter::Constants { shader_register: 0, register_space: 0, num_values: 32 },
            RootParameter::SrvTable { base_register: 0, register_space: 0, num_descriptors: 4 },
            RootParameter::UavTable { base_register: 0, register_space: 0, num_descriptors: 8 },
        ]
    );
}
