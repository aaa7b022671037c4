use vstd::prelude::*;

verus! {

/// The smallest buffer the device allocates, in bytes.
pub const MIN_BUFFER_SIZE: u64 = 256;

/// The size in bytes of the buffer allocated for a request of `requested` bytes.
pub open spec fn spec_allocation_size(requested: u64) -> u64 {
    if requested < MIN_BUFFER_SIZE {
        MIN_BUFFER_SIZE
    } else {
        requested
    }
}

/// The size in bytes of the buffer allocated for a request of `requested` bytes: the
/// request, but at least the device's minimum buffer size.
pub fn allocation_size(requested: u64) -> (r: u64)
    ensures
        r == spec_allocation_size(requested),
        r >= requested,
        r >= MIN_BUFFER_SIZE,
{
    if requested < MIN_BUFFER_SIZE {
        MIN_BUFFER_SIZE
    } else {
        requested
    }
}

/// A GPU buffer in the device-local heap: the device resource and its size in bytes.
pub struct GpuBuffer<R> {
    pub resource: R,
    pub size_bytes: u64,
}

impl<R> GpuBuffer<R> {
    /// The buffer of `size_bytes` bytes that `resource` holds.
    pub fn new(resource: R, size_bytes: u64) -> (r: GpuBuffer<R>)
        ensures
            r.resource == resource,
            r.size_bytes == size_bytes,
    {
        GpuBuffer { resource, size_bytes }
    }

    pub fn size(&self) -> (r: u64)
        ensures
            r == self.size_bytes,
    {
        self.size_bytes
    }

    pub fn resource(&self) -> (r: &R)
        ensures
            *r == self.resource,
    {
        &self.resource
    }
}

/// The number of bytes that an upload of `data_len` bytes into `dst` writes: all of them;
/// `None` where they do not fit.
pub fn upload_size<R>(data_len: usize, dst: &GpuBuffer<R>) -> (r: Option<u64>)
    ensures
        r is Some <==> data_len <= dst.size_bytes,
        r matches Some(n) ==> n == data_len,
{
    let size = data_len as u64;
    if size <= dst.size_bytes {
        Some(size)
    } else {
        None
    }
}

/// The number of bytes that a download of `requested` bytes from `src` reads: the request,
/// but no more than the buffer holds.
pub fn download_size<R>(src: &GpuBuffer<R>, requested: u64) -> (r: u64)
    ensures
        r == if requested <= src.size_bytes {
            requested
        } else {
            src.size_bytes
        },
{
    if requested <= src.size_bytes {
        requested
    } else {
        src.size_bytes
    }
}

/// Describes how to bind a buffer as an SRV or UAV.
pub struct BufferBinding<'a, R> {
    pub buffer: &'a GpuBuffer<R>,
    /// Offset in elements from the start of the buffer.
    pub first_element: u32,
    pub num_elements: u32,
    /// Byte stride per element; 0 binds the buffer raw (ByteAddressBuffer).
    pub stride: u32,
}

/// The binding of `num_elements` elements of `stride` bytes from element `first_element`.
pub open spec fn binding<'a, R>(
    buffer: &'a GpuBuffer<R>,
    first_element: u32,
    num_elements: u32,
    stride: u32,
) -> BufferBinding<'a, R> {
    BufferBinding { buffer, first_element, num_elements, stride }
}

/// The raw binding of the whole of `buffer`, counted in 32-bit words.
pub open spec fn raw_binding<'a, R>(buffer: &'a GpuBuffer<R>) -> BufferBinding<'a, R> {
    binding(buffer, 0, (buffer.size_bytes / 4) as u32, 0)
}

impl<'a, R> BufferBinding<'a, R> {
    /// Bind as StructuredBuffer<float>: `count` elements of 4 bytes.
    pub fn structured_f32(buffer: &'a GpuBuffer<R>, count: u32) -> (r: Self)
        ensures
            r == binding(buffer, 0, count, 4),
    {
        BufferBinding { buffer, first_element: 0, num_elements: count, stride: 4 }
    }

    /// Bind as StructuredBuffer<float> from element `offset`.
    pub fn structured_f32_offset(buffer: &'a GpuBuffer<R>, offset: u32, count: u32) -> (r: Self)
        ensures
            r == binding(buffer, offset, count, 4),
    {
        BufferBinding { buffer, first_element: offset, num_elements: count, stride: 4 }
    }

    /// Bind as StructuredBuffer<uint>: `count` elements of 4 bytes.
    pub fn structured_u32(buffer: &'a GpuBuffer<R>, count: u32) -> (r: Self)
        ensures
            r == binding(buffer, 0, count, 4),
    {
        BufferBinding { buffer, first_element: 0, num_elements: count, stride: 4 }
    }

    /// Bind as StructuredBuffer<half> (2 bytes per element).
    pub fn structured_f16(buffer: &'a GpuBuffer<R>, count: u32) -> (r: Self)
        ensures
            r == binding(buffer, 0, count, 2),
    {
        BufferBinding { buffer, first_element: 0, num_elements: count, stride: 2 }
    }

    /// Bind with a custom stride (for arbitrary struct sizes).
    pub fn structured(buffer: &'a GpuBuffer<R>, count: u32, stride: u32) -> (r: Self)
        ensures
            r == binding(buffer, 0, count, stride),
    {
        BufferBinding { buffer, first_element: 0, num_elements: count, stride }
    }

    /// Bind the whole buffer raw (ByteAddressBuffer), counted in 32-bit words; the count is
    /// cut to 32 bits.
    pub fn raw(buffer: &'a GpuBuffer<R>) -> (r: Self)
        ensures
            r == raw_binding(buffer),
    {
        BufferBinding { buffer, first_element: 0, num_elements: (buffer.size_bytes / 4) as u32, stride: 0 }
    }

    /// Whether the buffer is bound raw.
    pub fn is_raw(&self) -> (r: bool)
        ensures
            r == (self.stride == 0),
    {
        self.stride == 0
    }
}

} // verus!
