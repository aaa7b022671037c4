use vstd::prelude::*;

use crate::buffer::BufferBinding;
use crate::source::Source;

verus! {

/// Root constants available to every kernel (register b0).
pub const MAX_ROOT_CONSTANTS: u32 = 32;

/// Shader resource views available to every kernel (t0..t3).
pub const MAX_SRVS: u32 = 4;

/// Unordered access views available to every kernel (u0..u7).
pub const MAX_UAVS: u32 = 8;

/// Descriptors in the shader-visible heap: the SRV slots, then the UAV slots.
pub const DESCRIPTOR_COUNT: u32 = 12;

/// One synchronous compute dispatch: the kernel, its root constants, the buffers it reads
/// (t0, t1, ..), the buffer it writes (u0), and the thread-group counts.
pub struct Dispatch<'a, R> {
    pub source: Source,
    pub entry_point: &'a str,
    pub constants: Vec<u32>,
    pub srvs: Vec<BufferBinding<'a, R>>,
    pub uav: BufferBinding<'a, R>,
    pub groups: [u32; 3],
}

impl<'a, R> Dispatch<'a, R> {
    /// The dispatch binds no more root constants and input views than the shared root
    /// signature offers.
    pub open spec fn fits_root_signature(&self) -> bool {
        &&& self.constants@.len() <= MAX_ROOT_CONSTANTS
        &&& self.srvs@.len() <= MAX_SRVS
    }
}

/// A parameter of the root signature that every compute pipeline shares.
#[derive(Debug, Clone, Copy, PartialEq, Eq, Structural)]
pub enum RootParameter {
    /// 32-bit constants at register `shader_register`.
    Constants { shader_register: u32, register_space: u32, num_values: u32 },
    /// A table of shader resource views from register `base_register`.
    SrvTable { base_register: u32, register_space: u32, num_descriptors: u32 },
    /// A table of unordered access views from register `base_register`.
    UavTable { base_register: u32, register_space: u32, num_descriptors: u32 },
}

/// The shared root signature: parameter 0 holds the root constants (b0), parameter 1 the SRV
/// table (t0..t3), parameter 2 the UAV table (u0..u7).
pub open spec fn spec_root_parameters() -> Seq<RootParameter> {
    seq![
        RootParameter::Constants {
            shader_register: 0,
            register_space: 0,
            num_values: MAX_ROOT_CONSTANTS,
        },
        RootParameter::SrvTable { base_register: 0, register_space: 0, num_descriptors: MAX_SRVS },
        RootParameter::UavTable { base_register: 0, register_space: 0, num_descriptors: MAX_UAVS },
    ]
}

/// The parameters of the root signature that every compute pipeline shares.
pub fn root_parameters() -> (r: Vec<RootParameter>)
    ensures
        r@ == spec_root_parameters(),
{
    let mut r: Vec<RootParameter> = Vec::new();
    r.push(
        RootParameter::Constants {
            shader_register: 0,
            register_space: 0,
            num_values: MAX_ROOT_CONSTANTS,
        },
    );
    r.push(RootParameter::SrvTable { base_register: 0, register_space: 0, num_descriptors: MAX_SRVS });
    r.push(RootParameter::UavTable { base_register: 0, register_space: 0, num_descriptors: MAX_UAVS });
    assert(r@ =~= spec_root_parameters());
    r
}

/// What a slot of the descriptor heap holds for a dispatch.
#[derive(Debug, Clone, Copy, PartialEq, Eq, Structural)]
pub enum DescriptorSlot {
    /// A view of the dispatch's `i`-th input binding.
    Srv(usize),
    /// An empty shader resource view.
    NullSrv,
    /// A view of the dispatch's `i`-th output binding.
    Uav(usize),
    /// An empty unordered access view.
    NullUav,
}

/// The descriptor slots of a dispatch with `num_srvs` inputs and one output: input `i` in
/// slot `i`, empty views in the other SRV slots, the output in the first UAV slot.
pub fn dispatch_descriptor_slots(num_srvs: usize) -> (r: Vec<DescriptorSlot>)
    requires
        num_srvs <= MAX_SRVS,
    ensures
        r@.len() == MAX_SRVS + 1,
        forall|i: int| 0 <= i < num_srvs ==> #[trigger] r@[i] == DescriptorSlot::Srv(i as usize),
        forall|i: int| num_srvs <= i < MAX_SRVS ==> #[trigger] r@[i] == DescriptorSlot::NullSrv,
        r@[MAX_SRVS as int] == DescriptorSlot::Uav(0),
{
    let mut r: Vec<DescriptorSlot> = Vec::new();
    let mut i: usize = 0;
    while i < MAX_SRVS as usize
        invariant
            i <= MAX_SRVS,
            num_srvs <= MAX_SRVS,
            r@.len() == i,
            forall|j: int| 0 <= j < i && j < num_srvs ==> #[trigger] r@[j] == DescriptorSlot::Srv(
                j as usize,
            ),
            forall|j: int| num_srvs <= j < i ==> #[trigger] r@[j] == DescriptorSlot::NullSrv,
        decreases MAX_SRVS - i,
    {
        if i < num_srvs {
            r.push(DescriptorSlot::Srv(i));
        } else {
            r.push(DescriptorSlot::NullSrv);
        }
        i += 1;
    }
    r.push(DescriptorSlot::Uav(0));
    r
}

/// The descriptor slots of a dispatch that binds only `num_uavs` outputs: empty views in
/// every SRV slot, output `i` in UAV slot `i`, empty views in the other UAV slots.
pub fn uav_only_descriptor_slots(num_uavs: usize) -> (r: Vec<DescriptorSlot>)
    requires
        num_uavs <= MAX_UAVS,
    ensures
        r@.len() == DESCRIPTOR_COUNT,
        forall|i: int| 0 <= i < MAX_SRVS ==> #[trigger] r@[i] == DescriptorSlot::NullSrv,
        forall|i: int|
            0 <= i < num_uavs ==> #[trigger] r@[MAX_SRVS + i] == DescriptorSlot::Uav(i as usize),
        forall|i: int| num_uavs <= i < MAX_UAVS ==> #[trigger] r@[MAX_SRVS + i] == DescriptorSlot::NullUav,
{
    let mut r: Vec<DescriptorSlot> = Vec::new();
    let mut i: usize = 0;
    while i < MAX_SRVS as usize
        invariant
            i <= MAX_SRVS,
            r@.len() == i,
            forall|j: int| 0 <= j < i ==> #[trigger] r@[j] == DescriptorSlot::NullSrv,
        decreases MAX_SRVS - i,
    {
        r.push(DescriptorSlot::NullSrv);
        i += 1;
    }
    let mut k: usize = 0;
    while k < MAX_UAVS as usize
        invariant
            k <= MAX_UAVS,
            num_uavs <= MAX_UAVS,
            r@.len() == MAX_SRVS + k,
            forall|j: int| 0 <= j < MAX_SRVS ==> #[trigger] r@[j] == DescriptorSlot::NullSrv,
            forall|j: int|
                0 <= j < k && j < num_uavs ==> #[trigger] r@[MAX_SRVS + j] == DescriptorSlot::Uav(
                    j as usize,
                ),
            forall|j: int| num_uavs <= j < k ==> #[trigger] r@[MAX_SRVS + j] == DescriptorSlot::NullUav,
        decreases MAX_UAVS - k,
    {
        if k < num_uavs {
            r.push(DescriptorSlot::Uav(k));
        } else {
            r.push(DescriptorSlot::NullUav);
        }
        k += 1;
    }
    r
}

/// The byte offset of descriptor slot `slot` from the start of the heap, for descriptors of
/// `increment` bytes.
pub fn descriptor_offset(slot: u32, increment: u32) -> (r: usize)
    requires
        slot * increment <= u32::MAX,
    ensures
        r == slot * increment,
{
    (slot * increment) as usize
}

/// The offset of the UAV table from the start of the heap on the GPU, for descriptors of
/// `increment` bytes.
pub fn uav_table_offset(increment: u32) -> (r: u64)
    ensures
        r == MAX_SRVS * increment,
{
    assert(MAX_SRVS * increment <= 4 * u32::MAX);
    (MAX_SRVS as u64) * (increment as u64)
}

} // verus!
