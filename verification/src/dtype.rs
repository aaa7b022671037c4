use vstd::prelude::*;

verus! {

/// Element types of tensor storage.
#[derive(Clone, Copy, Debug, PartialEq, Eq, Structural, Hash)]
pub enum DType {
    U8,
    U32,
    I16,
    I32,
    I64,
    BF16,
    F16,
    F32,
    F64,
    F8E4M3,
}

impl DType {
    pub open spec fn spec_size_in_bytes(self) -> nat {
        match self {
            DType::U8 => 1,
            DType::U32 => 4,
            DType::I16 => 2,
            DType::I32 => 4,
            DType::I64 => 8,
            DType::BF16 => 2,
            DType::F16 => 2,
            DType::F32 => 4,
            DType::F64 => 8,
            DType::F8E4M3 => 1,
        }
    }

    /// Bytes per element.
    pub fn size_in_bytes(&self) -> (r: usize)
        ensures
            r == self.spec_size_in_bytes(),
            1 <= r <= 8,
    {
        match self {
            DType::U8 => 1,
            DType::U32 => 4,
            DType::I16 => 2,
            DType::I32 => 4,
            DType::I64 => 8,
            DType::BF16 => 2,
            DType::F16 => 2,
            DType::F32 => 4,
            DType::F64 => 8,
            DType::F8E4M3 => 1,
        }
    }

    /// The number of bytes that `count` elements take.
    pub fn bytes_for(&self, count: usize) -> (r: u64)
        requires
            count * self.spec_size_in_bytes() <= usize::MAX,
        ensures
            r == count * self.spec_size_in_bytes(),
    {
        (count * self.size_in_bytes()) as u64
    }

    pub open spec fn spec_name(self) -> Seq<char> {
        match self {
            DType::U8 => "U8"@,
            DType::U32 => "U32"@,
            DType::I16 => "I16"@,
            DType::I32 => "I32"@,
            DType::I64 => "I64"@,
            DType::BF16 => "BF16"@,
            DType::F16 => "F16"@,
            DType::F32 => "F32"@,
            DType::F64 => "F64"@,
            DType::F8E4M3 => "F8E4M3"@,
        }
    }

    /// The variant's name, as the type prints it in messages.
    pub fn name(&self) -> (r: &'static str)
        ensures
            r@ == self.spec_name(),
    {
        match self {
            DType::U8 => "U8",
            DType::U32 => "U32",
            DType::I16 => "I16",
            DType::I32 => "I32",
            DType::I64 => "I64",
            DType::BF16 => "BF16",
            DType::F16 => "F16",
            DType::F32 => "F32",
            DType::F64 => "F64",
            DType::F8E4M3 => "F8E4M3",
        }
    }

    /// Element types whose storage the backend moves between host and device.
    pub open spec fn is_transferable(self) -> bool {
        self != DType::F8E4M3
    }
}

} // verus!
