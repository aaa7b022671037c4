use vstd::prelude::*;
use vstd::string::StringExecFns;

use crate::buffer::spec_allocation_size;
use crate::dtype::DType;
use crate::err::D3D12Error;
use crate::le::{decode_all, decode_seq, encode_all, encode_seq, lemma_decode_encode, lemma_encode_seq, LeBytes};

verus! {

/// Host-side tensor data, one vector per element type. Floating-point elements are held
/// by their bit patterns: `BF16` and `F16` as `u16`, `F32` as `u32`, `F64` as `u64`.
#[derive(Debug, Clone)]
pub enum CpuStorage {
    U8(Vec<u8>),
    U32(Vec<u32>),
    I16(Vec<i16>),
    I32(Vec<i32>),
    I64(Vec<i64>),
    BF16(Vec<u16>),
    F16(Vec<u16>),
    F32(Vec<u32>),
    F64(Vec<u64>),
    F8E4M3(Vec<u8>),
}

/// The contents of a `CpuStorage`.
pub enum CpuValues {
    U8(Seq<u8>),
    U32(Seq<u32>),
    I16(Seq<i16>),
    I32(Seq<i32>),
    I64(Seq<i64>),
    BF16(Seq<u16>),
    F16(Seq<u16>),
    F32(Seq<u32>),
    F64(Seq<u64>),
    F8E4M3(Seq<u8>),
}

impl View for CpuStorage {
    type V = CpuValues;

    open spec fn view(&self) -> CpuValues {
        match self {
            CpuStorage::U8(v) => CpuValues::U8(v@),
            CpuStorage::U32(v) => CpuValues::U32(v@),
            CpuStorage::I16(v) => CpuValues::I16(v@),
            CpuStorage::I32(v) => CpuValues::I32(v@),
            CpuStorage::I64(v) => CpuValues::I64(v@),
            CpuStorage::BF16(v) => CpuValues::BF16(v@),
            CpuStorage::F16(v) => CpuValues::F16(v@),
            CpuStorage::F32(v) => CpuValues::F32(v@),
            CpuStorage::F64(v) => CpuValues::F64(v@),
            CpuStorage::F8E4M3(v) => CpuValues::F8E4M3(v@),
        }
    }
}

impl CpuValues {
    pub open spec fn dtype(self) -> DType {
        match self {
            CpuValues::U8(_) => DType::U8,
            CpuValues::U32(_) => DType::U32,
            CpuValues::I16(_) => DType::I16,
            CpuValues::I32(_) => DType::I32,
            CpuValues::I64(_) => DType::I64,
            CpuValues::BF16(_) => DType::BF16,
            CpuValues::F16(_) => DType::F16,
            CpuValues::F32(_) => DType::F32,
            CpuValues::F64(_) => DType::F64,
            CpuValues::F8E4M3(_) => DType::F8E4M3,
        }
    }

    /// The number of elements that the backend transfers: none for a type it does not move.
    pub open spec fn transfer_len(self) -> nat {
        match self {
            CpuValues::U8(v) => v.len(),
            CpuValues::U32(v) => v.len(),
            CpuValues::I16(v) => v.len(),
            CpuValues::I32(v) => v.len(),
            CpuValues::I64(v) => v.len(),
            CpuValues::BF16(v) => v.len(),
            CpuValues::F16(v) => v.len(),
            CpuValues::F32(v) => v.len(),
            CpuValues::F64(v) => v.len(),
            CpuValues::F8E4M3(_) => 0,
        }
    }

    /// The bytes that the backend uploads: every element little-endian, one after the other;
    /// nothing for a type it does not move.
    pub open spec fn transfer_bytes(self) -> Seq<u8> {
        match self {
            CpuValues::U8(v) => encode_seq(v),
            CpuValues::U32(v) => encode_seq(v),
            CpuValues::I16(v) => encode_seq(v),
            CpuValues::I32(v) => encode_seq(v),
            CpuValues::I64(v) => encode_seq(v),
            CpuValues::BF16(v) => encode_seq(v),
            CpuValues::F16(v) => encode_seq(v),
            CpuValues::F32(v) => encode_seq(v),
            CpuValues::F64(v) => encode_seq(v),
            CpuValues::F8E4M3(_) => Seq::empty(),
        }
    }
}

/// The storage that `count` elements of `dtype` read from `data` make: for `U8` the first
/// `count` bytes, for the wider types the first `count` whole elements, or as many as `data`
/// holds.
pub open spec fn decoded_values(data: Seq<u8>, count: nat, dtype: DType) -> CpuValues {
    match dtype {
        DType::U8 => CpuValues::U8(data.subrange(0, count as int)),
        DType::U32 => CpuValues::U32(decode_seq::<u32>(data, count)),
        DType::I16 => CpuValues::I16(decode_seq::<i16>(data, count)),
        DType::I32 => CpuValues::I32(decode_seq::<i32>(data, count)),
        DType::I64 => CpuValues::I64(decode_seq::<i64>(data, count)),
        DType::BF16 => CpuValues::BF16(decode_seq::<u16>(data, count)),
        DType::F16 => CpuValues::F16(decode_seq::<u16>(data, count)),
        DType::F32 => CpuValues::F32(decode_seq::<u32>(data, count)),
        DType::F64 => CpuValues::F64(decode_seq::<u64>(data, count)),
        DType::F8E4M3 => CpuValues::F8E4M3(Seq::empty()),
    }
}

/// The text of the error for a type that the backend does not move.
pub open spec fn untransferable_message(dtype: DType) -> Seq<char> {
    "D3D12 bytes_to_cpu_storage not implemented for "@ + dtype.spec_name()
}

impl CpuStorage {
    pub fn dtype(&self) -> (r: DType)
        ensures
            r == self@.dtype(),
    {
        match self {
            CpuStorage::U8(_) => DType::U8,
            CpuStorage::U32(_) => DType::U32,
            CpuStorage::I16(_) => DType::I16,
            CpuStorage::I32(_) => DType::I32,
            CpuStorage::I64(_) => DType::I64,
            CpuStorage::BF16(_) => DType::BF16,
            CpuStorage::F16(_) => DType::F16,
            CpuStorage::F32(_) => DType::F32,
            CpuStorage::F64(_) => DType::F64,
            CpuStorage::F8E4M3(_) => DType::F8E4M3,
        }
    }
}

/// The bytes to upload for `storage`: its elements little-endian, one after the other.
pub fn cpu_storage_to_bytes(storage: &CpuStorage) -> (r: Vec<u8>)
    ensures
        r@ == storage@.transfer_bytes(),
{
    match storage {
        CpuStorage::U8(v) => encode_all(v.as_slice()),
        CpuStorage::U32(v) => encode_all(v.as_slice()),
        CpuStorage::I16(v) => encode_all(v.as_slice()),
        CpuStorage::I32(v) => encode_all(v.as_slice()),
        CpuStorage::I64(v) => encode_all(v.as_slice()),
        CpuStorage::BF16(v) => encode_all(v.as_slice()),
        CpuStorage::F16(v) => encode_all(v.as_slice()),
        CpuStorage::F32(v) => encode_all(v.as_slice()),
        CpuStorage::F64(v) => encode_all(v.as_slice()),
        CpuStorage::F8E4M3(_) => Vec::new(),
    }
}

/// The number of elements to upload for `storage`.
pub fn cpu_storage_elem_count(storage: &CpuStorage) -> (r: usize)
    ensures
        r == storage@.transfer_len(),
{
    match storage {
        CpuStorage::U8(v) => v.len(),
        CpuStorage::U32(v) => v.len(),
        CpuStorage::I16(v) => v.len(),
        CpuStorage::I32(v) => v.len(),
        CpuStorage::I64(v) => v.len(),
        CpuStorage::BF16(v) => v.len(),
        CpuStorage::F16(v) => v.len(),
        CpuStorage::F32(v) => v.len(),
        CpuStorage::F64(v) => v.len(),
        CpuStorage::F8E4M3(_) => 0,
    }
}

proof fn lemma_decode_bytes(data: Seq<u8>, count: nat)
    requires
        count <= data.len(),
    ensures
        decode_seq::<u8>(data, count) == data.subrange(0, count as int),
{
    let d = decode_seq::<u8>(data, count);
    assert forall|j: int| 0 <= j < count implies #[trigger] d[j] == data[j] by {
        assert(j * 1 == j);
        assert(data.subrange(j, j + 1)[0] == data[j]);
    }
    assert(d =~= data.subrange(0, count as int));
}

/// Reads `count` elements of `dtype` from downloaded bytes.
pub fn bytes_to_cpu_storage(data: &[u8], count: usize, dtype: DType) -> (r: Result<
    CpuStorage,
    D3D12Error,
>)
    requires
        dtype == DType::U8 ==> count <= data@.len(),
    ensures
        r is Ok <==> dtype.is_transferable(),
        r matches Ok(s) ==> s@ == decoded_values(data@, count as nat, dtype),
        r matches Err(e) ==> e.spec_text() == untransferable_message(dtype),
{
    match dtype {
        DType::F32 => Ok(CpuStorage::F32(decode_all(data, count))),
        DType::F64 => Ok(CpuStorage::F64(decode_all(data, count))),
        DType::U8 => {
            proof {
                lemma_decode_bytes(data@, count as nat);
            }
            Ok(CpuStorage::U8(decode_all(data, count)))
        },
        DType::U32 => Ok(CpuStorage::U32(decode_all(data, count))),
        DType::I16 => Ok(CpuStorage::I16(decode_all(data, count))),
        DType::I32 => Ok(CpuStorage::I32(decode_all(data, count))),
        DType::I64 => Ok(CpuStorage::I64(decode_all(data, count))),
        DType::BF16 => Ok(CpuStorage::BF16(decode_all(data, count))),
        DType::F16 => Ok(CpuStorage::F16(decode_all(data, count))),
        DType::F8E4M3 => {
            let msg = String::from_str("D3D12 bytes_to_cpu_storage not implemented for ").concat(
                dtype.name(),
            );
            Err(D3D12Error::Message(msg))
        },
    }
}

proof fn lemma_values_roundtrip<T: LeBytes>(v: Seq<T>)
    ensures
        decode_seq::<T>(encode_seq(v), v.len()) == v,
        encode_seq(v).len() == v.len() * T::width(),
{
    lemma_decode_encode(v);
    lemma_encode_seq(v);
}

/// Uploading host data and reading the same number of elements of the same type back from
/// the uploaded bytes gives the data back; the upload holds exactly
/// `elements * size_in_bytes` bytes.
pub proof fn lemma_transfer_roundtrip(s: CpuValues)
    requires
        s.dtype().is_transferable(),
    ensures
        decoded_values(s.transfer_bytes(), s.transfer_len(), s.dtype()) == s,
        s.transfer_bytes().len() == s.transfer_len() * s.dtype().spec_size_in_bytes(),
{
    match s {
        CpuValues::U8(v) => {
            lemma_values_roundtrip(v);
            lemma_decode_bytes(encode_seq(v), v.len());
        },
        CpuValues::U32(v) => lemma_values_roundtrip(v),
        CpuValues::I16(v) => lemma_values_roundtrip(v),
        CpuValues::I32(v) => lemma_values_roundtrip(v),
        CpuValues::I64(v) => lemma_values_roundtrip(v),
        CpuValues::BF16(v) => lemma_values_roundtrip(v),
        CpuValues::F16(v) => lemma_values_roundtrip(v),
        CpuValues::F32(v) => lemma_values_roundtrip(v),
        CpuValues::F64(v) => lemma_values_roundtrip(v),
        CpuValues::F8E4M3(_) => {},
    }
}

/// Storage made from host data holds all of its bytes: the buffer allocated for the upload is
/// at least as large as the upload, and reading the storage back asks for exactly the
/// uploaded bytes, `elements * size_in_bytes`.
pub proof fn lemma_upload_fits_download(s: CpuValues)
    requires
        s.dtype().is_transferable(),
        s.transfer_bytes().len() <= u64::MAX,
    ensures
        s.transfer_bytes().len() <= spec_allocation_size(s.transfer_bytes().len() as u64),
        s.transfer_len() * s.dtype().spec_size_in_bytes() == s.transfer_bytes().len(),
{
    lemma_transfer_roundtrip(s);
}

} // verus!
