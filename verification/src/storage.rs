use vstd::prelude::*;
use std::sync::Arc;

use crate::buffer::{binding, raw_binding, BufferBinding, GpuBuffer};
use crate::dispatch::Dispatch;
use crate::dtype::DType;
use crate::entry::{binary_entry, binary_entry_point, unary_entry, unary_entry_point};
use crate::conv::ParamsConv1D;
use crate::err::D3D12Error;
use crate::kernels::conv::{call_conv1d, is_conv1d_dispatch};
use crate::kernels::fill::{call_fill_f32, is_fill_f32_dispatch};
use crate::kernels::indexing::{call_copy2d, call_index_select, is_copy2d_dispatch, is_index_select_dispatch};
use crate::kernels::matmul::matmul_constants;
use crate::kernels::reduce::{call_arg_reduce, call_reduce, is_arg_reduce_dispatch, is_reduce_dispatch};
use crate::layout::{
    layout_meta_bytes, lemma_product_extend_right, lemma_product_remove, lemma_product_split,
    meta_words, prefix_product, product, products_fit, suffix_product, Layout,
};
use crate::layout::{lemma_strided_offset_rank2, lemma_strided_offset_rank3, strided_offset};
use crate::reduce::{is_trailing, is_trailing_reduction, ReduceOp};
use crate::utils::{matmul_groups, spec_matmul_groups, COPY2D_TILE, MATMUL_TILE};
use vstd::string::StringExecFns;
use crate::le::encode_seq;
use crate::source::Source;
use crate::utils::{linear_groups, spec_linear_groups, LINEAR_GROUP_SIZE};

verus! {

/// Tensor storage on the device: `count` elements of `dtype` in a GPU buffer.
pub struct D3D12Storage<D, R> {
    pub device: D,
    pub buffer: Arc<GpuBuffer<R>>,
    pub count: usize,
    pub dtype: DType,
}

/// Where an operation runs: on the host, by way of a download and an upload, or on the
/// device, as the payload describes.
pub enum Route<T> {
    Host,
    Device(T),
}

/// How to obtain the elements of a layout as contiguous f32 data from the start of a buffer.
pub enum ContiguousPlan {
    /// The elements already lie that way in the storage's buffer.
    Reuse { elem_count: usize },
    /// Copy `size_bytes` bytes from byte `src_offset_bytes` of the storage's buffer to the
    /// start of a new buffer.
    CopyRegion { elem_count: usize, src_offset_bytes: u64, size_bytes: u64 },
    /// Gather the elements into a new buffer of `size_bytes` bytes with the strided-copy
    /// kernel, which reads the layout description `meta` from a buffer of its own.
    Gather { elem_count: usize, size_bytes: u64, meta: Vec<u8> },
}

impl ContiguousPlan {
    /// The number of elements the plan yields.
    pub open spec fn spec_elem_count(&self) -> usize {
        match self {
            ContiguousPlan::Reuse { elem_count } => *elem_count,
            ContiguousPlan::CopyRegion { elem_count, .. } => *elem_count,
            ContiguousPlan::Gather { elem_count, .. } => *elem_count,
        }
    }
}

/// The plan that `contiguous_f32_plan` makes for a layout, read from a buffer of `dtype`
/// elements.
pub open spec fn spec_contiguous_plan(layout: &Layout, dtype: DType, plan: &ContiguousPlan) -> bool {
    let n = layout.spec_elem_count();
    if layout.spec_is_contiguous() && layout.start_offset == 0 {
        plan == ContiguousPlan::Reuse { elem_count: n as usize }
    } else if layout.spec_is_contiguous() {
        plan == ContiguousPlan::CopyRegion {
            elem_count: n as usize,
            src_offset_bytes: (layout.start_offset * dtype.spec_size_in_bytes()) as u64,
            size_bytes: (n * 4) as u64,
        }
    } else {
        &&& plan matches ContiguousPlan::Gather { elem_count, size_bytes, meta }
        &&& elem_count == n
        &&& size_bytes == (n * 4) as u64
        &&& meta@ == encode_seq(meta_words(layout.dims@, layout.stride@))
    }
}

/// Sizes that the contiguous f32 view of `layout` computes fit their types.
pub open spec fn contiguous_sizes_fit(layout: &Layout, dtype: DType) -> bool {
    &&& layout.wf()
    &&& layout.spec_elem_count() * 4 <= usize::MAX
    &&& layout.start_offset * dtype.spec_size_in_bytes() <= usize::MAX
}

/// An elementwise operation on the device: the contiguous f32 input, the number of elements,
/// and the size of the output buffer.
pub struct ElementwisePlan {
    pub input: ContiguousPlan,
    pub elem_count: usize,
    pub output_bytes: u64,
}

/// A unary operation on the device: its kernel entry point and its elementwise plan.
pub struct UnaryPlan {
    pub entry_point: &'static str,
    pub input: ContiguousPlan,
    pub elem_count: usize,
    pub output_bytes: u64,
}

/// A binary operation on the device: its kernel entry point, the contiguous f32 inputs, the
/// number of elements, and the size of the output buffer.
pub struct BinaryPlan {
    pub entry_point: &'static str,
    pub lhs: ContiguousPlan,
    pub rhs: ContiguousPlan,
    pub elem_count: usize,
    pub output_bytes: u64,
}

/// How to clone the elements of a layout into storage of their own.
pub enum ClonePlan {
    /// Copy the first `size_bytes` bytes of the buffer into a new buffer of `count` elements.
    Copy { size_bytes: u64, count: usize },
    /// The new buffer that the plan for a contiguous f32 view makes.
    Contiguous(ContiguousPlan),
    /// Round trip through the host.
    Host,
}

/// A reduction on the device: its kernel entry point, the contiguous f32 input, the number of
/// input and output elements, the output type, and the size of the output buffer.
pub struct ReducePlan {
    pub entry_point: &'static str,
    pub input: ContiguousPlan,
    pub total: usize,
    pub out_length: usize,
    pub out_dtype: DType,
    pub output_bytes: u64,
}

/// The sizes of the axes that a reduction runs over, in the order given.
pub open spec fn reduced_dims(dims: Seq<usize>, sum_dims: Seq<usize>) -> Seq<usize> {
    sum_dims.map_values(|d: usize| dims[d as int])
}

proof fn lemma_reduced_dims_interval(dims: Seq<usize>, u: Seq<usize>, k: int, r: int)
    requires
        u.no_duplicates(),
        0 <= k <= r <= dims.len(),
        r <= usize::MAX,
        forall|x: usize| #[trigger] u.contains(x) <==> k <= x < r,
    ensures
        product(reduced_dims(dims, u)) == product(dims.subrange(k, r)),
    decreases r - k,
{
    if k == r {
        if u.len() > 0 {
            assert(u.contains(u[0]));
        }
        assert(reduced_dims(dims, u) =~= Seq::<usize>::empty());
        assert(dims.subrange(k, r) =~= Seq::<usize>::empty());
    } else {
        let top = (r - 1) as usize;
        assert(k <= top < r);
        assert(u.contains(top));
        let j = choose|j: int| 0 <= j < u.len() && u[j] == top;
        let v = u.remove(j);
        assert(v.no_duplicates()) by {
            assert forall|a: int, b: int| 0 <= a < v.len() && 0 <= b < v.len() && a != b implies v[a]
                != v[b] by {
                let a2 = if a < j { a } else { a + 1 };
                let b2 = if b < j { b } else { b + 1 };
                assert(v[a] == u[a2] && v[b] == u[b2]);
            }
        }
        assert forall|x: usize| #[trigger] v.contains(x) <==> k <= x < r - 1 by {
            if v.contains(x) {
                let i = choose|i: int| 0 <= i < v.len() && v[i] == x;
                let i2 = if i < j { i } else { i + 1 };
                assert(u[i2] == x);
                assert(u.contains(x));
                assert(i2 != j);
            }
            if k <= x < r - 1 {
                assert(u.contains(x));
                let i = choose|i: int| 0 <= i < u.len() && u[i] == x;
                assert(x != top);
                assert(i != j);
                if i < j {
                    assert(v[i] == x);
                } else {
                    assert(v[i - 1] == x);
                }
            }
        }
        lemma_reduced_dims_interval(dims, v, k, r - 1);
        let w = reduced_dims(dims, u);
        assert(w.remove(j) =~= reduced_dims(dims, v));
        lemma_product_remove(w, j);
        lemma_product_extend_right(dims, k, r - 1);
        let x = dims[r - 1] as int;
        let p = product(reduced_dims(dims, v));
        assert(x * p == p * x) by (nonlinear_arith);
    }
}

/// A reduction over distinct trailing axes splits the elements exactly: the product of the
/// reduced axes times the product of the kept axes is the element count, so each output
/// element reduces the same number of inputs and the outputs number the kept positions.
pub proof fn lemma_reduce_out_length(layout: &Layout, sum_dims: Seq<usize>)
    requires
        layout.wf(),
        layout.dims@.len() <= usize::MAX,
        is_trailing(layout.dims@.len(), sum_dims),
        sum_dims.to_set().len() <= layout.dims@.len(),
        sum_dims.no_duplicates(),
    ensures
        ({
            let rank = layout.dims@.len() as int;
            let kept = product(layout.dims@.subrange(0, rank - sum_dims.len()));
            let reduced = product(reduced_dims(layout.dims@, sum_dims));
            &&& kept * reduced == layout.spec_elem_count()
            &&& reduced > 0 ==> layout.spec_elem_count() / reduced == kept
        }),
{
    let dims = layout.dims@;
    let rank = dims.len() as int;
    sum_dims.unique_seq_to_set();
    let n = sum_dims.len() as int;
    let k = rank - n;
    lemma_reduced_dims_interval(dims, sum_dims, k, rank);
    lemma_product_split(dims, k);
    let kept = product(dims.subrange(0, k));
    let reduced = product(reduced_dims(dims, sum_dims));
    if reduced > 0 {
        assert((kept * reduced) / reduced == kept) by (nonlinear_arith)
            requires
                reduced > 0,
        ;
    }
}

/// The entry point of a reduction over f32 data.
pub open spec fn reduce_entry(op: ReduceOp) -> Seq<char> {
    match op {
        ReduceOp::ArgMax => "argmax_f32"@,
        ReduceOp::ArgMin => "argmin_f32"@,
        ReduceOp::Sum => "sum_f32"@,
        ReduceOp::Min => "min_f32"@,
        ReduceOp::Max => "max_f32"@,
    }
}

/// Each reduction runs the kernel named for what it computes (the sum kernel for a sum, the
/// maximum kernel for a maximum, ..), and distinct reductions run distinct kernels.
pub proof fn lemma_reduce_entries(op: ReduceOp, other: ReduceOp)
    ensures
        op == ReduceOp::Sum <==> reduce_entry(op) == "sum_f32"@,
        op == ReduceOp::Min <==> reduce_entry(op) == "min_f32"@,
        op == ReduceOp::Max <==> reduce_entry(op) == "max_f32"@,
        op == ReduceOp::ArgMin <==> reduce_entry(op) == "argmin_f32"@,
        op == ReduceOp::ArgMax <==> reduce_entry(op) == "argmax_f32"@,
        reduce_entry(op) == reduce_entry(other) ==> op == other,
{
    reveal_strlit("sum_f32");
    reveal_strlit("min_f32");
    reveal_strlit("max_f32");
    reveal_strlit("argmin_f32");
    reveal_strlit("argmax_f32");
    assert("sum_f32"@[1] != "min_f32"@[1]);
    assert("sum_f32"@[1] != "max_f32"@[1]);
    assert("min_f32"@[1] != "max_f32"@[1]);
    assert("argmin_f32"@[4] != "argmax_f32"@[4]);
    assert("sum_f32"@.len() != "argmin_f32"@.len());
}

/// A reduction runs on the device for f32 storage, over trailing axes of contiguous data.
pub open spec fn reduce_on_device(dtype: DType, layout: &Layout, sum_dims: Seq<usize>) -> bool {
    &&& dtype == DType::F32
    &&& is_trailing(layout.dims@.len(), sum_dims)
    &&& layout.spec_is_contiguous()
}

/// A 1D convolution on the device: the output length, the number of output elements, and
/// the size of the output buffer.
pub struct Conv1dPlan {
    pub l_out: usize,
    pub out_count: usize,
    pub output_bytes: u64,
}

/// An index select on the device: the product of the axes before `dim`, the size of `dim`,
/// the product of the axes after it, the number of indices, the number of output elements,
/// and the size of the output buffer.
pub struct IndexSelectPlan {
    pub left_size: usize,
    pub dim_size: usize,
    pub right_size: usize,
    pub ids_count: usize,
    pub out_count: usize,
    pub output_bytes: u64,
}

/// How to copy the elements of a layout into another storage on the device.
pub enum CopyPlan {
    /// Copy `size_bytes` bytes from byte `src_offset_bytes` of the source buffer to byte
    /// `dst_offset_bytes` of the destination buffer.
    Region { src_offset_bytes: u64, dst_offset_bytes: u64, size_bytes: u64 },
    /// Run the strided-copy kernel, which reads the layout description `meta` from a buffer
    /// of its own.
    Gather { meta: Vec<u8> },
}

/// The (batch, row, inner) strides of the left operand of a matmul, by the rank of its
/// layout: its own strides for rank 3; a batch stride of `m * k` before them for rank 2;
/// row-major strides otherwise.
pub open spec fn lhs_matmul_strides(s: Seq<usize>, m: usize, k: usize) -> (int, int, int) {
    if s.len() == 3 {
        (s[0] as int, s[1] as int, s[2] as int)
    } else if s.len() == 2 {
        (m * k, s[0] as int, s[1] as int)
    } else {
        (m * k, k as int, 1)
    }
}

/// The (batch, inner, column) strides of the right operand of a matmul, by the rank of its
/// layout: its own strides for rank 3; a batch stride of `k * n` before them for rank 2;
/// row-major strides otherwise.
pub open spec fn rhs_matmul_strides(s: Seq<usize>, k: usize, n: usize) -> (int, int, int) {
    if s.len() == 3 {
        (s[0] as int, s[1] as int, s[2] as int)
    } else if s.len() == 2 {
        (k * n, s[0] as int, s[1] as int)
    } else {
        (k * n, n as int, 1)
    }
}

/// The matmul kernel reads element `(bi, mi, ki)` of the left operand at
/// `bi * sb + mi * sm + ki * sk`, with `(sb, sm, sk)` the strides `lhs_matmul_strides` gives
/// it. For a left operand of rank 3, and of rank 2 in its one batch, that is exactly where the
/// operand's layout puts the element, so the kernel multiplies the operand as it is laid out.
pub proof fn lemma_matmul_lhs_reads_layout(
    dims: Seq<usize>,
    stride: Seq<usize>,
    m: usize,
    k: usize,
    bi: nat,
    mi: nat,
    ki: nat,
)
    requires
        dims.len() == stride.len(),
    ensures
        ({
            let (sb, sm, sk) = lhs_matmul_strides(stride, m, k);
            &&& (dims.len() == 3 && bi < dims[0] && mi < dims[1] && ki < dims[2]) ==> bi * sb + mi
                * sm + ki * sk == strided_offset(dims, stride, ((bi * dims[1] + mi) * dims[2] + ki) as nat)
            &&& (dims.len() == 2 && mi < dims[0] && ki < dims[1]) ==> mi * sm + ki * sk
                == strided_offset(dims, stride, (mi * dims[1] + ki) as nat)
        }),
{
    if dims.len() == 3 && bi < dims[0] && mi < dims[1] && ki < dims[2] {
        lemma_strided_offset_rank3(dims, stride, bi, mi, ki);
    }
    if dims.len() == 2 && mi < dims[0] && ki < dims[1] {
        lemma_strided_offset_rank2(dims, stride, mi, ki);
    }
}

/// The matmul kernel reads element `(bi, ki, ni)` of the right operand at
/// `bi * sb + ki * sk + ni * sn`, with `(sb, sk, sn)` the strides `rhs_matmul_strides` gives
/// it. For a right operand of rank 3, and of rank 2 in its one batch, that is exactly where the
/// operand's layout puts the element: the kernel reads B as it is laid out, not transposed.
pub proof fn lemma_matmul_rhs_reads_layout(
    dims: Seq<usize>,
    stride: Seq<usize>,
    k: usize,
    n: usize,
    bi: nat,
    ki: nat,
    ni: nat,
)
    requires
        dims.len() == stride.len(),
    ensures
        ({
            let (sb, sk, sn) = rhs_matmul_strides(stride, k, n);
            &&& (dims.len() == 3 && bi < dims[0] && ki < dims[1] && ni < dims[2]) ==> bi * sb + ki
                * sk + ni * sn == strided_offset(dims, stride, ((bi * dims[1] + ki) * dims[2] + ni) as nat)
            &&& (dims.len() == 2 && ki < dims[0] && ni < dims[1]) ==> ki * sk + ni * sn
                == strided_offset(dims, stride, (ki * dims[1] + ni) as nat)
        }),
{
    if dims.len() == 3 && bi < dims[0] && ki < dims[1] && ni < dims[2] {
        lemma_strided_offset_rank3(dims, stride, bi, ki, ni);
    }
    if dims.len() == 2 && ki < dims[0] && ni < dims[1] {
        lemma_strided_offset_rank2(dims, stride, ki, ni);
    }
}

/// The strides of a matmul operand fit in a `usize`.
pub open spec fn matmul_strides_fit(s: Seq<usize>, a: usize, b: usize) -> bool {
    s.len() != 3 ==> a * b <= usize::MAX
}

/// The number of elements after `offset` in a storage of `count`, cut to 32 bits.
pub open spec fn remaining(count: usize, offset: usize) -> u32 {
    (if count >= offset {
        count - offset
    } else {
        0
    }) as u32
}

/// The text of the error for a matmul of a type other than f32.
pub open spec fn matmul_dtype_message(dtype: DType) -> Seq<char> {
    "D3D12 matmul only supports F32, got "@ + dtype.spec_name()
}

/// The text of the error for filling a layout that is not contiguous.
pub open spec fn const_set_message() -> Seq<char> {
    "D3D12 const_set only supports contiguous layouts"@
}

/// The reduction dispatch of a device plan of `reduce_route`, from `input` into `output`,
/// with the sizes cut to 32 bits: the arg kernels for u32 output, the value kernels otherwise.
pub fn reduce_dispatch<'a, R>(
    plan: &'a ReducePlan,
    input: &'a GpuBuffer<R>,
    output: &'a GpuBuffer<R>,
) -> (r: Dispatch<'a, R>)
    requires
        (plan.out_length as u32) > 0,
    ensures
        plan.out_dtype == DType::U32 ==> is_arg_reduce_dispatch(
            &r,
            plan.entry_point,
            plan.total as u32,
            plan.out_length as u32,
            input,
            output,
        ),
        plan.out_dtype != DType::U32 ==> is_reduce_dispatch(
            &r,
            plan.entry_point,
            plan.total as u32,
            plan.out_length as u32,
            input,
            output,
        ),
{
    if plan.out_dtype == DType::U32 {
        call_arg_reduce(plan.entry_point, plan.total as u32, plan.out_length as u32, input, output)
    } else {
        call_reduce(plan.entry_point, plan.total as u32, plan.out_length as u32, input, output)
    }
}

impl<D, R> D3D12Storage<D, R> {
    /// The storage of `count` elements of `dtype` in `buffer`.
    pub fn new(device: D, buffer: Arc<GpuBuffer<R>>, count: usize, dtype: DType) -> (r: Self)
        ensures
            r.device == device,
            r.buffer == buffer,
            r.count == count,
            r.dtype == dtype,
    {
        D3D12Storage { device, buffer, count, dtype }
    }

    /// New storage on the same device: `count` elements of `dtype` in `buffer`.
    pub fn new_storage(&self, buffer: GpuBuffer<R>, count: usize, dtype: DType) -> (r: Self) where
        D: Clone,
        ensures
            *r.buffer == buffer,
            r.count == count,
            r.dtype == dtype,
    {
        D3D12Storage { device: self.device.clone(), buffer: Arc::new(buffer), count, dtype }
    }

    /// Access the underlying GPU buffer.
    pub fn buffer(&self) -> (r: &GpuBuffer<R>)
        ensures
            *r == *self.buffer,
    {
        &self.buffer
    }

    /// Access the underlying GPU buffer as an Arc.
    pub fn buffer_arc(&self) -> (r: &Arc<GpuBuffer<R>>)
        ensures
            *r == self.buffer,
    {
        &self.buffer
    }

    /// Number of elements in this storage.
    pub fn elem_count(&self) -> (r: usize)
        ensures
            r == self.count,
    {
        self.count
    }

    pub fn dtype(&self) -> (r: DType)
        ensures
            r == self.dtype,
    {
        self.dtype
    }

    pub fn device(&self) -> (r: &D)
        ensures
            *r == self.device,
    {
        &self.device
    }

    /// The number of bytes that reading the storage back to the host downloads.
    pub fn download_size_bytes(&self) -> (r: u64)
        requires
            self.count * self.dtype.spec_size_in_bytes() <= usize::MAX,
        ensures
            r == self.count * self.dtype.spec_size_in_bytes(),
    {
        (self.count * self.dtype.size_in_bytes()) as u64
    }

    /// How to get the elements of `layout` as contiguous f32 data: the buffer itself where
    /// they lie contiguously from its start, a byte copy where they lie contiguously from an
    /// offset, the strided-copy kernel otherwise.
    pub fn contiguous_f32_plan(&self, layout: &Layout) -> (r: ContiguousPlan)
        requires
            contiguous_sizes_fit(layout, self.dtype),
        ensures
            spec_contiguous_plan(layout, self.dtype, &r),
    {
        let elem_count = layout.elem_count();
        if layout.is_contiguous() && layout.start_offset() == 0 {
            return ContiguousPlan::Reuse { elem_count };
        }
        let size_bytes = (elem_count * 4) as u64;
        if layout.is_contiguous() {
            let src_offset_bytes = (layout.start_offset() * self.dtype.size_in_bytes()) as u64;
            ContiguousPlan::CopyRegion { elem_count, src_offset_bytes, size_bytes }
        } else {
            let meta = layout_meta_bytes(layout);
            ContiguousPlan::Gather { elem_count, size_bytes, meta }
        }
    }

    /// Affine map: on the device for f32 storage, from its contiguous f32 view into a new
    /// buffer of as many f32 elements; on the host otherwise.
    pub fn affine_route(&self, layout: &Layout) -> (r: Route<ElementwisePlan>)
        requires
            self.dtype == DType::F32 ==> contiguous_sizes_fit(layout, self.dtype),
        ensures
            r is Host <==> self.dtype != DType::F32,
            r matches Route::Device(p) ==> {
                &&& spec_contiguous_plan(layout, self.dtype, &p.input)
                &&& p.elem_count == layout.spec_elem_count()
                &&& p.output_bytes == (layout.spec_elem_count() * 4) as u64
            },
    {
        if self.dtype != DType::F32 {
            return Route::Host;
        }
        let input = self.contiguous_f32_plan(layout);
        let elem_count = layout.elem_count();
        Route::Device(ElementwisePlan { input, elem_count, output_bytes: (elem_count * 4) as u64 })
    }

    /// Unary operation `kernel`: on the device for f32 storage where the GPU has an entry
    /// point for it, from its contiguous f32 view into a new f32 buffer; on the host
    /// otherwise.
    pub fn unary_route(&self, kernel: &str, layout: &Layout) -> (r: Route<UnaryPlan>)
        requires
            self.dtype == DType::F32 ==> contiguous_sizes_fit(layout, self.dtype),
        ensures
            r is Host <==> (self.dtype != DType::F32 || unary_entry(kernel@) is None),
            r matches Route::Device(p) ==> {
                &&& unary_entry(kernel@) == Some(p.entry_point@)
                &&& spec_contiguous_plan(layout, self.dtype, &p.input)
                &&& p.elem_count == layout.spec_elem_count()
                &&& p.output_bytes == (layout.spec_elem_count() * 4) as u64
            },
    {
        let entry = unary_entry_point(kernel);
        if self.dtype != DType::F32 {
            return Route::Host;
        }
        match entry {
            None => Route::Host,
            Some(entry_point) => {
                let input = self.contiguous_f32_plan(layout);
                let elem_count = layout.elem_count();
                Route::Device(
                    UnaryPlan { entry_point, input, elem_count, output_bytes: (elem_count * 4) as u64 },
                )
            },
        }
    }

    /// Binary operation `kernel` with `rhs`: on the device where this storage is f32 and the
    /// GPU has an entry point for it, from the contiguous f32 views of both operands into a
    /// new f32 buffer of as many elements as `lhs_l` has; on the host otherwise.
    pub fn binary_route(&self, rhs: &Self, kernel: &str, lhs_l: &Layout, rhs_l: &Layout) -> (r: Route<
        BinaryPlan,
    >)
        requires
            self.dtype == DType::F32 ==> contiguous_sizes_fit(lhs_l, self.dtype)
                && contiguous_sizes_fit(rhs_l, rhs.dtype),
        ensures
            r is Host <==> (self.dtype != DType::F32 || binary_entry(kernel@) is None),
            r matches Route::Device(p) ==> {
                &&& binary_entry(kernel@) == Some(p.entry_point@)
                &&& spec_contiguous_plan(lhs_l, self.dtype, &p.lhs)
                &&& spec_contiguous_plan(rhs_l, rhs.dtype, &p.rhs)
                &&& p.elem_count == lhs_l.spec_elem_count()
                &&& p.output_bytes == (lhs_l.spec_elem_count() * 4) as u64
            },
    {
        let entry = binary_entry_point(kernel);
        if self.dtype != DType::F32 {
            return Route::Host;
        }
        match entry {
            None => Route::Host,
            Some(entry_point) => {
                let elem_count = lhs_l.elem_count();
                let lhs = self.contiguous_f32_plan(lhs_l);
                let rhs_plan = rhs.contiguous_f32_plan(rhs_l);
                Route::Device(
                    BinaryPlan {
                        entry_point,
                        lhs,
                        rhs: rhs_plan,
                        elem_count,
                        output_bytes: (elem_count * 4) as u64,
                    },
                )
            },
        }
    }

    /// Clone of the elements of `layout`: a byte copy of the whole buffer where the layout
    /// covers it contiguously; for f32 storage otherwise the contiguous f32 view, copied out
    /// where it is the buffer itself; a round trip through the host for other types. A clone
    /// never shares the buffer it was cloned from.
    pub fn try_clone_plan(&self, layout: &Layout) -> (r: ClonePlan)
        requires
            layout.wf(),
            self.count * self.dtype.spec_size_in_bytes() <= usize::MAX,
            self.dtype == DType::F32 ==> contiguous_sizes_fit(layout, self.dtype),
        ensures
            ({
                let n = layout.spec_elem_count();
                if layout.spec_is_contiguous() && layout.start_offset == 0 && n == self.count {
                    r == ClonePlan::Copy {
                        size_bytes: (self.count * self.dtype.spec_size_in_bytes()) as u64,
                        count: self.count,
                    }
                } else if self.dtype == DType::F32 {
                    if layout.spec_is_contiguous() && layout.start_offset == 0 {
                        r == ClonePlan::Copy { size_bytes: (n * 4) as u64, count: n as usize }
                    } else {
                        r matches ClonePlan::Contiguous(p) && spec_contiguous_plan(
                            layout,
                            self.dtype,
                            &p,
                        )
                    }
                } else {
                    r is Host
                }
            }),
            !(r matches ClonePlan::Contiguous(ContiguousPlan::Reuse { .. })),
    {
        let elem_count = layout.elem_count();
        if layout.is_contiguous() && layout.start_offset() == 0 && elem_count == self.count {
            let size_bytes = (self.count * self.dtype.size_in_bytes()) as u64;
            return ClonePlan::Copy { size_bytes, count: self.count };
        }
        if self.dtype == DType::F32 {
            let plan = self.contiguous_f32_plan(layout);
            return match plan {
                ContiguousPlan::Reuse { elem_count } => ClonePlan::Copy {
                    size_bytes: (elem_count * 4) as u64,
                    count: elem_count,
                },
                other => ClonePlan::Contiguous(other),
            };
        }
        ClonePlan::Host
    }

    /// Reduction `op` over the axes `sum_dims` of `layout`: on the device for f32 storage
    /// whose reduced axes are the trailing ones of a contiguous layout, each output element
    /// reducing `total / reduction size` consecutive inputs (u32 indices for the arg
    /// reductions, f32 values otherwise); on the host otherwise.
    pub fn reduce_route(&self, op: ReduceOp, layout: &Layout, sum_dims: &[usize]) -> (r: Route<
        ReducePlan,
    >)
        requires
            layout.wf(),
            self.dtype == DType::F32 ==> sum_dims@.to_set().len() <= layout.dims@.len(),
            reduce_on_device(self.dtype, layout, sum_dims@) ==> {
                &&& contiguous_sizes_fit(layout, self.dtype)
                &&& products_fit(reduced_dims(layout.dims@, sum_dims@))
                &&& product(reduced_dims(layout.dims@, sum_dims@)) > 0
            },
        ensures
            r is Host <==> !reduce_on_device(self.dtype, layout, sum_dims@),
            r matches Route::Device(p) ==> {
                let total = layout.spec_elem_count();
                let out_length = total / product(reduced_dims(layout.dims@, sum_dims@));
                &&& p.entry_point@ == reduce_entry(op)
                &&& (op == ReduceOp::Sum ==> p.entry_point@ == "sum_f32"@)
                &&& (op == ReduceOp::Min ==> p.entry_point@ == "min_f32"@)
                &&& (op == ReduceOp::Max ==> p.entry_point@ == "max_f32"@)
                &&& (op == ReduceOp::ArgMin ==> p.entry_point@ == "argmin_f32"@)
                &&& (op == ReduceOp::ArgMax ==> p.entry_point@ == "argmax_f32"@)
                &&& spec_contiguous_plan(layout, self.dtype, &p.input)
                &&& p.total == total
                &&& p.out_length == out_length
                &&& p.out_dtype == (if op == ReduceOp::ArgMax || op == ReduceOp::ArgMin {
                    DType::U32
                } else {
                    DType::F32
                })
                &&& p.output_bytes == (out_length * 4) as u64
            },
    {
        if self.dtype != DType::F32 {
            return Route::Host;
        }
        let src_dims = layout.dims();
        let rank = src_dims.len();
        let total = layout.elem_count();
        if !is_trailing_reduction(rank, sum_dims) || !layout.is_contiguous() {
            return Route::Host;
        }
        let input = self.contiguous_f32_plan(layout);
        let mut factors: Vec<usize> = Vec::new();
        let mut i: usize = 0;
        while i < sum_dims.len()
            invariant
                i <= sum_dims@.len(),
                src_dims@ == layout.dims@,
                rank == src_dims@.len(),
                is_trailing(rank as nat, sum_dims@),
                factors@ == reduced_dims(layout.dims@, sum_dims@).take(i as int),
            decreases sum_dims@.len() - i,
        {
            let d = sum_dims[i];
            assert(sum_dims@.contains(d));
            factors.push(src_dims[d]);
            i += 1;
            assert(factors@ =~= reduced_dims(layout.dims@, sum_dims@).take(i as int));
        }
        assert(factors@ =~= reduced_dims(layout.dims@, sum_dims@));
        let reduction_size = prefix_product(factors.as_slice(), factors.len());
        assert(factors@.subrange(0, factors@.len() as int) =~= factors@);
        let out_length = total / reduction_size;
        assert(out_length <= total) by (nonlinear_arith)
            requires
                out_length == total / reduction_size,
                reduction_size > 0,
        ;
        let output_bytes = (out_length * 4) as u64;
        let (entry_point, out_dtype) = match op {
            ReduceOp::ArgMax => ("argmax_f32", DType::U32),
            ReduceOp::ArgMin => ("argmin_f32", DType::U32),
            ReduceOp::Sum => ("sum_f32", DType::F32),
            ReduceOp::Min => ("min_f32", DType::F32),
            ReduceOp::Max => ("max_f32", DType::F32),
        };
        Route::Device(ReducePlan { entry_point, input, total, out_length, out_dtype, output_bytes })
    }

    /// 1D convolution with `kernel`: on the device where this storage is f32 and both
    /// layouts are contiguous from the start of their buffers, into a new f32 buffer of
    /// b_size * c_out * l_out elements; on the host otherwise.
    pub fn conv1d_route(
        &self,
        layout: &Layout,
        kernel: &Self,
        kernel_l: &Layout,
        params: &ParamsConv1D,
    ) -> (r: Route<Conv1dPlan>)
        requires
            layout.wf(),
            kernel_l.wf(),
            (self.dtype == DType::F32 && layout.spec_is_contiguous() && layout.start_offset == 0
                && kernel_l.spec_is_contiguous() && kernel_l.start_offset == 0) ==> {
                &&& params.l_out_defined()
                &&& params.b_size * params.c_out * params.spec_l_out() * 4 <= usize::MAX
            },
        ensures
            r is Host <==> !(self.dtype == DType::F32 && layout.spec_is_contiguous()
                && layout.start_offset == 0 && kernel_l.spec_is_contiguous()
                && kernel_l.start_offset == 0),
            r matches Route::Device(p) ==> {
                &&& p.l_out == params.spec_l_out()
                &&& p.out_count == params.b_size * params.c_out * params.spec_l_out()
                &&& p.output_bytes == (p.out_count * 4) as u64
            },
    {
        if self.dtype != DType::F32 || !layout.is_contiguous() || layout.start_offset() != 0
            || !kernel_l.is_contiguous() || kernel_l.start_offset() != 0 {
            return Route::Host;
        }
        let l_out = params.l_out();
        proof {
            let b = params.b_size as int;
            let c = params.c_out as int;
            let l = l_out as int;
            assert(b * c <= b * c * l * 4 || l == 0) by (nonlinear_arith)
                requires
                    b >= 0,
                    c >= 0,
                    l >= 0,
            ;
            assert(b * c * l <= b * c * l * 4) by (nonlinear_arith)
                requires
                    b >= 0,
                    c >= 0,
                    l >= 0,
            ;
            assert(l >= 1);
        }
        let out_count = params.b_size * params.c_out * l_out;
        Route::Device(Conv1dPlan { l_out, out_count, output_bytes: (out_count * 4) as u64 })
    }

    /// The convolution dispatch of `conv1d_route`'s device plan, with every size cut to 32
    /// bits.
    pub fn conv1d_dispatch<'a>(
        &'a self,
        kernel: &'a Self,
        params: &ParamsConv1D,
        plan: &Conv1dPlan,
        output: &'a GpuBuffer<R>,
    ) -> (r: Dispatch<'a, R>)
        requires
            (params.b_size as u32) * (params.c_out as u32) <= u32::MAX,
            (params.b_size as u32) * (params.c_out as u32) * (plan.l_out as u32) + LINEAR_GROUP_SIZE
                <= u32::MAX,
        ensures
            is_conv1d_dispatch(
                &r,
                params.b_size as u32,
                params.c_in as u32,
                params.c_out as u32,
                params.l_in as u32,
                plan.l_out as u32,
                params.k_size as u32,
                params.stride as u32,
                params.padding as u32,
                params.dilation as u32,
                &*self.buffer,
                self.count as u32,
                &*kernel.buffer,
                kernel.count as u32,
                output,
            ),
    {
        call_conv1d(
            params.b_size as u32,
            params.c_in as u32,
            params.c_out as u32,
            params.l_in as u32,
            plan.l_out as u32,
            params.k_size as u32,
            params.stride as u32,
            params.padding as u32,
            params.dilation as u32,
            &self.buffer,
            self.count as u32,
            &kernel.buffer,
            kernel.count as u32,
            output,
        )
    }

    /// Index select along `dim` with the indices `ids`: on the device where this storage is
    /// f32, the indices are u32, and both layouts are contiguous from the start of their
    /// buffers, into a new f32 buffer of left * ids * right elements; on the host otherwise.
    pub fn index_select_route(&self, ids: &Self, src_l: &Layout, ids_l: &Layout, dim: usize) -> (r:
        Route<IndexSelectPlan>)
        requires
            src_l.wf(),
            ids_l.wf(),
            (self.dtype == DType::F32 && ids.dtype == DType::U32 && src_l.spec_is_contiguous()
                && src_l.start_offset == 0 && ids_l.spec_is_contiguous() && ids_l.start_offset == 0)
                ==> {
                &&& dim < src_l.dims@.len()
                &&& product(src_l.dims@.subrange(0, dim as int)) * ids_l.spec_elem_count()
                    <= usize::MAX
                &&& product(src_l.dims@.subrange(0, dim as int)) * ids_l.spec_elem_count()
                    * product(src_l.dims@.subrange(dim + 1, src_l.dims@.len() as int)) * 4
                    <= usize::MAX
            },
        ensures
            r is Host <==> !(self.dtype == DType::F32 && ids.dtype == DType::U32
                && src_l.spec_is_contiguous() && src_l.start_offset == 0
                && ids_l.spec_is_contiguous() && ids_l.start_offset == 0),
            r matches Route::Device(p) ==> {
                let left = product(src_l.dims@.subrange(0, dim as int));
                let right = product(src_l.dims@.subrange(dim + 1, src_l.dims@.len() as int));
                &&& p.left_size == left
                &&& p.dim_size == src_l.dims@[dim as int]
                &&& p.right_size == right
                &&& p.ids_count == ids_l.spec_elem_count()
                &&& p.out_count == left * ids_l.spec_elem_count() * right
                &&& p.output_bytes == (p.out_count * 4) as u64
            },
    {
        if self.dtype == DType::F32 && ids.dtype == DType::U32 && src_l.is_contiguous()
            && src_l.start_offset() == 0 && ids_l.is_contiguous() && ids_l.start_offset() == 0 {
            let src_dims = src_l.dims();
            let left_size = prefix_product(src_dims, dim);
            let dim_size = src_dims[dim];
            let right_size = suffix_product(src_dims, dim + 1);
            let ids_count = ids_l.elem_count();
            proof {
                let a = left_size as int;
                let b = ids_count as int;
                let c = right_size as int;
                assert(a * b * c <= a * b * c * 4) by (nonlinear_arith)
                    requires
                        a >= 0,
                        b >= 0,
                        c >= 0,
                ;
            }
            let out_count = left_size * ids_count * right_size;
            return Route::Device(
                IndexSelectPlan {
                    left_size,
                    dim_size,
                    right_size,
                    ids_count,
                    out_count,
                    output_bytes: (out_count * 4) as u64,
                },
            );
        }
        Route::Host
    }

    /// The index-select dispatch of `index_select_route`'s device plan, with every size cut
    /// to 32 bits.
    pub fn index_select_dispatch<'a>(
        &'a self,
        ids: &'a Self,
        plan: &IndexSelectPlan,
        output: &'a GpuBuffer<R>,
    ) -> (r: Dispatch<'a, R>)
        requires
            (plan.out_count as u32) + LINEAR_GROUP_SIZE <= u32::MAX,
        ensures
            is_index_select_dispatch(
                &r,
                plan.out_count as u32,
                plan.left_size as u32,
                plan.dim_size as u32,
                plan.right_size as u32,
                &*self.buffer,
                self.count as u32,
                &*ids.buffer,
                plan.ids_count as u32,
                output,
            ),
    {
        call_index_select(
            plan.out_count as u32,
            plan.left_size as u32,
            plan.dim_size as u32,
            plan.right_size as u32,
            &self.buffer,
            self.count as u32,
            &ids.buffer,
            plan.ids_count as u32,
            output,
        )
    }

    /// The number of elements of a matmul's (b, m, n) output and the size of its buffer; an
    /// error for storage of a type other than f32.
    pub fn matmul_output(&self, b: usize, m: usize, n: usize) -> (r: Result<(usize, u64), D3D12Error>)
        requires
            self.dtype == DType::F32 ==> b * m * n * 4 <= usize::MAX && b * m <= usize::MAX,
        ensures
            r is Ok <==> self.dtype == DType::F32,
            r matches Ok((count, bytes)) ==> count == b * m * n && bytes == count * 4,
            r matches Err(e) ==> e.spec_text() == matmul_dtype_message(self.dtype),
    {
        if self.dtype != DType::F32 {
            let msg = String::from_str("D3D12 matmul only supports F32, got ").concat(self.dtype.name());
            return Err(D3D12Error::Message(msg));
        }
        proof {
            assert(b * m * n <= b * m * n * 4) by (nonlinear_arith)
                requires
                    b >= 0,
                    m >= 0,
                    n >= 0,
            ;
        }
        let out_count = b * m * n;
        Ok((out_count, (out_count * 4) as u64))
    }

    /// The matmul dispatch of this (b, m, k) storage with `rhs` (b, k, n) into the
    /// `out_count` elements of `output`: each operand bound from its start offset, with the
    /// strides its layout gives, every value cut to 32 bits.
    pub fn matmul_dispatch<'a>(
        &'a self,
        rhs: &'a Self,
        b: usize,
        m: usize,
        n: usize,
        k: usize,
        lhs_l: &Layout,
        rhs_l: &Layout,
        output: &'a GpuBuffer<R>,
        out_count: usize,
    ) -> (r: Dispatch<'a, R>)
        requires
            matmul_strides_fit(lhs_l.stride@, m, k),
            matmul_strides_fit(rhs_l.stride@, k, n),
            (n as u32) + MATMUL_TILE <= u32::MAX,
            (m as u32) + MATMUL_TILE <= u32::MAX,
        ensures
            ({
                let (lb, lm, lk) = lhs_matmul_strides(lhs_l.stride@, m, k);
                let (rb, rk, rn) = rhs_matmul_strides(rhs_l.stride@, k, n);
                r.constants@ == matmul_constants(
                    b as u32,
                    m as u32,
                    n as u32,
                    k as u32,
                    lb as u32,
                    lm as u32,
                    lk as u32,
                    rb as u32,
                    rk as u32,
                    rn as u32,
                )
            }),
            r.constants@.len() == 10,
            r.constants@[0] == b as u32,
            r.constants@[1] == m as u32,
            r.constants@[2] == n as u32,
            r.constants@[3] == k as u32,
            lhs_l.stride@.len() == 3 ==> r.constants@[4] == lhs_l.stride@[0] as u32
                && r.constants@[5] == lhs_l.stride@[1] as u32 && r.constants@[6]
                == lhs_l.stride@[2] as u32,
            lhs_l.stride@.len() == 2 ==> r.constants@[5] == lhs_l.stride@[0] as u32
                && r.constants@[6] == lhs_l.stride@[1] as u32,
            rhs_l.stride@.len() == 3 ==> r.constants@[7] == rhs_l.stride@[0] as u32
                && r.constants@[8] == rhs_l.stride@[1] as u32 && r.constants@[9]
                == rhs_l.stride@[2] as u32,
            rhs_l.stride@.len() == 2 ==> r.constants@[8] == rhs_l.stride@[0] as u32
                && r.constants@[9] == rhs_l.stride@[1] as u32,
            r.source == Source::Matmul,
            r.entry_point@ == "matmul_f32"@,
            r.srvs@ == seq![
                binding(
                    &*self.buffer,
                    lhs_l.start_offset as u32,
                    remaining(self.count, lhs_l.start_offset),
                    4,
                ),
                binding(
                    &*rhs.buffer,
                    rhs_l.start_offset as u32,
                    remaining(rhs.count, rhs_l.start_offset),
                    4,
                ),
            ],
            r.uav == binding(output, 0, out_count as u32, 4),
            r.groups@ == spec_matmul_groups(n as u32, m as u32, b as u32),
            r.fits_root_signature(),
    {
        let lhs_s = lhs_l.stride();
        let (lhs_b_stride, lhs_m_stride, lhs_k_stride) = if lhs_s.len() == 3 {
            (lhs_s[0], lhs_s[1], lhs_s[2])
        } else if lhs_s.len() == 2 {
            (m * k, lhs_s[0], lhs_s[1])
        } else {
            (m * k, k, 1)
        };
        let rhs_s = rhs_l.stride();
        let (rhs_b_stride, rhs_k_stride, rhs_n_stride) = if rhs_s.len() == 3 {
            (rhs_s[0], rhs_s[1], rhs_s[2])
        } else if rhs_s.len() == 2 {
            (k * n, rhs_s[0], rhs_s[1])
        } else {
            (k * n, n, 1)
        };
        let constants = vec![
            b as u32,
            m as u32,
            n as u32,
            k as u32,
            lhs_b_stride as u32,
            lhs_m_stride as u32,
            lhs_k_stride as u32,
            rhs_b_stride as u32,
            rhs_k_stride as u32,
            rhs_n_stride as u32,
        ];
        let lhs_remaining = self.count.saturating_sub(lhs_l.start_offset());
        let rhs_remaining = rhs.count.saturating_sub(rhs_l.start_offset());
        let srvs = vec![
            BufferBinding::structured_f32_offset(
                &self.buffer,
                lhs_l.start_offset() as u32,
                lhs_remaining as u32,
            ),
            BufferBinding::structured_f32_offset(
                &rhs.buffer,
                rhs_l.start_offset() as u32,
                rhs_remaining as u32,
            ),
        ];
        let r = Dispatch {
            source: Source::Matmul,
            entry_point: "matmul_f32",
            constants,
            srvs,
            uav: BufferBinding::structured_f32(output, out_count as u32),
            groups: matmul_groups(n as u32, m as u32, b as u32),
        };
        r
    }

    /// Copy of the elements of `src_l` into `dst` from element `dst_offset` on: on the device
    /// for f32 storage, a byte copy where `src_l` is contiguous and the strided-copy kernel
    /// otherwise; on the host for other types.
    pub fn copy_strided_route(&self, dst: &Self, dst_offset: usize, src_l: &Layout) -> (r: Route<
        CopyPlan,
    >)
        requires
            src_l.wf(),
            self.dtype == DType::F32 && src_l.spec_is_contiguous() ==> {
                &&& src_l.start_offset * 4 <= usize::MAX
                &&& dst_offset * dst.dtype.spec_size_in_bytes() <= usize::MAX
                &&& src_l.spec_elem_count() * 4 <= usize::MAX
            },
        ensures
            r is Host <==> self.dtype != DType::F32,
            r matches Route::Device(p) ==> if src_l.spec_is_contiguous() {
                p == CopyPlan::Region {
                    src_offset_bytes: (src_l.start_offset * 4) as u64,
                    dst_offset_bytes: (dst_offset * dst.dtype.spec_size_in_bytes()) as u64,
                    size_bytes: (src_l.spec_elem_count() * 4) as u64,
                }
            } else {
                p matches CopyPlan::Gather { meta } && meta@ == encode_seq(
                    meta_words(src_l.dims@, src_l.stride@),
                )
            },
    {
        if self.dtype != DType::F32 {
            return Route::Host;
        }
        if src_l.is_contiguous() {
            let elem_count = src_l.elem_count();
            let src_offset_bytes = (src_l.start_offset() * self.dtype.size_in_bytes()) as u64;
            let dst_offset_bytes = (dst_offset * dst.dtype.size_in_bytes()) as u64;
            let size_bytes = (elem_count * self.dtype.size_in_bytes()) as u64;
            return Route::Device(CopyPlan::Region { src_offset_bytes, dst_offset_bytes, size_bytes });
        }
        let meta = layout_meta_bytes(src_l);
        Route::Device(CopyPlan::Gather { meta })
    }

    /// 2D copy into `dst`: on the device for f32 storage, on the host otherwise.
    pub fn copy2d_on_device(&self) -> (r: bool)
        ensures
            r == (self.dtype == DType::F32),
    {
        self.dtype == DType::F32
    }

    /// The 2D copy dispatch from this storage into `dst`, with every value cut to 32 bits.
    pub fn copy2d_dispatch<'a>(
        &'a self,
        dst: &'a Self,
        d1: usize,
        d2: usize,
        src_stride1: usize,
        dst_stride1: usize,
        src_offset: usize,
        dst_offset: usize,
    ) -> (r: Dispatch<'a, R>)
        requires
            (d1 as u32) + COPY2D_TILE <= u32::MAX,
            (d2 as u32) + COPY2D_TILE <= u32::MAX,
        ensures
            is_copy2d_dispatch(
                &r,
                d1 as u32,
                d2 as u32,
                src_stride1 as u32,
                dst_stride1 as u32,
                src_offset as u32,
                dst_offset as u32,
                &*self.buffer,
                self.count as u32,
                &*dst.buffer,
                dst.count as u32,
            ),
    {
        call_copy2d(
            d1 as u32,
            d2 as u32,
            src_stride1 as u32,
            dst_stride1 as u32,
            src_offset as u32,
            dst_offset as u32,
            &self.buffer,
            self.count as u32,
            &dst.buffer,
            dst.count as u32,
        )
    }

    /// The number of elements that filling `layout` writes, cut to 32 bits; an error for a
    /// layout that is not contiguous.
    pub fn const_set_count(&self, layout: &Layout) -> (r: Result<u32, D3D12Error>)
        requires
            layout.wf(),
        ensures
            r is Ok <==> layout.spec_is_contiguous(),
            r matches Ok(n) ==> n == layout.spec_elem_count() as u32,
            r matches Err(e) ==> e.spec_text() == const_set_message(),
    {
        if !layout.is_contiguous() {
            return Err(D3D12Error::Message(String::from_str("D3D12 const_set only supports contiguous layouts")));
        }
        Ok(layout.elem_count() as u32)
    }

    /// The dispatch that fills the first `count` f32 elements of this storage's buffer with
    /// the value of bit pattern `value_bits`.
    pub fn const_set_dispatch<'a>(&'a self, count: u32, value_bits: u32) -> (r: Dispatch<'a, R>)
        requires
            count + LINEAR_GROUP_SIZE <= u32::MAX,
        ensures
            is_fill_f32_dispatch(&r, count, value_bits, &*self.buffer),
    {
        call_fill_f32(count, value_bits, &self.buffer)
    }

    /// The strided-copy dispatch that writes the elements of `src_l`, read from this
    /// storage, to `output` from element `dst_offset` on; `meta` holds the layout
    /// description of `src_l`.
    pub fn strided_copy_dispatch<'a>(
        &'a self,
        src_l: &Layout,
        meta: &'a GpuBuffer<R>,
        output: &'a GpuBuffer<R>,
        output_count: u32,
        dst_offset: u32,
    ) -> (r: Dispatch<'a, R>)
        requires
            src_l.wf(),
            (src_l.spec_elem_count() as u32) + LINEAR_GROUP_SIZE <= u32::MAX,
        ensures
            r.source == Source::Indexing,
            r.entry_point@ == "copy_strided_f32"@,
            r.constants@ == seq![
                src_l.spec_elem_count() as u32,
                src_l.dims@.len() as u32,
                dst_offset,
            ],
            r.srvs@ == seq![
                binding(
                    &*self.buffer,
                    src_l.start_offset as u32,
                    (if self.count >= src_l.start_offset {
                        self.count - src_l.start_offset
                    } else {
                        0
                    }) as u32,
                    4,
                ),
                raw_binding(meta),
            ],
            r.uav == binding(output, 0, output_count, 4),
            r.groups@ == spec_linear_groups(src_l.spec_elem_count() as u32),
            r.fits_root_signature(),
    {
        let count = src_l.elem_count() as u32;
        let num_dims = src_l.dims().len() as u32;
        let src_remaining = self.count.saturating_sub(src_l.start_offset());
        let srvs = vec![
            BufferBinding::structured_f32_offset(
                &self.buffer,
                src_l.start_offset() as u32,
                src_remaining as u32,
            ),
            BufferBinding::raw(meta),
        ];
        Dispatch {
            source: Source::Indexing,
            entry_point: "copy_strided_f32",
            constants: vec![count, num_dims, dst_offset],
            srvs,
            uav: BufferBinding::structured_f32(output, output_count),
            groups: linear_groups(count),
        }
    }
}

} // verus!
