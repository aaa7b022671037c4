use vstd::prelude::*;

use crate::buffer::{binding, BufferBinding, GpuBuffer};
use crate::dispatch::Dispatch;
use crate::source::Source;
use crate::utils::{matmul_groups, spec_matmul_groups, MATMUL_TILE};

verus! {

/// The root constants of the matmul kernel.
pub open spec fn matmul_constants(
    batch_size: u32,
    m: u32,
    n: u32,
    k: u32,
    lhs_stride_b: u32,
    lhs_stride_m: u32,
    lhs_stride_k: u32,
    rhs_stride_b: u32,
    rhs_stride_k: u32,
    rhs_stride_n: u32,
) -> Seq<u32> {
    seq![
        batch_size,
        m,
        n,
        k,
        lhs_stride_b,
        lhs_stride_m,
        lhs_stride_k,
        rhs_stride_b,
        rhs_stride_k,
        rhs_stride_n,
    ]
}

/// The matmul kernel reads its shape from the first four root constants, in the order batch
/// count, rows of A, columns of B, inner length, and then the strides of A (batch, row, inner)
/// and of B (batch, inner, column).
pub proof fn lemma_matmul_constants_order(
    batch_size: u32,
    m: u32,
    n: u32,
    k: u32,
    lhs_stride_b: u32,
    lhs_stride_m: u32,
    lhs_stride_k: u32,
    rhs_stride_b: u32,
    rhs_stride_k: u32,
    rhs_stride_n: u32,
)
    ensures
        ({
            let c = matmul_constants(
                batch_size,
                m,
                n,
                k,
                lhs_stride_b,
                lhs_stride_m,
                lhs_stride_k,
                rhs_stride_b,
                rhs_stride_k,
                rhs_stride_n,
            );
            &&& c.len() == 10
            &&& c[0] == batch_size
            &&& c[1] == m
            &&& c[2] == n
            &&& c[3] == k
            &&& c[4] == lhs_stride_b
            &&& c[5] == lhs_stride_m
            &&& c[6] == lhs_stride_k
            &&& c[7] == rhs_stride_b
            &&& c[8] == rhs_stride_k
            &&& c[9] == rhs_stride_n
        }),
{
}

/// Naive batched matrix multiplication C = A * B: A is (batch, M, K), B is (batch, K, N), both
/// with arbitrary strides, C is (batch, M, N) contiguous.
pub fn call_matmul<'a, R>(
    batch_size: u32,
    m: u32,
    n: u32,
    k: u32,
    lhs_stride_b: u32,
    lhs_stride_m: u32,
    lhs_stride_k: u32,
    rhs_stride_b: u32,
    rhs_stride_k: u32,
    rhs_stride_n: u32,
    a: &'a GpuBuffer<R>,
    a_count: u32,
    b: &'a GpuBuffer<R>,
    b_count: u32,
    c: &'a GpuBuffer<R>,
) -> (r: Dispatch<'a, R>)
    requires
        batch_size * m <= u32::MAX,
        batch_size * m * n <= u32::MAX,
        n + MATMUL_TILE <= u32::MAX,
        m + MATMUL_TILE <= u32::MAX,
    ensures
        r.source == Source::Matmul,
        r.entry_point@ == "matmul_f32"@,
        r.constants@ == matmul_constants(
            batch_size,
            m,
            n,
            k,
            lhs_stride_b,
            lhs_stride_m,
            lhs_stride_k,
            rhs_stride_b,
            rhs_stride_k,
            rhs_stride_n,
        ),
        r.constants@ == seq![
            batch_size,
            m,
            n,
            k,
            lhs_stride_b,
            lhs_stride_m,
            lhs_stride_k,
            rhs_stride_b,
            rhs_stride_k,
            rhs_stride_n,
        ],
        r.srvs@ == seq![binding(a, 0, a_count, 4), binding(b, 0, b_count, 4)],
        r.uav == binding(c, 0, (batch_size * m * n) as u32, 4),
        r.groups@ == spec_matmul_groups(n, m, batch_size),
        r.fits_root_signature(),
{
    let constants = vec![
        batch_size,
        m,
        n,
        k,
        lhs_stride_b,
        lhs_stride_m,
        lhs_stride_k,
        rhs_stride_b,
        rhs_stride_k,
        rhs_stride_n,
    ];
    let srvs = vec![BufferBinding::structured_f32(a, a_count), BufferBinding::structured_f32(b, b_count)];
    let c_count = batch_size * m * n;
    Dispatch {
        source: Source::Matmul,
        entry_point: "matmul_f32",
        constants,
        srvs,
        uav: BufferBinding::structured_f32(c, c_count),
        groups: matmul_groups(n, m, batch_size),
    }
}

} // verus!
