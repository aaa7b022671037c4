use vstd::prelude::*;

verus! {

/// Threads per group of the one-dimensional kernels.
pub const LINEAR_GROUP_SIZE: u32 = 256;

/// Side of the square thread group of the matmul kernel.
pub const MATMUL_TILE: u32 = 8;

/// Side of the square thread group of the copy2d kernel.
pub const COPY2D_TILE: u32 = 16;

/// The number of groups of `d` that cover `n` items: the ceiling of `n / d`.
pub open spec fn ceil_div(n: int, d: int) -> int {
    (n + d - 1) / d
}

/// Calculate dispatch group count for a 1D kernel with the given thread group size.
pub fn div_ceil(n: u32, d: u32) -> (r: u32)
    requires
        d > 0,
        n + d <= u32::MAX,
    ensures
        r == ceil_div(n as int, d as int),
{
    (n + d - 1) / d
}

/// `ceil_div(n, d)` groups of `d` cover `n` items, and one group fewer does not.
pub proof fn lemma_ceil_div_covers(n: int, d: int)
    requires
        n >= 0,
        d > 0,
    ensures
        ceil_div(n, d) * d >= n,
        (ceil_div(n, d) - 1) * d < n || n == 0 && ceil_div(n, d) == 0,
        ceil_div(n, d) >= 0,
{
    let q = ceil_div(n, d);
    let r = (n + d - 1) % d;
    assert(n + d - 1 == q * d + r && 0 <= r < d) by (nonlinear_arith)
        requires
            q == (n + d - 1) / d,
            r == (n + d - 1) % d,
            d > 0,
    ;
    assert(q >= 0) by (nonlinear_arith)
        requires
            q == (n + d - 1) / d,
            n >= 0,
            d > 0,
    ;
    assert(q * d >= n) by (nonlinear_arith)
        requires
            n + d - 1 == q * d + r,
            r < d,
    ;
    assert((q - 1) * d < n || n == 0 && q == 0) by (nonlinear_arith)
        requires
            n + d - 1 == q * d + r,
            0 <= r,
            n >= 0,
            q >= 0,
    ;
}

/// The group counts of a one-dimensional dispatch over `count` threads.
pub open spec fn spec_linear_groups(count: u32) -> Seq<u32> {
    seq![ceil_div(count as int, LINEAR_GROUP_SIZE as int) as u32, 1u32, 1u32]
}

/// A one-dimensional dispatch launches a thread for every element, and one group fewer would
/// not.
pub proof fn lemma_linear_groups_cover(count: u32)
    ensures
        spec_linear_groups(count)[0] * LINEAR_GROUP_SIZE >= count,
        count > 0 ==> (spec_linear_groups(count)[0] - 1) * LINEAR_GROUP_SIZE < count,
{
    lemma_ceil_div_covers(count as int, LINEAR_GROUP_SIZE as int);
    let q = ceil_div(count as int, LINEAR_GROUP_SIZE as int);
    assert(q <= count as int + 1) by (nonlinear_arith)
        requires
            q == (count as int + 255) / 256,
            count >= 0,
    ;
    assert(spec_linear_groups(count)[0] == q);
}

/// Standard 1D dispatch: 256 threads per group.
pub fn linear_groups(count: u32) -> (r: [u32; 3])
    requires
        count + LINEAR_GROUP_SIZE <= u32::MAX,
    ensures
        r@ == spec_linear_groups(count),
{
    [div_ceil(count, LINEAR_GROUP_SIZE), 1, 1]
}

/// The group counts of a matmul dispatch: tiles over the columns, tiles over the rows, one
/// layer per batch.
pub open spec fn spec_matmul_groups(n: u32, m: u32, batch: u32) -> Seq<u32> {
    seq![
        ceil_div(n as int, MATMUL_TILE as int) as u32,
        ceil_div(m as int, MATMUL_TILE as int) as u32,
        batch,
    ]
}

/// 2D dispatch for matmul (8x8 threads per group).
pub fn matmul_groups(n: u32, m: u32, batch: u32) -> (r: [u32; 3])
    requires
        n + MATMUL_TILE <= u32::MAX,
        m + MATMUL_TILE <= u32::MAX,
    ensures
        r@ == spec_matmul_groups(n, m, batch),
{
    [div_ceil(n, MATMUL_TILE), div_ceil(m, MATMUL_TILE), batch]
}

/// The group counts of a copy2d dispatch: tiles over each of the two dimensions.
pub open spec fn spec_copy2d_groups(d1: u32, d2: u32) -> Seq<u32> {
    seq![
        ceil_div(d1 as int, COPY2D_TILE as int) as u32,
        ceil_div(d2 as int, COPY2D_TILE as int) as u32,
        1u32,
    ]
}

/// 2D dispatch for copy2d (16x16 threads per group).
pub fn copy2d_groups(d1: u32, d2: u32) -> (r: [u32; 3])
    requires
        d1 + COPY2D_TILE <= u32::MAX,
        d2 + COPY2D_TILE <= u32::MAX,
    ensures
        r@ == spec_copy2d_groups(d1, d2),
{
    [div_ceil(d1, COPY2D_TILE), div_ceil(d2, COPY2D_TILE), 1]
}

} // verus!
