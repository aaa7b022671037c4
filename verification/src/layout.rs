use vstd::prelude::*;

use crate::le::{decode_seq, encode_all, encode_seq, lemma_decode_encode};

verus! {

/// The product of a sequence of dimensions.
pub open spec fn product(s: Seq<usize>) -> nat
    decreases s.len(),
{
    if s.len() == 0 {
        1
    } else {
        s[0] as nat * product(s.drop_first())
    }
}

/// Every product of consecutive dimensions fits in a `usize`.
pub open spec fn products_fit(s: Seq<usize>) -> bool {
    forall|i: int, j: int| 0 <= i <= j <= s.len() ==> #[trigger] product(s.subrange(i, j)) <= usize::MAX
}

/// Appending a dimension multiplies the product by it.
pub proof fn lemma_product_push(s: Seq<usize>, x: usize)
    ensures
        product(s.push(x)) == product(s) * x,
    decreases s.len(),
{
    let t = s.push(x);
    if s.len() == 0 {
        assert(t.drop_first() =~= Seq::<usize>::empty());
        assert(t[0] == x);
        assert(product(t) == x * product(t.drop_first()));
        assert(product(t.drop_first()) == 1);
        assert(product(s) == 1);
        let pt = product(t);
        let pr = product(t.drop_first());
        let ps = product(s);
        assert(pt == ps * x) by (nonlinear_arith)
            requires
                pt == x * pr,
                pr == 1,
                ps == 1,
        ;
    } else {
        let d = s.drop_first();
        assert(t.drop_first() =~= d.push(x));
        assert(t[0] == s[0]);
        lemma_product_push(d, x);
        let pd = product(d);
        let a = s[0] as int;
        assert(product(t) == a * (pd * x));
        assert(product(s) == a * pd);
        assert(a * (pd * x) == (a * pd) * x) by (nonlinear_arith);
        assert(product(t) == product(s) * x);
    }
}

/// The product of `s[i..j + 1]` is that of `s[i..j]` times `s[j]`.
pub proof fn lemma_product_extend_right(s: Seq<usize>, i: int, j: int)
    requires
        0 <= i <= j < s.len(),
    ensures
        product(s.subrange(i, j + 1)) == product(s.subrange(i, j)) * s[j],
{
    assert(s.subrange(i, j + 1) =~= s.subrange(i, j).push(s[j]));
    lemma_product_push(s.subrange(i, j), s[j]);
}

/// The product of `s[i..j]` is `s[i]` times that of `s[i + 1..j]`.
pub proof fn lemma_product_extend_left(s: Seq<usize>, i: int, j: int)
    requires
        0 <= i < j <= s.len(),
    ensures
        product(s.subrange(i, j)) == s[i] * product(s.subrange(i + 1, j)),
{
    assert(s.subrange(i, j).drop_first() =~= s.subrange(i + 1, j));
}

/// The product of `s` is that of its first `j` dimensions times that of the rest.
pub proof fn lemma_product_split(s: Seq<usize>, j: int)
    requires
        0 <= j <= s.len(),
    ensures
        product(s) == product(s.subrange(0, j)) * product(s.subrange(j, s.len() as int)),
    decreases j,
{
    let n = s.len() as int;
    if j == 0 {
        assert(s.subrange(0, 0) =~= Seq::<usize>::empty());
        assert(s.subrange(0, n) =~= s);
        let p = product(s);
        assert(p == 1 * p) by (nonlinear_arith);
    } else {
        lemma_product_split(s, j - 1);
        lemma_product_extend_right(s, 0, j - 1);
        lemma_product_extend_left(s, j - 1, n);
        let a = product(s.subrange(0, j - 1));
        let x = s[j - 1] as int;
        let b = product(s.subrange(j, n));
        assert(a * (x * b) == (a * x) * b) by (nonlinear_arith);
    }
}

/// Removing the dimension at `j` divides the product by it.
pub proof fn lemma_product_remove(s: Seq<usize>, j: int)
    requires
        0 <= j < s.len(),
    ensures
        product(s) == s[j] * product(s.remove(j)),
    decreases s.len(),
{
    if j == 0 {
        assert(s.remove(0) =~= s.drop_first());
    } else {
        let t = s.drop_first();
        lemma_product_remove(t, j - 1);
        assert(t.remove(j - 1) =~= s.remove(j).drop_first());
        assert(s.remove(j)[0] == s[0]);
        let a = s[0] as int;
        let x = s[j] as int;
        let p = product(t.remove(j - 1));
        assert(a * (x * p) == x * (a * p)) by (nonlinear_arith);
    }
}

/// The product of the first `k` dimensions of `s`, computed left to right.
pub fn prefix_product(s: &[usize], k: usize) -> (r: usize)
    requires
        k <= s@.len(),
        products_fit(s@),
    ensures
        r == product(s@.subrange(0, k as int)),
{
    let mut acc: usize = 1;
    let mut i: usize = 0;
    assert(s@.subrange(0, 0) =~= Seq::<usize>::empty());
    while i < k
        invariant
            i <= k <= s@.len(),
            products_fit(s@),
            acc == product(s@.subrange(0, i as int)),
        decreases k - i,
    {
        proof {
            lemma_product_extend_right(s@, 0, i as int);
            assert(product(s@.subrange(0, i + 1)) <= usize::MAX);
        }
        acc = acc * s[i];
        i += 1;
    }
    acc
}

/// The product of the dimensions of `s` from index `k` on.
pub fn suffix_product(s: &[usize], k: usize) -> (r: usize)
    requires
        k <= s@.len(),
        products_fit(s@),
    ensures
        r == product(s@.subrange(k as int, s@.len() as int)),
{
    let n = s.len();
    let mut acc: usize = 1;
    let mut i: usize = n;
    assert(s@.subrange(n as int, n as int) =~= Seq::<usize>::empty());
    while i > k
        invariant
            k <= i <= n,
            n == s@.len(),
            products_fit(s@),
            acc == product(s@.subrange(i as int, n as int)),
        decreases i - k,
    {
        proof {
            lemma_product_extend_left(s@, i - 1, n as int);
            assert(product(s@.subrange(i - 1, n as int)) <= usize::MAX);
        }
        acc = s[i - 1] * acc;
        i -= 1;
    }
    acc
}

/// Row-major contiguity: every dimension longer than one has the stride of the product of the
/// dimensions after it.
pub open spec fn is_row_major(dims: Seq<usize>, stride: Seq<usize>) -> bool {
    &&& dims.len() == stride.len()
    &&& forall|i: int|
        0 <= i < dims.len() && dims[i] > 1 ==> #[trigger] stride[i] == product(
            dims.subrange(i + 1, dims.len() as int),
        )
}

/// The position, relative to the start offset, of the `k`-th element in row-major order of a
/// tensor with these dimensions and strides: each axis contributes its index times its stride.
pub open spec fn strided_offset(dims: Seq<usize>, stride: Seq<usize>, k: nat) -> int
    decreases dims.len(),
{
    if dims.len() == 0 {
        0
    } else {
        let inner = product(dims.drop_first());
        (k / inner) as int * stride[0] + strided_offset(dims.drop_first(), stride.drop_first(), k % inner)
    }
}

/// A contiguous layout holds its elements as one run of the buffer: the `k`-th element in
/// row-major order lies `k` places after the start offset. So a contiguous layout is copied as
/// one region, where any other layout is gathered element by element.
pub proof fn lemma_row_major_offsets(dims: Seq<usize>, stride: Seq<usize>, k: nat)
    requires
        is_row_major(dims, stride),
        k < product(dims),
    ensures
        strided_offset(dims, stride, k) == k,
    decreases dims.len(),
{
    if dims.len() > 0 {
        let n = dims.len() as int;
        let d = dims.drop_first();
        let s = stride.drop_first();
        let inner = product(d);
        let first = dims[0] as nat;
        assert(product(dims) == first * inner);
        assert(inner > 0) by (nonlinear_arith)
            requires
                k < first * inner,
        ;
        assert(is_row_major(d, s)) by {
            assert forall|i: int| 0 <= i < d.len() && d[i] > 1 implies #[trigger] s[i] == product(
                d.subrange(i + 1, d.len() as int),
            ) by {
                assert(d[i] == dims[i + 1] && s[i] == stride[i + 1]);
                assert(dims.subrange(i + 2, n) =~= d.subrange(i + 1, d.len() as int));
            }
        }
        let q = k / inner;
        let r = k % inner;
        assert(k == q * inner + r && r < inner) by (nonlinear_arith)
            requires
                inner > 0,
                q == k / inner,
                r == k % inner,
        ;
        lemma_row_major_offsets(d, s, r);
        assert(strided_offset(dims, stride, k) == q * stride[0] + strided_offset(d, s, r));
        if first > 1 {
            assert(dims.subrange(1, n) =~= d);
            assert(stride[0] == inner);
            assert(q * stride[0] == q * inner);
        } else {
            assert(first == 1) by (nonlinear_arith)
                requires
                    k < first * inner,
                    first <= 1,
            ;
            assert(q == 0) by (nonlinear_arith)
                requires
                    k == q * inner + r,
                    k < first * inner,
                    first == 1,
                    r >= 0,
                    q >= 0,
            ;
            let st = stride[0] as int;
            assert(q * st == 0 && k == r) by (nonlinear_arith)
                requires
                    q == 0,
                    k == q * inner + r,
            ;
        }
    }
}

/// The product of dimensions that are all at least one is at least one.
proof fn lemma_product_positive(s: Seq<usize>)
    requires
        forall|i: int| 0 <= i < s.len() ==> s[i] >= 1,
    ensures
        product(s) >= 1,
    decreases s.len(),
{
    if s.len() > 0 {
        let d = s.drop_first();
        lemma_product_positive(d);
        let a = s[0] as int;
        let p = product(d) as int;
        assert(a * p >= 1) by (nonlinear_arith)
            requires
                a >= 1,
                p >= 1,
        ;
    }
}

/// The first element lies at the start.
proof fn lemma_strided_offset_zero(dims: Seq<usize>, stride: Seq<usize>)
    requires
        dims.len() == stride.len(),
        forall|i: int| 0 <= i < dims.len() ==> dims[i] >= 1,
    ensures
        strided_offset(dims, stride, 0) == 0,
    decreases dims.len(),
{
    if dims.len() > 0 {
        let d = dims.drop_first();
        lemma_product_positive(d);
        lemma_strided_offset_zero(d, stride.drop_first());
        let inner = product(d) as int;
        assert(0int / inner == 0 && 0int % inner == 0) by (nonlinear_arith)
            requires
                inner >= 1,
        ;
    }
}

/// The element one step along axis `i`, `product(dims[i + 1..])` places into row-major order,
/// lies `stride[i]` after the start.
proof fn lemma_strided_offset_unit(dims: Seq<usize>, stride: Seq<usize>, i: int)
    requires
        dims.len() == stride.len(),
        forall|j: int| 0 <= j < dims.len() ==> dims[j] >= 1,
        0 <= i < dims.len(),
        dims[i] >= 2,
    ensures
        product(dims.subrange(i + 1, dims.len() as int)) < product(dims),
        strided_offset(dims, stride, product(dims.subrange(i + 1, dims.len() as int))) == stride[i],
    decreases dims.len(),
{
    let n = dims.len() as int;
    let d = dims.drop_first();
    let s = stride.drop_first();
    let inner = product(d);
    let k = product(dims.subrange(i + 1, n));
    let first = dims[0] as int;
    lemma_product_positive(d);
    assert(product(dims) == first * inner);
    if i == 0 {
        assert(dims.subrange(1, n) =~= d);
        lemma_strided_offset_zero(d, s);
        let ii = inner as int;
        assert(ii / ii == 1 && ii % ii == 0 && ii < first * ii) by (nonlinear_arith)
            requires
                ii >= 1,
                first >= 2,
        ;
        assert(strided_offset(dims, stride, k) == (k / inner) as int * stride[0] + strided_offset(
            d,
            s,
            k % inner,
        ));
        assert(1 * (stride[0] as int) == stride[0]);
    } else {
        assert(dims.subrange(i + 1, n) =~= d.subrange(i, d.len() as int));
        lemma_strided_offset_unit(d, s, i - 1);
        let kk = k as int;
        let ii = inner as int;
        assert(kk / ii == 0 && kk % ii == kk && ii <= first * ii) by (nonlinear_arith)
            requires
                0 <= kk < ii,
                first >= 1,
        ;
        assert(strided_offset(dims, stride, k) == (k / inner) as int * stride[0] + strided_offset(
            d,
            s,
            k % inner,
        ));
        assert(0 * (stride[0] as int) == 0);
    }
}

/// Contiguity is exactly "the elements form one run": a layout without empty axes whose
/// `k`-th row-major element lies `k` places after the start offset, for every `k`, is
/// contiguous, whatever its rank.
pub proof fn lemma_one_run_is_contiguous(dims: Seq<usize>, stride: Seq<usize>)
    requires
        dims.len() == stride.len(),
        forall|i: int| 0 <= i < dims.len() ==> dims[i] >= 1,
        forall|k: nat| k < product(dims) ==> #[trigger] strided_offset(dims, stride, k) == k,
    ensures
        is_row_major(dims, stride),
{
    assert forall|i: int| 0 <= i < dims.len() && dims[i] > 1 implies #[trigger] stride[i] == product(
        dims.subrange(i + 1, dims.len() as int),
    ) by {
        lemma_strided_offset_unit(dims, stride, i);
        let k = product(dims.subrange(i + 1, dims.len() as int));
        assert(strided_offset(dims, stride, k) == k);
    }
}

/// In a one-axis layout, element `c` lies `c * stride[0]` after the start.
pub proof fn lemma_strided_offset_rank1(dims: Seq<usize>, stride: Seq<usize>, c: nat)
    requires
        dims.len() == 1,
        stride.len() == 1,
    ensures
        strided_offset(dims, stride, c) == c * stride[0],
{
    let d = dims.drop_first();
    assert(d.len() == 0);
    assert(product(d) == 1);
    assert(c / 1 == c && c % 1 == 0) by (nonlinear_arith);
    assert(strided_offset(dims, stride, c) == (c / 1) as int * stride[0] + strided_offset(
        d,
        stride.drop_first(),
        c % 1,
    ));
}

/// In a two-axis layout, element `(b, c)` lies `b * stride[0] + c * stride[1]` after the
/// start.
pub proof fn lemma_strided_offset_rank2(dims: Seq<usize>, stride: Seq<usize>, b: nat, c: nat)
    requires
        dims.len() == 2,
        stride.len() == 2,
        b < dims[0],
        c < dims[1],
    ensures
        strided_offset(dims, stride, (b * dims[1] + c) as nat) == b * stride[0] + c * stride[1],
{
    let d = dims.drop_first();
    let s = stride.drop_first();
    let n1 = dims[1] as int;
    assert(d.drop_first().len() == 0);
    assert(d[0] == n1);
    assert(product(d.drop_first()) == 1);
    assert(product(d) == n1 * product(d.drop_first()));
    assert(product(d) == n1);
    let x = b * n1 + c;
    vstd::arithmetic::div_mod::lemma_fundamental_div_mod_converse(x, n1, b as int, c as int);
    lemma_strided_offset_rank1(d, s, c);
    assert(strided_offset(dims, stride, (b * dims[1] + c) as nat) == (x / n1) * stride[0]
        + strided_offset(d, s, (x % n1) as nat));
}

/// In a three-axis layout, element `(a, b, c)` lies
/// `a * stride[0] + b * stride[1] + c * stride[2]` after the start.
pub proof fn lemma_strided_offset_rank3(
    dims: Seq<usize>,
    stride: Seq<usize>,
    a: nat,
    b: nat,
    c: nat,
)
    requires
        dims.len() == 3,
        stride.len() == 3,
        a < dims[0],
        b < dims[1],
        c < dims[2],
    ensures
        strided_offset(dims, stride, ((a * dims[1] + b) * dims[2] + c) as nat) == a * stride[0] + b
            * stride[1] + c * stride[2],
{
    let d = dims.drop_first();
    let s = stride.drop_first();
    let n1 = dims[1] as int;
    let n2 = dims[2] as int;
    assert(d[0] == n1 && d[1] == n2);
    let dd = d.drop_first();
    assert(dd.drop_first().len() == 0);
    assert(dd[0] == n2);
    assert(product(dd.drop_first()) == 1);
    assert(product(dd) == n2 * product(dd.drop_first()));
    assert(product(d) == n1 * product(dd));
    let inner = n1 * n2;
    assert(product(d) == inner);
    let rest = b * n2 + c;
    let x = (a * n1 + b) * n2 + c;
    assert(x == a * inner + rest && 0 <= rest < inner) by (nonlinear_arith)
        requires
            x == (a * n1 + b) * n2 + c,
            inner == n1 * n2,
            rest == b * n2 + c,
            0 <= b < n1,
            0 <= c < n2,
            a >= 0,
    ;
    vstd::arithmetic::div_mod::lemma_fundamental_div_mod_converse(x, inner, a as int, rest);
    lemma_strided_offset_rank2(d, s, b, c);
    assert(strided_offset(dims, stride, x as nat) == (x / inner) * stride[0] + strided_offset(
        d,
        s,
        (x % inner) as nat,
    ));
}

/// Where a tensor's elements lie in its buffer: element `(i0, .., ik)` is at
/// `start_offset + i0 * stride[0] + .. + ik * stride[k]`.
#[derive(Debug, Clone)]
pub struct Layout {
    pub dims: Vec<usize>,
    pub stride: Vec<usize>,
    pub start_offset: usize,
}

impl Layout {
    /// A layout whose dimensions and strides have one entry each per axis and whose
    /// element count, and every product of consecutive dimensions, fits in a `usize`.
    pub open spec fn wf(&self) -> bool {
        &&& self.dims@.len() == self.stride@.len()
        &&& products_fit(self.dims@)
    }

    pub open spec fn spec_elem_count(&self) -> nat {
        product(self.dims@)
    }

    pub open spec fn spec_is_contiguous(&self) -> bool {
        is_row_major(self.dims@, self.stride@)
    }

    pub fn dims(&self) -> (r: &[usize])
        ensures
            r@ == self.dims@,
    {
        self.dims.as_slice()
    }

    pub fn stride(&self) -> (r: &[usize])
        ensures
            r@ == self.stride@,
    {
        self.stride.as_slice()
    }

    pub fn start_offset(&self) -> (r: usize)
        ensures
            r == self.start_offset,
    {
        self.start_offset
    }

    /// The number of elements: the product of the dimensions.
    pub fn elem_count(&self) -> (r: usize)
        requires
            self.wf(),
        ensures
            r == self.spec_elem_count(),
    {
        let r = prefix_product(self.dims.as_slice(), self.dims.len());
        assert(self.dims@.subrange(0, self.dims@.len() as int) =~= self.dims@);
        r
    }

    /// Whether the elements lie in row-major order with no gaps.
    pub fn is_contiguous(&self) -> (r: bool)
        requires
            self.wf(),
        ensures
            r == self.spec_is_contiguous(),
    {
        let dims = self.dims.as_slice();
        let stride = self.stride.as_slice();
        let n = dims.len();
        if n != stride.len() {
            return false;
        }
        let mut acc: usize = 1;
        let mut i: usize = n;
        assert(dims@.subrange(n as int, n as int) =~= Seq::<usize>::empty());
        while i > 0
            invariant
                i <= n,
                n == dims@.len(),
                n == stride@.len(),
                dims@ == self.dims@,
                stride@ == self.stride@,
                products_fit(dims@),
                acc == product(dims@.subrange(i as int, n as int)),
                forall|j: int|
                    i <= j < n && dims@[j] > 1 ==> #[trigger] stride@[j] == product(
                        dims@.subrange(j + 1, n as int),
                    ),
            decreases i,
        {
            let d = dims[i - 1];
            if d > 1 && stride[i - 1] != acc {
                assert(dims@[i - 1] > 1 && stride@[i - 1] != product(
                    dims@.subrange(i as int, n as int),
                ));
                assert(dims@ == self.dims@ && stride@ == self.stride@);
                assert(!is_row_major(dims@, stride@));
                return false;
            }
            proof {
                lemma_product_extend_left(dims@, i - 1, n as int);
                assert(product(dims@.subrange(i - 1, n as int)) <= usize::MAX);
            }
            acc = d * acc;
            i -= 1;
        }
        true
    }
}

/// The words that describe a layout to the strided kernels: its dimensions, then its
/// strides, each cut to 32 bits.
pub open spec fn meta_words(dims: Seq<usize>, stride: Seq<usize>) -> Seq<u32> {
    dims.map_values(|d: usize| d as u32) + stride.map_values(|s: usize| s as u32)
}

/// The dimensions then the strides of `layout`, each cut to 32 bits.
pub fn layout_meta_words(layout: &Layout) -> (r: Vec<u32>)
    ensures
        r@ == meta_words(layout.dims@, layout.stride@),
{
    let mut out: Vec<u32> = Vec::new();
    let mut i: usize = 0;
    while i < layout.dims.len()
        invariant
            i <= layout.dims@.len(),
            out@ == layout.dims@.take(i as int).map_values(|d: usize| d as u32),
        decreases layout.dims@.len() - i,
    {
        out.push(layout.dims[i] as u32);
        i += 1;
        assert(out@ =~= layout.dims@.take(i as int).map_values(|d: usize| d as u32));
    }
    let mut k: usize = 0;
    assert(layout.dims@.take(layout.dims@.len() as int) =~= layout.dims@);
    while k < layout.stride.len()
        invariant
            k <= layout.stride@.len(),
            out@ == layout.dims@.map_values(|d: usize| d as u32) + layout.stride@.take(
                k as int,
            ).map_values(|s: usize| s as u32),
        decreases layout.stride@.len() - k,
    {
        out.push(layout.stride[k] as u32);
        k += 1;
        assert(out@ =~= layout.dims@.map_values(|d: usize| d as u32) + layout.stride@.take(
            k as int,
        ).map_values(|s: usize| s as u32));
    }
    assert(layout.stride@.take(layout.stride@.len() as int) =~= layout.stride@);
    out
}

/// The bytes of the layout description that the strided kernels read: the words of
/// `layout_meta_words`, little-endian.
pub fn layout_meta_bytes(layout: &Layout) -> (r: Vec<u8>)
    ensures
        r@ == encode_seq(meta_words(layout.dims@, layout.stride@)),
{
    let words = layout_meta_words(layout);
    encode_all(words.as_slice())
}

/// The strided kernels read the layout description back as written: reading the `2 * rank`
/// words of its bytes gives word `d` as dimension `d` and word `rank + d` as stride `d`, each
/// cut to 32 bits.
pub proof fn lemma_meta_roundtrip(layout: &Layout)
    requires
        layout.dims@.len() == layout.stride@.len(),
    ensures
        ({
            let rank = layout.dims@.len();
            let words = decode_seq::<u32>(
                encode_seq(meta_words(layout.dims@, layout.stride@)),
                2 * rank,
            );
            &&& words.len() == 2 * rank
            &&& forall|d: int| 0 <= d < rank ==> #[trigger] words[d] == layout.dims@[d] as u32
            &&& forall|d: int| 0 <= d < rank ==> #[trigger] words[rank + d] == layout.stride@[d] as u32
        }),
{
    let w = meta_words(layout.dims@, layout.stride@);
    lemma_decode_encode(w);
    assert(w.len() == 2 * layout.dims@.len());
}

} // verus!
