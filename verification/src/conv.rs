use vstd::prelude::*;

verus! {

/// Parameters of a 1D convolution of a (b_size, c_in, l_in) input with a
/// (c_out, c_in, k_size) kernel.
#[derive(Debug, Clone, Copy, PartialEq, Eq, Structural)]
pub struct ParamsConv1D {
    pub b_size: usize,
    pub l_in: usize,
    pub c_out: usize,
    pub c_in: usize,
    pub k_size: usize,
    pub padding: usize,
    pub stride: usize,
    pub dilation: usize,
}

impl ParamsConv1D {
    /// The output length is defined: the stride is positive, the kernel has at least one tap,
    /// the dilated kernel fits in the padded input, and no intermediate overflows.
    pub open spec fn l_out_defined(&self) -> bool {
        &&& self.stride > 0
        &&& self.k_size >= 1
        &&& self.l_in + 2 * self.padding <= usize::MAX
        &&& self.dilation * (self.k_size - 1) <= usize::MAX
        &&& self.l_in + 2 * self.padding >= self.dilation * (self.k_size - 1) + 1
    }

    /// The output length: (l_in + 2 * padding - dilation * (k_size - 1) - 1) / stride + 1.
    pub open spec fn spec_l_out(&self) -> int {
        (self.l_in + 2 * self.padding - self.dilation * (self.k_size - 1) - 1) / (self.stride as int)
            + 1
    }

    /// Output position `o` reads the padded input, of length `l_in + 2 * padding`, from
    /// `o * stride` to `o * stride + dilation * (k_size - 1)`: its window lies inside it.
    pub open spec fn window_fits(&self, o: int) -> bool {
        o * self.stride + self.dilation * (self.k_size - 1) < self.l_in + 2 * self.padding
    }

    /// The output length: (l_in + 2 * padding - dilation * (k_size - 1) - 1) / stride + 1.
    pub fn l_out(&self) -> (r: usize)
        requires
            self.l_out_defined(),
        ensures
            r == self.spec_l_out(),
            r >= 1,
            self.window_fits(r - 1),
            !self.window_fits(r as int),
    {
        proof {
            lemma_l_out_counts_windows(*self);
        }
        let span = self.l_in + 2 * self.padding - self.dilation * (self.k_size - 1) - 1;
        assert(span / self.stride <= span) by (nonlinear_arith)
            requires
                self.stride > 0,
                span >= 0,
        ;
        span / self.stride + 1
    }
}

/// A convolution has one output for each position whose window lies inside the padded input:
/// the windows of outputs `0 .. l_out` fit, and the window of output `l_out` would not.
pub proof fn lemma_l_out_counts_windows(p: ParamsConv1D)
    requires
        p.l_out_defined(),
    ensures
        p.spec_l_out() >= 1,
        forall|o: int| 0 <= o < p.spec_l_out() ==> #[trigger] p.window_fits(o),
        !p.window_fits(p.spec_l_out()),
{
    let s = p.stride as int;
    let span = (p.dilation * (p.k_size - 1)) as int;
    let len = p.l_in + 2 * p.padding;
    let x = len - span - 1;
    let q = x / s;
    let r = x % s;
    assert(x == q * s + r && 0 <= r < s && q >= 0) by (nonlinear_arith)
        requires
            s > 0,
            x >= 0,
            q == x / s,
            r == x % s,
    ;
    assert(p.spec_l_out() == q + 1);
    assert forall|o: int| 0 <= o < p.spec_l_out() implies #[trigger] p.window_fits(o) by {
        assert(o * s <= q * s) by (nonlinear_arith)
            requires
                0 <= o <= q,
                s > 0,
        ;
    }
    assert((q + 1) * s == q * s + s) by (nonlinear_arith);
}

} // verus!
