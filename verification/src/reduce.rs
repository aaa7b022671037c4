use vstd::prelude::*;

verus! {

/// Reductions over some axes of a tensor.
#[derive(Debug, Clone, Copy, PartialEq, Eq, Structural, Hash)]
pub enum ReduceOp {
    Sum,
    Min,
    Max,
    ArgMin,
    ArgMax,
}

/// Each element smaller than every later one.
pub open spec fn strictly_increasing(s: Seq<usize>) -> bool {
    forall|i: int, j: int| 0 <= i < j < s.len() ==> s[i] < s[j]
}

/// The axes that `sum_dims` names, each once, are exactly the last ones of a tensor of rank
/// `rank`, and there is at least one.
pub open spec fn is_trailing(rank: nat, sum_dims: Seq<usize>) -> bool {
    let n = sum_dims.to_set().len();
    &&& sum_dims.len() > 0
    &&& forall|x: usize| #[trigger] sum_dims.contains(x) <==> rank - n <= x < rank
}

/// The distinct elements of `s` in increasing order.
pub fn sorted_distinct(s: &[usize]) -> (r: Vec<usize>)
    ensures
        strictly_increasing(r@),
        forall|x: usize| r@.contains(x) <==> s@.contains(x),
{
    let mut u: Vec<usize> = Vec::new();
    let mut i: usize = 0;
    while i < s.len()
        invariant
            i <= s@.len(),
            strictly_increasing(u@),
            forall|x: usize| u@.contains(x) <==> s@.take(i as int).contains(x),
        decreases s@.len() - i,
    {
        let x = s[i];
        let mut p: usize = 0;
        while p < u.len() && u[p] < x
            invariant
                p <= u@.len(),
                forall|j: int| 0 <= j < p ==> u@[j] < x,
            decreases u@.len() - p,
        {
            p += 1;
        }
        let ghost before = u@;
        if p < u.len() && u[p] == x {
        } else {
            u.insert(p, x);
            proof {
                assert forall|a: int, b: int| 0 <= a < b < u@.len() implies u@[a] < u@[b] by {
                    if b < p {
                        assert(u@[a] == before[a] && u@[b] == before[b]);
                    } else if b == p {
                        assert(u@[a] == before[a]);
                    } else if a < p {
                        assert(u@[a] == before[a] && u@[b] == before[b - 1]);
                        assert(before[b - 1] >= x);
                    } else if a == p {
                        assert(u@[b] == before[b - 1]);
                        assert(before[p as int] > x);
                    } else {
                        assert(u@[a] == before[a - 1] && u@[b] == before[b - 1]);
                    }
                }
            }
        }
        proof {
            let t = s@.take(i + 1);
            assert(t =~= s@.take(i as int).push(x));
            assert forall|y: usize| u@.contains(y) <==> t.contains(y) by {
                if u@.contains(y) {
                    let k = choose|k: int| 0 <= k < u@.len() && u@[k] == y;
                    if y != x {
                        if before =~= u@ {
                            assert(before.contains(y));
                        } else {
                            if k < p {
                                assert(before[k] == y);
                            } else {
                                assert(before[k - 1] == y);
                            }
                            assert(before.contains(y));
                        }
                        assert(s@.take(i as int).contains(y));
                        let m = choose|m: int| 0 <= m < i && s@.take(i as int)[m] == y;
                        assert(t[m] == y);
                    } else {
                        assert(t[i as int] == y);
                    }
                }
                if t.contains(y) {
                    let m = choose|m: int| 0 <= m < t.len() && t[m] == y;
                    if m < i {
                        assert(s@.take(i as int)[m] == y);
                        assert(before.contains(y));
                        let k = choose|k: int| 0 <= k < before.len() && before[k] == y;
                        if before =~= u@ {
                        } else if k < p {
                            assert(u@[k] == y);
                        } else {
                            assert(u@[k + 1] == y);
                        }
                    } else {
                        if before =~= u@ {
                            assert(u@[p as int] == y);
                        } else {
                            assert(u@[p as int] == y);
                        }
                    }
                }
            }
        }
        i += 1;
    }
    assert(s@.take(s@.len() as int) =~= s@);
    u
}

/// For a strictly increasing sequence `u` of `n` axes of a tensor of rank `rank`: `u` lists
/// the last `n` axes exactly when every entry is its position past `rank - n`.
proof fn lemma_trailing_positions(u: Seq<usize>, rank: nat)
    requires
        strictly_increasing(u),
        0 < u.len() <= rank,
    ensures
        (forall|i: int| 0 <= i < u.len() ==> #[trigger] u[i] == rank - u.len() + i) <==> (forall|
            x: usize,
        | #[trigger] u.contains(x) <==> rank - u.len() <= x < rank),
{
    let n = u.len();
    let k = rank - n;
    if forall|i: int| 0 <= i < n ==> #[trigger] u[i] == k + i {
        assert forall|x: usize| #[trigger] u.contains(x) <==> k <= x < rank by {
            if k <= x < rank {
                assert(u[x - k] == x);
            }
        }
    }
    if forall|x: usize| #[trigger] u.contains(x) <==> k <= x < rank {
        assert(u.contains(u[0]));
        assert(u.contains(u[n - 1]));
        assert(u.contains(k as usize)) by {
            assert(k <= k < rank);
        }
        lemma_interval_positions(u, k, rank, (n - 1) as nat);
    }
}

proof fn lemma_interval_positions(u: Seq<usize>, k: int, rank: nat, m: nat)
    requires
        strictly_increasing(u),
        0 < u.len() <= rank,
        k == rank - u.len(),
        m < u.len(),
        forall|x: usize| #[trigger] u.contains(x) <==> k <= x < rank,
    ensures
        forall|i: int| 0 <= i <= m ==> #[trigger] u[i] == k + i,
    decreases m,
{
    assert(u.contains(u[m as int]));
    if m == 0 {
        assert(u.contains(k as usize)) by {
            assert(k <= k < rank);
        }
        let j = choose|j: int| 0 <= j < u.len() && u[j] == k;
        assert(u.contains(u[0]));
    } else {
        lemma_interval_positions(u, k, rank, (m - 1) as nat);
        let prev = u[m - 1];
        assert(prev == k + m - 1);
        assert(u[m as int] > prev);
        assert(u.contains(u[m as int]));
        assert(u[m as int] < rank);
        let target = (k + m) as usize;
        assert(u.contains(target));
        let j = choose|j: int| 0 <= j < u.len() && u[j] == target;
        if j < m {
            assert(u[j] <= prev) by {
                if j < m - 1 {
                    assert(u[j] < u[m - 1]);
                }
            }
        } else if j > m {
            assert(u[m as int] < u[j]);
        }
    }
}

/// Checks whether the dimensions in `sum_dims` are the trailing dimensions of a tensor of
/// rank `rank`: there is at least one, and the distinct ones are the last axes.
pub fn is_trailing_reduction(rank: usize, sum_dims: &[usize]) -> (r: bool)
    requires
        sum_dims@.to_set().len() <= rank,
    ensures
        r == is_trailing(rank as nat, sum_dims@),
{
    if sum_dims.len() == 0 {
        return false;
    }
    let sorted = sorted_distinct(sum_dims);
    let n = sorted.len();
    proof {
        assert(sorted@.to_set() =~= sum_dims@.to_set());
        assert(sorted@.no_duplicates()) by {
            assert forall|i: int, j: int|
                0 <= i < sorted@.len() && 0 <= j < sorted@.len() && i != j implies sorted@[i]
                != sorted@[j] by {
                if j < i {
                    assert(sorted@[j] < sorted@[i]);
                }
            }
        }
        sorted@.unique_seq_to_set();
        assert(sum_dims@.contains(sum_dims@[0]));
        assert(sorted@.contains(sum_dims@[0]));
        lemma_trailing_positions(sorted@, rank as nat);
        assert(is_trailing(rank as nat, sum_dims@) <==> (forall|x: usize| #[trigger]
            sorted@.contains(x) <==> rank - n <= x < rank)) by {
            if is_trailing(rank as nat, sum_dims@) {
                assert forall|x: usize| #[trigger] sorted@.contains(x) <==> rank - n <= x < rank by {
                    assert(sum_dims@.contains(x) <==> sorted@.contains(x));
                }
            }
            if forall|x: usize| #[trigger] sorted@.contains(x) <==> rank - n <= x < rank {
                assert forall|x: usize| #[trigger] sum_dims@.contains(x) <==> rank - n <= x < rank by {
                    assert(sum_dims@.contains(x) <==> sorted@.contains(x));
                }
            }
        }
    }
    let mut i: usize = 0;
    while i < n
        invariant
            i <= n,
            n == sorted@.len(),
            n <= rank,
            forall|j: int| 0 <= j < i ==> #[trigger] sorted@[j] == rank - n + j,
            is_trailing(rank as nat, sum_dims@) <==> (forall|j: int|
                0 <= j < n ==> #[trigger] sorted@[j] == rank - n + j),
        decreases n - i,
    {
        if sorted[i] != rank - n + i {
            return false;
        }
        i += 1;
    }
    true
}

} // verus!
