use vstd::prelude::*;
use vstd::utf8::encode_utf8;

verus! {

/// The length of an adapter description: the characters before the first NUL, or all of them.
pub fn adapter_name_len(description: &[u16]) -> (r: usize)
    ensures
        r <= description@.len(),
        forall|i: int| 0 <= i < r ==> description@[i] != 0,
        r < description@.len() ==> description@[r as int] == 0,
{
    let mut i: usize = 0;
    while i < description.len()
        invariant
            i <= description@.len(),
            forall|j: int| 0 <= j < i ==> description@[j] != 0,
        decreases description@.len() - i,
    {
        if description[i] == 0 {
            return i;
        }
        i += 1;
    }
    i
}

/// Byte-wise lexicographic order: `a` sorts strictly before `b`.
pub open spec fn lex_lt(a: Seq<u8>, b: Seq<u8>) -> bool
    decreases a.len(),
{
    if a.len() == 0 {
        b.len() > 0
    } else if b.len() == 0 {
        false
    } else if a[0] != b[0] {
        a[0] < b[0]
    } else {
        lex_lt(a.drop_first(), b.drop_first())
    }
}

proof fn lemma_lex_lt_transitive(a: Seq<u8>, b: Seq<u8>, c: Seq<u8>)
    requires
        lex_lt(a, b),
        lex_lt(b, c),
    ensures
        lex_lt(a, c),
    decreases a.len(),
{
    if a.len() > 0 && b.len() > 0 && c.len() > 0 && a[0] == b[0] && b[0] == c[0] {
        lemma_lex_lt_transitive(a.drop_first(), b.drop_first(), c.drop_first());
    }
}

proof fn lemma_lex_lt_total(a: Seq<u8>, b: Seq<u8>)
    ensures
        lex_lt(a, b) || lex_lt(b, a) || a == b,
    decreases a.len(),
{
    if a.len() > 0 && b.len() > 0 && a[0] == b[0] {
        lemma_lex_lt_total(a.drop_first(), b.drop_first());
        if a.drop_first() == b.drop_first() {
            assert(a.drop_first().len() == a.len() - 1);
            assert(b.drop_first().len() == b.len() - 1);
            assert(a.len() == b.len());
            assert forall|j: int| 0 <= j < a.len() implies a[j] == b[j] by {
                if j > 0 {
                    assert(a[j] == a.drop_first()[j - 1]);
                    assert(b[j] == b.drop_first()[j - 1]);
                }
            }
            assert(a =~= b);
        }
    } else if a.len() == 0 && b.len() == 0 {
        assert(a =~= b);
    }
}

proof fn lemma_lex_lt_irreflexive(a: Seq<u8>)
    ensures
        !lex_lt(a, a),
    decreases a.len(),
{
    if a.len() > 0 {
        lemma_lex_lt_irreflexive(a.drop_first());
    }
}

/// Whether `a` sorts strictly before `b`, byte by byte.
pub fn bytes_lt(a: &[u8], b: &[u8]) -> (r: bool)
    ensures
        r == lex_lt(a@, b@),
{
    let mut i: usize = 0;
    assert(a@.subrange(0, a@.len() as int) =~= a@);
    assert(b@.subrange(0, b@.len() as int) =~= b@);
    while i < a.len() && i < b.len()
        invariant
            i <= a@.len(),
            i <= b@.len(),
            lex_lt(a@, b@) == lex_lt(
                a@.subrange(i as int, a@.len() as int),
                b@.subrange(i as int, b@.len() as int),
            ),
        decreases a@.len() - i,
    {
        let ghost sa = a@.subrange(i as int, a@.len() as int);
        let ghost sb = b@.subrange(i as int, b@.len() as int);
        assert(sa[0] == a@[i as int] && sb[0] == b@[i as int]);
        if a[i] != b[i] {
            return a[i] < b[i];
        }
        proof {
            assert(sa.drop_first() =~= a@.subrange(i + 1, a@.len() as int));
            assert(sb.drop_first() =~= b@.subrange(i + 1, b@.len() as int));
        }
        i += 1;
    }
    i < b.len()
}

/// A Windows SDK version directory: its name starts with "10.".
pub open spec fn is_sdk_version(name: Seq<u8>) -> bool {
    name.len() >= 3 && name[0] == 0x31 && name[1] == 0x30 && name[2] == 0x2e
}

/// The bytes of a directory name.
pub open spec fn name_bytes(name: &String) -> Seq<u8> {
    encode_utf8(name@)
}

/// The positions of the Windows SDK version directories among `names`, newest first: every
/// name that starts with "10.", once, in descending byte order, equal names in the order given.
pub fn sdk_versions_newest_first(names: &[String]) -> (r: Vec<usize>)
    ensures
        r@.no_duplicates(),
        forall|i: usize|
            #[trigger] r@.contains(i) <==> (i < names@.len() && is_sdk_version(name_bytes(&names@[i as int]))),
        forall|a: int, b: int|
            0 <= a < b < r@.len() ==> !lex_lt(
                name_bytes(&names@[r@[a] as int]),
                name_bytes(&names@[r@[b] as int]),
            ),
        forall|a: int, b: int|
            0 <= a < b < r@.len() && name_bytes(&names@[r@[a] as int]) == name_bytes(
                &names@[r@[b] as int],
            ) ==> r@[a] < r@[b],
{
    let mut r: Vec<usize> = Vec::new();
    let mut i: usize = 0;
    while i < names.len()
        invariant
            i <= names@.len(),
            r@.no_duplicates(),
            forall|k: usize|
                #[trigger] r@.contains(k) <==> (k < i && is_sdk_version(name_bytes(&names@[k as int]))),
            forall|a: int, b: int|
                0 <= a < b < r@.len() ==> !lex_lt(
                    name_bytes(&names@[r@[a] as int]),
                    name_bytes(&names@[r@[b] as int]),
                ),
    forall|a: int, b: int|
                0 <= a < b < r@.len() && name_bytes(&names@[r@[a] as int]) == name_bytes(
                    &names@[r@[b] as int],
                ) ==> r@[a] < r@[b],
        decreases names@.len() - i,
    {
        let name = names[i].as_str().as_bytes();
        assert(name@ == name_bytes(&names@[i as int]));
        if name.len() >= 3 && name[0] == 0x31 && name[1] == 0x30 && name[2] == 0x2e {
            assert forall|j: int| 0 <= j < r@.len() implies #[trigger] r@[j] < i by {
                assert(r@.contains(r@[j]));
            }
            let mut p: usize = 0;
            while p < r.len() && !bytes_lt(names[r[p]].as_str().as_bytes(), name)
                invariant
                    p <= r@.len(),
                    i < names@.len(),
                    name@ == name_bytes(&names@[i as int]),
                    forall|j: int| 0 <= j < r@.len() ==> #[trigger] r@[j] < i,
                    forall|j: int|
                        0 <= j < p ==> !lex_lt(name_bytes(&names@[r@[j] as int]), name@),
                decreases r@.len() - p,
            {
                p += 1;
            }
            let ghost before = r@;
            r.insert(p, i);
            proof {
                assert forall|k: usize| #[trigger] r@.contains(k) <==> (k < i + 1 && is_sdk_version(
                    name_bytes(&names@[k as int]),
                )) by {
                    if r@.contains(k) {
                        let j = choose|j: int| 0 <= j < r@.len() && r@[j] == k;
                        if j < p {
                            assert(before[j] == k);
                            assert(before.contains(k));
                        } else if j > p {
                            assert(before[j - 1] == k);
                            assert(before.contains(k));
                        }
                    }
                    if k < i + 1 && is_sdk_version(name_bytes(&names@[k as int])) {
                        if k == i {
                            assert(r@[p as int] == k);
                        } else {
                            assert(before.contains(k));
                            let j = choose|j: int| 0 <= j < before.len() && before[j] == k;
                            if j < p {
                                assert(r@[j] == k);
                            } else {
                                assert(r@[j + 1] == k);
                            }
                        }
                    }
                }
                assert(r@.no_duplicates()) by {
                    assert forall|a: int, b: int|
                        0 <= a < r@.len() && 0 <= b < r@.len() && a != b implies r@[a] != r@[b] by {
                        if a != p && b != p {
                            let a2 = if a < p { a } else { a - 1 };
                            let b2 = if b < p { b } else { b - 1 };
                            assert(r@[a] == before[a2] && r@[b] == before[b2]);
                        } else if a == p {
                            let b2 = if b < p { b } else { b - 1 };
                            assert(r@[b] == before[b2]);
                            assert(before.contains(before[b2]));
                        } else {
                            let a2 = if a < p { a } else { a - 1 };
                            assert(r@[a] == before[a2]);
                            assert(before.contains(before[a2]));
                        }
                    }
                }
                let nb = name@;
                assert forall|a: int, b: int| 0 <= a < b < r@.len() implies !lex_lt(
                    name_bytes(&names@[r@[a] as int]),
                    name_bytes(&names@[r@[b] as int]),
                ) by {
                    let xa = name_bytes(&names@[r@[a] as int]);
                    let xb = name_bytes(&names@[r@[b] as int]);
                    if b < p {
                        assert(r@[a] == before[a] && r@[b] == before[b]);
                    } else if b == p {
                        assert(r@[a] == before[a]);
                    } else if a < p {
                        assert(r@[a] == before[a] && r@[b] == before[b - 1]);
                        if p < before.len() {
                            let xp = name_bytes(&names@[before[p as int] as int]);
                            if p < b - 1 {
                                assert(!lex_lt(xp, xb));
                            }
                            lemma_lex_lt_total(xp, nb);
                            lemma_lex_lt_total(xa, nb);
                            if lex_lt(xa, xb) {
                                lemma_lex_lt_total(xb, xp);
                                if lex_lt(xb, xp) {
                                    lemma_lex_lt_transitive(xa, xb, xp);
                                    lemma_lex_lt_total(xa, xp);
                                    if lex_lt(xa, nb) {
                                    } else if lex_lt(nb, xa) {
                                        lemma_lex_lt_transitive(xp, nb, xa);
                                        lemma_lex_lt_irreflexive(xa);
                                        lemma_lex_lt_transitive(xa, xp, xa);
                                    }
                                }
                            }
                        }
                    } else if a == p {
                        assert(r@[b] == before[b - 1]);
                        let xp = name_bytes(&names@[before[p as int] as int]);
                        if b - 1 > p {
                            assert(!lex_lt(xp, xb));
                        }
                        lemma_lex_lt_total(xp, nb);
                        lemma_lex_lt_total(xb, xp);
                        if lex_lt(nb, xb) {
                            if lex_lt(xb, xp) {
                                lemma_lex_lt_transitive(nb, xb, xp);
                                lemma_lex_lt_irreflexive(nb);
                                if lex_lt(xp, nb) {
                                    lemma_lex_lt_transitive(nb, xp, nb);
                                }
                            } else if xb == xp {
                                lemma_lex_lt_irreflexive(nb);
                                if lex_lt(xp, nb) {
                                    lemma_lex_lt_transitive(nb, xp, nb);
                                }
                            }
                        }
                    } else {
                        assert(r@[a] == before[a - 1] && r@[b] == before[b - 1]);
                    }
                }
                assert forall|a: int, b: int|
                    0 <= a < b < r@.len() && name_bytes(&names@[r@[a] as int]) == name_bytes(
                        &names@[r@[b] as int],
                    ) implies r@[a] < r@[b] by {
                    let xb = name_bytes(&names@[r@[b] as int]);
                    if b < p {
                        assert(r@[a] == before[a] && r@[b] == before[b]);
                    } else if b == p {
                        assert(r@[a] == before[a]);
                    } else if a < p {
                        assert(r@[a] == before[a] && r@[b] == before[b - 1]);
                    } else if a == p {
                        assert(r@[b] == before[b - 1]);
                        let xp = name_bytes(&names@[before[p as int] as int]);
                        if b - 1 > p {
                            assert(!lex_lt(xp, xb));
                        }
                        lemma_lex_lt_irreflexive(nb);
                    } else {
                        assert(r@[a] == before[a - 1] && r@[b] == before[b - 1]);
                    }
                }
            }
        }
        i += 1;
    }
    r
}

} // verus!
