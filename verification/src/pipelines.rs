use vstd::prelude::*;
use vstd::string::StringExecFns;

use crate::source::Source;
use crate::text::str_eq;

verus! {

/// A compiled pipeline, with the source file and the entry point it was compiled from.
pub struct CacheEntry<P> {
    pub source: Source,
    pub entry_point: String,
    pub pipeline: P,
}

impl<P> CacheEntry<P> {
    pub open spec fn key(&self) -> (Source, Seq<char>) {
        (self.source, self.entry_point@)
    }
}

/// The pipelines that `entries` hold by key; a later entry overrides an earlier one.
pub open spec fn entries_map<P>(entries: Seq<CacheEntry<P>>) -> Map<(Source, Seq<char>), P>
    decreases entries.len(),
{
    if entries.len() == 0 {
        Map::empty()
    } else {
        entries_map(entries.drop_last()).insert(entries.last().key(), entries.last().pipeline)
    }
}

/// No two entries share a key.
pub open spec fn distinct_keys<P>(entries: Seq<CacheEntry<P>>) -> bool {
    forall|i: int, j: int|
        0 <= i < j < entries.len() ==> #[trigger] entries[i].key() != #[trigger] entries[j].key()
}

proof fn lemma_entries_map_contains<P>(entries: Seq<CacheEntry<P>>, k: (Source, Seq<char>))
    ensures
        entries_map(entries).contains_key(k) <==> exists|i: int|
            0 <= i < entries.len() && #[trigger] entries[i].key() == k,
    decreases entries.len(),
{
    if entries.len() > 0 {
        let p = entries.drop_last();
        lemma_entries_map_contains(p, k);
        if entries_map(entries).contains_key(k) {
            if entries.last().key() == k {
                assert(entries[entries.len() - 1].key() == k);
            } else {
                let i = choose|i: int| 0 <= i < p.len() && #[trigger] p[i].key() == k;
                assert(entries[i].key() == k);
            }
        }
        if exists|i: int| 0 <= i < entries.len() && #[trigger] entries[i].key() == k {
            let i = choose|i: int| 0 <= i < entries.len() && #[trigger] entries[i].key() == k;
            if i < entries.len() - 1 {
                assert(p[i].key() == k);
            }
        }
    }
}

proof fn lemma_entries_map_index<P>(entries: Seq<CacheEntry<P>>, i: int)
    requires
        distinct_keys(entries),
        0 <= i < entries.len(),
    ensures
        entries_map(entries).contains_key(entries[i].key()),
        entries_map(entries)[entries[i].key()] == entries[i].pipeline,
    decreases entries.len(),
{
    let p = entries.drop_last();
    if i < entries.len() - 1 {
        assert(distinct_keys(p)) by {
            assert forall|a: int, b: int| 0 <= a < b < p.len() implies #[trigger] p[a].key()
                != #[trigger] p[b].key() by {
                assert(entries[a].key() != entries[b].key());
            }
        }
        assert(p[i] == entries[i]);
        lemma_entries_map_index(p, i);
        assert(entries[i].key() != entries[entries.len() - 1].key());
    }
}

proof fn lemma_entries_map_update<P>(entries: Seq<CacheEntry<P>>, i: int, e: CacheEntry<P>)
    requires
        distinct_keys(entries),
        0 <= i < entries.len(),
        e.key() == entries[i].key(),
    ensures
        distinct_keys(entries.update(i, e)),
        entries_map(entries.update(i, e)) == entries_map(entries).insert(e.key(), e.pipeline),
    decreases entries.len(),
{
    let u = entries.update(i, e);
    assert(distinct_keys(u)) by {
        assert forall|a: int, b: int| 0 <= a < b < u.len() implies #[trigger] u[a].key()
            != #[trigger] u[b].key() by {
            assert(entries[a].key() != entries[b].key());
        }
    }
    let p = entries.drop_last();
    let n = entries.len() - 1;
    if i == n {
        assert(u.drop_last() =~= p);
        assert(entries_map(u) =~= entries_map(entries).insert(e.key(), e.pipeline));
    } else {
        assert(distinct_keys(p)) by {
            assert forall|a: int, b: int| 0 <= a < b < p.len() implies #[trigger] p[a].key()
                != #[trigger] p[b].key() by {
                assert(entries[a].key() != entries[b].key());
            }
        }
        lemma_entries_map_update(p, i, e);
        assert(u.drop_last() =~= p.update(i, e));
        assert(u.last() == entries.last());
        assert(entries[i].key() != entries[n].key());
        assert(entries_map(u) =~= entries_map(entries).insert(e.key(), e.pipeline));
    }
}

/// The lowercase hexadecimal digit for `d`, which is below 16.
pub open spec fn hex_digit(d: nat) -> char {
    if d < 10 {
        (48 + d) as char
    } else {
        (87 + d) as char
    }
}

/// The lowercase hexadecimal text of `n`, without leading zeros ("0" for zero).
pub open spec fn hex_text(n: nat) -> Seq<char>
    decreases n,
{
    if n < 16 {
        seq![hex_digit(n)]
    } else {
        hex_text(n / 16) + seq![hex_digit(n % 16)]
    }
}

/// No hexadecimal text holds an underscore.
proof fn lemma_hex_text_no_underscore(n: nat)
    ensures
        forall|i: int| 0 <= i < hex_text(n).len() ==> hex_text(n)[i] != '_',
    decreases n,
{
    let d = n % 16;
    assert(hex_digit(d) != '_') by {
        if d < 10 {
            assert((48 + d) as char as int == 48 + d);
        } else {
            assert((87 + d) as char as int == 87 + d);
        }
    }
    if n >= 16 {
        lemma_hex_text_no_underscore(n / 16);
        let p = hex_text(n / 16);
        assert forall|i: int| 0 <= i < hex_text(n).len() implies hex_text(n)[i] != '_' by {
            if i < p.len() {
                assert(hex_text(n)[i] == p[i]);
            }
        }
    } else {
        assert(hex_text(n)[0] == hex_digit(d));
    }
}

/// Distinct numbers have distinct hexadecimal texts.
proof fn lemma_hex_text_injective(a: nat, b: nat)
    requires
        hex_text(a) == hex_text(b),
    ensures
        a == b,
    decreases a + b,
{
    if a >= 16 && b >= 16 {
        let ta = hex_text(a);
        let tb = hex_text(b);
        assert(ta.drop_last() == hex_text(a / 16));
        assert(tb.drop_last() == hex_text(b / 16));
        lemma_hex_text_injective(a / 16, b / 16);
        assert(ta.last() == hex_digit(a % 16));
        assert(tb.last() == hex_digit(b % 16));
    } else if a >= 16 {
        assert(hex_text(a).len() == hex_text(a / 16).len() + 1);
        assert(hex_text(a / 16).len() >= 1) by {
            reveal_with_fuel(hex_text, 2);
        }
    } else if b >= 16 {
        assert(hex_text(b).len() == hex_text(b / 16).len() + 1);
        assert(hex_text(b / 16).len() >= 1) by {
            reveal_with_fuel(hex_text, 2);
        }
    } else {
        assert(hex_text(a)[0] == hex_digit(a));
        assert(hex_text(b)[0] == hex_digit(b));
    }
}

/// The one-character text of the hexadecimal digit `d`.
fn hex_digit_str(d: u64) -> (r: &'static str)
    requires
        d < 16,
    ensures
        r@ == seq![hex_digit(d as nat)],
{
    proof {
        reveal_strlit("0");
        reveal_strlit("1");
        reveal_strlit("2");
        reveal_strlit("3");
        reveal_strlit("4");
        reveal_strlit("5");
        reveal_strlit("6");
        reveal_strlit("7");
        reveal_strlit("8");
        reveal_strlit("9");
        reveal_strlit("a");
        reveal_strlit("b");
        reveal_strlit("c");
        reveal_strlit("d");
        reveal_strlit("e");
        reveal_strlit("f");
    }
    match d {
        0 => "0",
        1 => "1",
        2 => "2",
        3 => "3",
        4 => "4",
        5 => "5",
        6 => "6",
        7 => "7",
        8 => "8",
        9 => "9",
        10 => "a",
        11 => "b",
        12 => "c",
        13 => "d",
        14 => "e",
        _ => "f",
    }
}

/// Appends the hexadecimal text of `n` to `s`.
fn append_hex(s: &mut String, n: u64)
    ensures
        final(s)@ == old(s)@ + hex_text(n as nat),
    decreases n,
{
    if n >= 16 {
        append_hex(s, n / 16);
    }
    s.append(hex_digit_str(n % 16));
    assert(hex_text(n as nat) =~= if n < 16 {
        seq![hex_digit(n as nat)]
    } else {
        hex_text((n / 16) as nat) + seq![hex_digit((n % 16) as nat)]
    });
}

/// The cache entry point under which a pipeline built from HLSL given at run time is kept:
/// `triton_`, the entry point, `_`, and the source's hash in lowercase hexadecimal.
pub open spec fn hlsl_key(entry_point: Seq<char>, source_hash: u64) -> Seq<char> {
    "triton_"@ + entry_point + "_"@ + hex_text(source_hash as nat)
}

/// The cache entry point under which a pipeline built from HLSL given at run time is kept:
/// `triton_`, the entry point, `_`, and the source's hash in lowercase hexadecimal.
pub fn hlsl_cache_key(entry_point: &str, source_hash: u64) -> (r: String)
    ensures
        r@ == hlsl_key(entry_point@, source_hash),
{
    let mut key = String::from_str("triton_");
    key.append(entry_point);
    key.append("_");
    append_hex(&mut key, source_hash);
    key
}

/// HLSL given at run time is cached by its entry point and source hash: two keys are equal
/// only for the same entry point and the same hash.
pub proof fn lemma_hlsl_keys_distinct(e1: Seq<char>, h1: u64, e2: Seq<char>, h2: u64)
    requires
        hlsl_key(e1, h1) == hlsl_key(e2, h2),
    ensures
        e1 == e2,
        h1 == h2,
{
    reveal_strlit("triton_");
    reveal_strlit("_");
    let x1 = hex_text(h1 as nat);
    let x2 = hex_text(h2 as nat);
    let k = hlsl_key(e1, h1);
    let n = k.len() as int;
    lemma_hex_text_no_underscore(h1 as nat);
    lemma_hex_text_no_underscore(h2 as nat);
    assert(k == "triton_"@ + e1 + "_"@ + x1);
    assert(k == "triton_"@ + e2 + "_"@ + x2);
    if x1.len() < x2.len() {
        let j = n - 1 - x1.len();
        assert(k[j] == '_');
        assert(k[j] == x2[j - (n - x2.len())]);
    } else if x2.len() < x1.len() {
        let j = n - 1 - x2.len();
        assert(k[j] == '_');
        assert(k[j] == x1[j - (n - x1.len())]);
    }
    assert(x1.len() == x2.len());
    assert(e1.len() == e2.len());
    assert(e1 =~= k.subrange(7, 7 + e1.len() as int));
    assert(e2 =~= k.subrange(7, 7 + e2.len() as int));
    assert(x1 =~= k.subrange(n - x1.len(), n));
    assert(x2 =~= k.subrange(n - x2.len(), n));
    lemma_hex_text_injective(h1 as nat, h2 as nat);
}

/// Pipeline cache: maps (source, entry point) to a compiled pipeline.
pub struct PipelineCache<P> {
    entries: Vec<CacheEntry<P>>,
}

impl<P> View for PipelineCache<P> {
    type V = Map<(Source, Seq<char>), P>;

    closed spec fn view(&self) -> Map<(Source, Seq<char>), P> {
        entries_map(self.entries@)
    }
}

impl<P> PipelineCache<P> {
    /// The cache holds each key at most once.
    pub closed spec fn wf(&self) -> bool {
        distinct_keys(self.entries@)
    }

    /// An empty cache.
    pub fn new() -> (r: Self)
        ensures
            r.wf(),
            r@ == Map::<(Source, Seq<char>), P>::empty(),
    {
        PipelineCache { entries: Vec::new() }
    }

    /// The position of the entry for (`source`, `entry_point`), if the cache holds one.
    fn position(&self, source: Source, entry_point: &str) -> (r: Option<usize>)
        ensures
            r matches Some(i) ==> i < self.entries@.len() && self.entries@[i as int].key() == (
                source,
                entry_point@,
            ),
            r is None ==> forall|i: int|
                0 <= i < self.entries@.len() ==> #[trigger] self.entries@[i].key() != (
                    source,
                    entry_point@,
                ),
    {
        let mut i: usize = 0;
        while i < self.entries.len()
            invariant
                i <= self.entries@.len(),
                forall|j: int|
                    0 <= j < i ==> #[trigger] self.entries@[j].key() != (source, entry_point@),
            decreases self.entries@.len() - i,
        {
            let e = &self.entries[i];
            if e.source == source && str_eq(e.entry_point.as_str(), entry_point) {
                return Some(i);
            }
            i += 1;
        }
        None
    }

    /// The pipeline cached for (`source`, `entry_point`), if any.
    pub fn get(&self, source: Source, entry_point: &str) -> (r: Option<&P>)
        requires
            self.wf(),
        ensures
            r is Some <==> self@.contains_key((source, entry_point@)),
            r matches Some(p) ==> *p == self@[(source, entry_point@)],
    {
        proof {
            lemma_entries_map_contains(self.entries@, (source, entry_point@));
        }
        match self.position(source, entry_point) {
            Some(i) => {
                proof {
                    lemma_entries_map_index(self.entries@, i as int);
                }
                Some(&self.entries[i].pipeline)
            },
            None => None,
        }
    }

    /// Caches `pipeline` for (`source`, `entry_point`), replacing any earlier one.
    pub fn insert(&mut self, source: Source, entry_point: &str, pipeline: P)
        requires
            old(self).wf(),
        ensures
            final(self).wf(),
            final(self)@ == old(self)@.insert((source, entry_point@), pipeline),
    {
        let key_text = String::from_str(entry_point);
        let e = CacheEntry { source, entry_point: key_text, pipeline };
        match self.position(source, entry_point) {
            Some(i) => {
                proof {
                    lemma_entries_map_update(self.entries@, i as int, e);
                }
                self.entries.set(i, e);
            },
            None => {
                let ghost before = self.entries@;
                self.entries.push(e);
                proof {
                    assert(self.entries@.drop_last() =~= before);
                    assert forall|a: int, b: int| 0 <= a < b < self.entries@.len() implies
                        #[trigger] self.entries@[a].key() != #[trigger] self.entries@[b].key() by {
                        if b < before.len() {
                            assert(before[a].key() != before[b].key());
                        } else {
                            assert(before[a].key() != (source, entry_point@));
                        }
                    }
                }
            },
        }
    }

    /// The number of cached pipelines.
    pub fn len(&self) -> (r: usize)
        requires
            self.wf(),
        ensures
            r == self@.len(),
    {
        proof {
            lemma_entries_map_len(self.entries@);
        }
        self.entries.len()
    }
}

proof fn lemma_entries_map_len<P>(entries: Seq<CacheEntry<P>>)
    requires
        distinct_keys(entries),
    ensures
        entries_map(entries).dom().finite(),
        entries_map(entries).len() == entries.len(),
    decreases entries.len(),
{
    if entries.len() > 0 {
        let p = entries.drop_last();
        assert(distinct_keys(p)) by {
            assert forall|a: int, b: int| 0 <= a < b < p.len() implies #[trigger] p[a].key()
                != #[trigger] p[b].key() by {
                assert(entries[a].key() != entries[b].key());
            }
        }
        lemma_entries_map_len(p);
        lemma_entries_map_contains(p, entries.last().key());
        if entries_map(p).contains_key(entries.last().key()) {
            let i = choose|i: int| 0 <= i < p.len() && #[trigger] p[i].key() == entries.last().key();
            assert(entries[i].key() != entries[entries.len() - 1].key());
        }
    }
}

/// A cache answers a lookup of the key just stored with the pipeline just stored, and every
/// other lookup as before.
pub proof fn lemma_get_after_insert<P>(
    before: &PipelineCache<P>,
    after: &PipelineCache<P>,
    source: Source,
    entry_point: Seq<char>,
    pipeline: P,
    other: (Source, Seq<char>),
)
    requires
        after@ == before@.insert((source, entry_point), pipeline),
    ensures
        after@.contains_key((source, entry_point)),
        after@[(source, entry_point)] == pipeline,
        other != (source, entry_point) ==> (after@.contains_key(other) <==> before@.contains_key(
            other,
        )),
        other != (source, entry_point) && before@.contains_key(other) ==> after@[other]
            == before@[other],
{
}

} // verus!
