use vstd::prelude::*;

verus! {

/// A fixed-width value stored as `width()` little-endian bytes.
pub trait LeBytes: Sized + Copy {
    /// Bytes per value.
    spec fn width() -> nat;

    /// The value's little-endian encoding.
    spec fn spec_le_bytes(self) -> Seq<u8>;

    /// The value that a run of `width()` little-endian bytes encodes.
    spec fn spec_from_le(bytes: Seq<u8>) -> Self;

    fn byte_width() -> (w: usize)
        ensures
            w as nat == Self::width(),
            1 <= w <= 8,
    ;

    /// Appends the value's little-endian bytes to `out`.
    fn push_le(&self, out: &mut Vec<u8>)
        ensures
            final(out)@ == old(out)@ + self.spec_le_bytes(),
    ;

    /// Reads the value whose bytes start at `off`.
    fn read_le(data: &[u8], off: usize) -> (r: Self)
        requires
            off + Self::width() <= data@.len(),
        ensures
            r == Self::spec_from_le(data@.subrange(off as int, off + Self::width())),
    ;

    /// Decoding the encoding of a value gives the value back.
    proof fn lemma_le_roundtrip(x: Self)
        ensures
            x.spec_le_bytes().len() == Self::width(),
            Self::spec_from_le(x.spec_le_bytes()) == x,
    ;

    /// Every value takes between one and eight bytes.
    proof fn lemma_width_positive()
        ensures
            1 <= Self::width() <= 8,
    ;
}

/// The little-endian bytes of a sequence of values, one value after the other.
pub open spec fn encode_seq<T: LeBytes>(v: Seq<T>) -> Seq<u8>
    decreases v.len(),
{
    if v.len() == 0 {
        Seq::empty()
    } else {
        encode_seq(v.drop_last()) + v.last().spec_le_bytes()
    }
}

/// The number of whole values of `T` in `len` bytes, at most `count`.
pub open spec fn decoded_len<T: LeBytes>(len: nat, count: nat) -> nat {
    let whole = len / T::width();
    if count <= whole {
        count
    } else {
        whole
    }
}

/// The first `count` whole values of `T` in `data`, or as many as `data` holds.
pub open spec fn decode_seq<T: LeBytes>(data: Seq<u8>, count: nat) -> Seq<T> {
    let w = T::width() as int;
    Seq::new(
        decoded_len::<T>(data.len(), count),
        |j: int| T::spec_from_le(data.subrange(j * w, j * w + w)),
    )
}

proof fn lemma_mul_step(j: int, w: int, n: int)
    requires
        0 <= j < n,
        w >= 1,
    ensures
        0 <= j * w,
        j * w + w <= n * w,
        (n - 1) * w + w == n * w,
        j < n - 1 ==> j * w + w <= (n - 1) * w,
        j == n - 1 ==> j * w == (n - 1) * w,
{
    assert(0 <= j * w) by (nonlinear_arith)
        requires
            0 <= j,
            w >= 1,
    ;
    assert(j * w + w == (j + 1) * w) by (nonlinear_arith);
    assert((j + 1) * w <= n * w) by (nonlinear_arith)
        requires
            j + 1 <= n,
            w >= 1,
    ;
    assert((n - 1) * w + w == n * w) by (nonlinear_arith);
    if j < n - 1 {
        assert((j + 1) * w <= (n - 1) * w) by (nonlinear_arith)
            requires
                j + 1 <= n - 1,
                w >= 1,
        ;
    }
}

/// The encoding of `v` holds `width()` bytes per value, the bytes of value `j` at `j * width()`.
pub proof fn lemma_encode_seq<T: LeBytes>(v: Seq<T>)
    ensures
        encode_seq(v).len() == v.len() * T::width(),
        forall|j: int|
            #![trigger v[j]]
            0 <= j < v.len() ==> encode_seq(v).subrange(
                j * T::width(),
                j * T::width() + T::width(),
            ) == v[j].spec_le_bytes(),
    decreases v.len(),
{
    T::lemma_width_positive();
    let w = T::width() as int;
    if v.len() == 0 {
        assert(v.len() * T::width() == 0) by (nonlinear_arith)
            requires
                v.len() == 0,
        ;
    } else {
        let n = v.len() as int;
        let p = v.drop_last();
        lemma_encode_seq(p);
        T::lemma_le_roundtrip(v.last());
        let e = encode_seq(v);
        assert(e == encode_seq(p) + v.last().spec_le_bytes());
        assert(p.len() * T::width() + T::width() == v.len() * T::width()) by (nonlinear_arith)
            requires
                p.len() + 1 == v.len(),
        ;
        assert forall|j: int| #![trigger v[j]] 0 <= j < v.len() implies e.subrange(j * w, j * w + w)
            == v[j].spec_le_bytes() by {
            lemma_mul_step(j, w, n);
            if j < n - 1 {
                assert(p[j] == v[j]);
                assert(e.subrange(j * w, j * w + w) =~= encode_seq(p).subrange(j * w, j * w + w));
            } else {
                assert(e.subrange(j * w, j * w + w) =~= v.last().spec_le_bytes());
            }
        }
    }
}

/// Decoding the encoding of `v`, `v.len()` values, gives `v` back.
pub proof fn lemma_decode_encode<T: LeBytes>(v: Seq<T>)
    ensures
        decode_seq::<T>(encode_seq(v), v.len()) == v,
{
    T::lemma_width_positive();
    lemma_encode_seq(v);
    let e = encode_seq(v);
    let w = T::width();
    assert(e.len() / w == v.len()) by (nonlinear_arith)
        requires
            e.len() == v.len() * w,
            w >= 1,
    ;
    let d = decode_seq::<T>(e, v.len());
    assert forall|j: int| 0 <= j < v.len() implies #[trigger] d[j] == v[j] by {
        T::lemma_le_roundtrip(v[j]);
    }
    assert(d =~= v);
}

/// Appends the little-endian bytes of every value of `v` to `out`.
pub fn push_all_le<T: LeBytes>(v: &[T], out: &mut Vec<u8>)
    ensures
        final(out)@ == old(out)@ + encode_seq(v@),
{
    let ghost start = out@;
    let mut i: usize = 0;
    while i < v.len()
        invariant
            i <= v@.len(),
            out@ == start + encode_seq(v@.take(i as int)),
        decreases v@.len() - i,
    {
        let ghost before = out@;
        v[i].push_le(out);
        proof {
            let t = v@.take(i + 1);
            assert(t.drop_last() =~= v@.take(i as int));
            assert(t.last() == v@[i as int]);
            assert(out@ =~= start + encode_seq(t));
        }
        i += 1;
    }
    assert(v@.take(v@.len() as int) =~= v@);
}

/// The little-endian bytes of every value of `v`, one value after the other.
pub fn encode_all<T: LeBytes>(v: &[T]) -> (r: Vec<u8>)
    ensures
        r@ == encode_seq(v@),
{
    let mut out: Vec<u8> = Vec::new();
    push_all_le(v, &mut out);
    assert(out@ =~= encode_seq(v@));
    out
}

/// The first `count` whole values in `data`, or as many as `data` holds.
pub fn decode_all<T: LeBytes>(data: &[u8], count: usize) -> (r: Vec<T>)
    ensures
        r@ == decode_seq::<T>(data@, count as nat),
{
    proof {
        T::lemma_width_positive();
    }
    let w = T::byte_width();
    let dlen = data.len();
    let whole = dlen / w;
    let n = if count <= whole {
        count
    } else {
        whole
    };
    let ghost target = decode_seq::<T>(data@, count as nat);
    assert(n == target.len());
    let mut out: Vec<T> = Vec::new();
    let mut j: usize = 0;
    while j < n
        invariant
            j <= n,
            dlen == data@.len(),
            n == target.len(),
            n <= data@.len() / (w as nat),
            w as nat == T::width(),
            1 <= w <= 8,
            target == decode_seq::<T>(data@, count as nat),
            out@ == target.take(j as int),
        decreases n - j,
    {
        proof {
            lemma_mul_step(j as int, w as int, n as int);
            assert((n as int) * (w as int) <= data@.len()) by (nonlinear_arith)
                requires
                    n <= data@.len() / (w as nat),
                    w >= 1,
            ;
            assert((j as int) * (w as int) + (w as int) <= data@.len());
        }
        let off = j * w;
        let x = T::read_le(data, off);
        out.push(x);
        proof {
            assert(out@ =~= target.take(j + 1));
        }
        j += 1;
    }
    assert(out@ =~= target);
    out
}

impl LeBytes for u8 {
    open spec fn width() -> nat {
        1
    }

    open spec fn spec_le_bytes(self) -> Seq<u8> {
        seq![self]
    }

    open spec fn spec_from_le(bytes: Seq<u8>) -> u8 {
        bytes[0]
    }

    fn byte_width() -> (w: usize) {
        1
    }

    fn push_le(&self, out: &mut Vec<u8>) {
        out.push(*self);
        assert(out@ =~= old(out)@ + self.spec_le_bytes());
    }

    fn read_le(data: &[u8], off: usize) -> (r: u8) {
        data[off]
    }

    proof fn lemma_le_roundtrip(x: u8) {
        assert(seq![x] =~= x.spec_le_bytes());
    }

    proof fn lemma_width_positive() {
    }
}

impl LeBytes for u16 {
    open spec fn width() -> nat {
        2
    }

    open spec fn spec_le_bytes(self) -> Seq<u8> {
        seq![(self & 0xff) as u8, ((self >> 8u16) & 0xff) as u8]
    }

    open spec fn spec_from_le(bytes: Seq<u8>) -> u16 {
        (bytes[0] as u16) | ((bytes[1] as u16) << 8u16)
    }

    fn byte_width() -> (w: usize) {
        2
    }

    fn push_le(&self, out: &mut Vec<u8>) {
        out.push((*self & 0xff) as u8);
        out.push(((*self >> 8u16) & 0xff) as u8);
        assert(out@ =~= old(out)@ + self.spec_le_bytes());
    }

    fn read_le(data: &[u8], off: usize) -> (r: u16) {
        (data[off] as u16) | ((data[off + 1] as u16) << 8u16)
    }

    proof fn lemma_le_roundtrip(x: u16) {
        let b0: u8 = (x & 0xff) as u8;
        let b1: u8 = ((x >> 8u16) & 0xff) as u8;
        assert((b0 as u16) | ((b1 as u16) << 8u16) == x) by (bit_vector)
            requires
                b0 == (x & 0xff) as u8,
                b1 == ((x >> 8u16) & 0xff) as u8,
        ;
        assert(x.spec_le_bytes() =~= seq![b0, b1]);
    }

    proof fn lemma_width_positive() {
    }
}

impl LeBytes for u32 {
    open spec fn width() -> nat {
        4
    }

    open spec fn spec_le_bytes(self) -> Seq<u8> {
        seq![(self & 0xff) as u8, ((self >> 8u32) & 0xff) as u8, ((self >> 16u32) & 0xff) as u8, ((self >> 24u32) & 0xff) as u8]
    }

    open spec fn spec_from_le(bytes: Seq<u8>) -> u32 {
        (bytes[0] as u32) | ((bytes[1] as u32) << 8u32) | ((bytes[2] as u32) << 16u32) | ((bytes[3] as u32) << 24u32)
    }

    fn byte_width() -> (w: usize) {
        4
    }

    fn push_le(&self, out: &mut Vec<u8>) {
        out.push((*self & 0xff) as u8);
        out.push(((*self >> 8u32) & 0xff) as u8);
        out.push(((*self >> 16u32) & 0xff) as u8);
        out.push(((*self >> 24u32) & 0xff) as u8);
        assert(out@ =~= old(out)@ + self.spec_le_bytes());
    }

    fn read_le(data: &[u8], off: usize) -> (r: u32) {
        (data[off] as u32) | ((data[off + 1] as u32) << 8u32) | ((data[off + 2] as u32) << 16u32) | ((data[off + 3] as u32) << 24u32)
    }

    proof fn lemma_le_roundtrip(x: u32) {
        let b0: u8 = (x & 0xff) as u8;
        let b1: u8 = ((x >> 8u32) & 0xff) as u8;
        let b2: u8 = ((x >> 16u32) & 0xff) as u8;
        let b3: u8 = ((x >> 24u32) & 0xff) as u8;
        assert((b0 as u32) | ((b1 as u32) << 8u32) | ((b2 as u32) << 16u32) | ((b3 as u32) << 24u32) == x) by (bit_vector)
            requires
                b0 == (x & 0xff) as u8,
                b1 == ((x >> 8u32) & 0xff) as u8,
                b2 == ((x >> 16u32) & 0xff) as u8,
                b3 == ((x >> 24u32) & 0xff) as u8,
        ;
        assert(x.spec_le_bytes() =~= seq![b0, b1, b2, b3]);
    }

    proof fn lemma_width_positive() {
    }
}

impl LeBytes for u64 {
    open spec fn width() -> nat {
        8
    }

    open spec fn spec_le_bytes(self) -> Seq<u8> {
        seq![(self & 0xff) as u8, ((self >> 8u64) & 0xff) as u8, ((self >> 16u64) & 0xff) as u8, ((self >> 24u64) & 0xff) as u8, ((self >> 32u64) & 0xff) as u8, ((self >> 40u64) & 0xff) as u8, ((self >> 48u64) & 0xff) as u8, ((self >> 56u64) & 0xff) as u8]
    }

    open spec fn spec_from_le(bytes: Seq<u8>) -> u64 {
        (bytes[0] as u64) | ((bytes[1] as u64) << 8u64) | ((bytes[2] as u64) << 16u64) | ((bytes[3] as u64) << 24u64) | ((bytes[4] as u64) << 32u64) | ((bytes[5] as u64) << 40u64) | ((bytes[6] as u64) << 48u64) | ((bytes[7] as u64) << 56u64)
    }

    fn byte_width() -> (w: usize) {
        8
    }

    fn push_le(&self, out: &mut Vec<u8>) {
        out.push((*self & 0xff) as u8);
        out.push(((*self >> 8u64) & 0xff) as u8);
        out.push(((*self >> 16u64) & 0xff) as u8);
        out.push(((*self >> 24u64) & 0xff) as u8);
        out.push(((*self >> 32u64) & 0xff) as u8);
        out.push(((*self >> 40u64) & 0xff) as u8);
        out.push(((*self >> 48u64) & 0xff) as u8);
        out.push(((*self >> 56u64) & 0xff) as u8);
        assert(out@ =~= old(out)@ + self.spec_le_bytes());
    }

    fn read_le(data: &[u8], off: usize) -> (r: u64) {
        (data[off] as u64) | ((data[off + 1] as u64) << 8u64) | ((data[off + 2] as u64) << 16u64) | ((data[off + 3] as u64) << 24u64) | ((data[off + 4] as u64) << 32u64) | ((data[off + 5] as u64) << 40u64) | ((data[off + 6] as u64) << 48u64) | ((data[off + 7] as u64) << 56u64)
    }

    proof fn lemma_le_roundtrip(x: u64) {
        let b0: u8 = (x & 0xff) as u8;
        let b1: u8 = ((x >> 8u64) & 0xff) as u8;
        let b2: u8 = ((x >> 16u64) & 0xff) as u8;
        let b3: u8 = ((x >> 24u64) & 0xff) as u8;
        let b4: u8 = ((x >> 32u64) & 0xff) as u8;
        let b5: u8 = ((x >> 40u64) & 0xff) as u8;
        let b6: u8 = ((x >> 48u64) & 0xff) as u8;
        let b7: u8 = ((x >> 56u64) & 0xff) as u8;
        assert((b0 as u64) | ((b1 as u64) << 8u64) | ((b2 as u64) << 16u64) | ((b3 as u64) << 24u64) | ((b4 as u64) << 32u64) | ((b5 as u64) << 40u64) | ((b6 as u64) << 48u64) | ((b7 as u64) << 56u64) == x) by (bit_vector)
            requires
                b0 == (x & 0xff) as u8,
                b1 == ((x >> 8u64) & 0xff) as u8,
                b2 == ((x >> 16u64) & 0xff) as u8,
                b3 == ((x >> 24u64) & 0xff) as u8,
                b4 == ((x >> 32u64) & 0xff) as u8,
                b5 == ((x >> 40u64) & 0xff) as u8,
                b6 == ((x >> 48u64) & 0xff) as u8,
                b7 == ((x >> 56u64) & 0xff) as u8,
        ;
        assert(x.spec_le_bytes() =~= seq![b0, b1, b2, b3, b4, b5, b6, b7]);
    }

    proof fn lemma_width_positive() {
    }
}

impl LeBytes for i16 {
    open spec fn width() -> nat {
        2
    }

    /// Two's complement: the bytes of the same bits read as `u16`.
    open spec fn spec_le_bytes(self) -> Seq<u8> {
        (self as u16).spec_le_bytes()
    }

    open spec fn spec_from_le(bytes: Seq<u8>) -> i16 {
        (u16::spec_from_le(bytes)) as i16
    }

    fn byte_width() -> (w: usize) {
        2
    }

    fn push_le(&self, out: &mut Vec<u8>) {
        let bits: u16 = *self as u16;
        bits.push_le(out);
    }

    fn read_le(data: &[u8], off: usize) -> (r: i16) {
        let bits: u16 = u16::read_le(data, off);
        bits as i16
    }

    proof fn lemma_le_roundtrip(x: i16) {
        let bits = x as u16;
        u16::lemma_le_roundtrip(bits);
        assert((bits as i16) == x) by (bit_vector)
            requires
                bits == x as u16,
        ;
    }

    proof fn lemma_width_positive() {
    }
}

impl LeBytes for i32 {
    open spec fn width() -> nat {
        4
    }

    /// Two's complement: the bytes of the same bits read as `u32`.
    open spec fn spec_le_bytes(self) -> Seq<u8> {
        (self as u32).spec_le_bytes()
    }

    open spec fn spec_from_le(bytes: Seq<u8>) -> i32 {
        (u32::spec_from_le(bytes)) as i32
    }

    fn byte_width() -> (w: usize) {
        4
    }

    fn push_le(&self, out: &mut Vec<u8>) {
        let bits: u32 = *self as u32;
        bits.push_le(out);
    }

    fn read_le(data: &[u8], off: usize) -> (r: i32) {
        let bits: u32 = u32::read_le(data, off);
        bits as i32
    }

    proof fn lemma_le_roundtrip(x: i32) {
        let bits = x as u32;
        u32::lemma_le_roundtrip(bits);
        assert((bits as i32) == x) by (bit_vector)
            requires
                bits == x as u32,
        ;
    }

    proof fn lemma_width_positive() {
    }
}

impl LeBytes for i64 {
    open spec fn width() -> nat {
        8
    }

    /// Two's complement: the bytes of the same bits read as `u64`.
    open spec fn spec_le_bytes(self) -> Seq<u8> {
        (self as u64).spec_le_bytes()
    }

    open spec fn spec_from_le(bytes: Seq<u8>) -> i64 {
        (u64::spec_from_le(bytes)) as i64
    }

    fn byte_width() -> (w: usize) {
        8
    }

    fn push_le(&self, out: &mut Vec<u8>) {
        let bits: u64 = *self as u64;
        bits.push_le(out);
    }

    fn read_le(data: &[u8], off: usize) -> (r: i64) {
        let bits: u64 = u64::read_le(data, off);
        bits as i64
    }

    proof fn lemma_le_roundtrip(x: i64) {
        let bits = x as u64;
        u64::lemma_le_roundtrip(bits);
        assert((bits as i64) == x) by (bit_vector)
            requires
                bits == x as u64,
        ;
    }

    proof fn lemma_width_positive() {
    }
}

} // verus!
