//! Little-endian field layout of the packed kernel structures.

use vstd::prelude::*;

verus! {

/// `n` zero bytes.
pub open spec fn zeros(n: nat) -> Seq<u8> {
    Seq::new(n, |_i: int| 0u8)
}

/// `s` with the bytes from `off` on overwritten by `t`.
pub open spec fn splice(s: Seq<u8>, off: int, t: Seq<u8>) -> Seq<u8> {
    s.take(off) + t + s.skip(off + t.len())
}

/// The first `n` bytes of `s`, padded with zeros when `s` is shorter: what a
/// fixed-size byte field of `n` bytes holds after `s` was copied into it.
pub open spec fn fixed_field(s: Seq<u8>, n: nat) -> Seq<u8> {
    if s.len() >= n {
        s.take(n as int)
    } else {
        s + zeros((n - s.len()) as nat)
    }
}

/// Little-endian bytes of a `u16`.
pub open spec fn le16(x: u16) -> Seq<u8> {
    seq![(x & 0xff) as u8, (x >> 8u16) as u8]
}

/// Little-endian bytes of a `u32`.
pub open spec fn le32(x: u32) -> Seq<u8> {
    seq![
        (x & 0xff) as u8,
        ((x >> 8u32) & 0xff) as u8,
        ((x >> 16u32) & 0xff) as u8,
        (x >> 24u32) as u8,
    ]
}

/// Little-endian bytes of a `u64`.
pub open spec fn le64(x: u64) -> Seq<u8> {
    seq![
        (x & 0xff) as u8,
        ((x >> 8u64) & 0xff) as u8,
        ((x >> 16u64) & 0xff) as u8,
        ((x >> 24u64) & 0xff) as u8,
        ((x >> 32u64) & 0xff) as u8,
        ((x >> 40u64) & 0xff) as u8,
        ((x >> 48u64) & 0xff) as u8,
        (x >> 56u64) as u8,
    ]
}

/// The `u16` stored little-endian at `off`.
pub open spec fn u16_at(s: Seq<u8>, off: int) -> u16 {
    (s[off] as u16) | ((s[off + 1] as u16) << 8u16)
}

/// The `u32` stored little-endian at `off`.
pub open spec fn u32_at(s: Seq<u8>, off: int) -> u32 {
    (s[off] as u32) | ((s[off + 1] as u32) << 8u32) | ((s[off + 2] as u32) << 16u32) | ((
    s[off + 3] as u32) << 24u32)
}

/// The `u64` stored little-endian at `off`.
pub open spec fn u64_at(s: Seq<u8>, off: int) -> u64 {
    (s[off] as u64) | ((s[off + 1] as u64) << 8u64) | ((s[off + 2] as u64) << 16u64) | ((
    s[off + 3] as u64) << 24u64) | ((s[off + 4] as u64) << 32u64) | ((s[off + 5] as u64)
        << 40u64) | ((s[off + 6] as u64) << 48u64) | ((s[off + 7] as u64) << 56u64)
}

/// Writes `x` little-endian at `off`.
pub fn put_u16<const N: usize>(raw: &mut [u8; N], off: usize, x: u16)
    requires
        off + 2 <= N,
    ensures
        final(raw)@ == splice(old(raw)@, off as int, le16(x)),
{
    raw[off] = (x & 0xff) as u8;
    raw[off + 1] = (x >> 8u16) as u8;
    assert(raw@ =~= splice(old(raw)@, off as int, le16(x)));
}

/// Writes `x` little-endian at `off`.
pub fn put_u32<const N: usize>(raw: &mut [u8; N], off: usize, x: u32)
    requires
        off + 4 <= N,
    ensures
        final(raw)@ == splice(old(raw)@, off as int, le32(x)),
{
    raw[off] = (x & 0xff) as u8;
    raw[off + 1] = ((x >> 8u32) & 0xff) as u8;
    raw[off + 2] = ((x >> 16u32) & 0xff) as u8;
    raw[off + 3] = (x >> 24u32) as u8;
    assert(raw@ =~= splice(old(raw)@, off as int, le32(x)));
}

/// Writes `x` little-endian at `off`.
pub fn put_u64<const N: usize>(raw: &mut [u8; N], off: usize, x: u64)
    requires
        off + 8 <= N,
    ensures
        final(raw)@ == splice(old(raw)@, off as int, le64(x)),
{
    raw[off] = (x & 0xff) as u8;
    raw[off + 1] = ((x >> 8u64) & 0xff) as u8;
    raw[off + 2] = ((x >> 16u64) & 0xff) as u8;
    raw[off + 3] = ((x >> 24u64) & 0xff) as u8;
    raw[off + 4] = ((x >> 32u64) & 0xff) as u8;
    raw[off + 5] = ((x >> 40u64) & 0xff) as u8;
    raw[off + 6] = ((x >> 48u64) & 0xff) as u8;
    raw[off + 7] = (x >> 56u64) as u8;
    assert(raw@ =~= splice(old(raw)@, off as int, le64(x)));
}

/// Writes the byte `x` at `off`.
pub fn put_u8<const N: usize>(raw: &mut [u8; N], off: usize, x: u8)
    requires
        off + 1 <= N,
    ensures
        final(raw)@ == splice(old(raw)@, off as int, seq![x]),
{
    raw[off] = x;
    assert(raw@ =~= splice(old(raw)@, off as int, seq![x]));
}

/// Copies the first `len` bytes of `src` to `off`.
pub fn put_bytes<const N: usize>(raw: &mut [u8; N], off: usize, src: &[u8], len: usize)
    requires
        len <= src@.len(),
        off + len <= N,
    ensures
        final(raw)@ == splice(old(raw)@, off as int, src@.take(len as int)),
{
    let mut i: usize = 0;
    while i < len
        invariant
            i <= len,
            len <= src@.len(),
            off + len <= N,
            raw@.len() == N,
            forall|j: int| 0 <= j < off ==> raw@[j] == old(raw)@[j],
            forall|j: int| off + i <= j < N ==> raw@[j] == old(raw)@[j],
            forall|j: int| 0 <= j < i ==> raw@[off + j] == src@[j],
        decreases len - i,
    {
        raw[off + i] = src[i];
        i = i + 1;
    }
    assert(raw@ =~= splice(old(raw)@, off as int, src@.take(len as int)));
}

/// The `u16` stored little-endian at `off`.
pub fn get_u16<const N: usize>(raw: &[u8; N], off: usize) -> (r: u16)
    requires
        off + 2 <= N,
    ensures
        r == u16_at(raw@, off as int),
{
    (raw[off] as u16) | ((raw[off + 1] as u16) << 8u16)
}

/// The `u32` stored little-endian at `off`.
pub fn get_u32<const N: usize>(raw: &[u8; N], off: usize) -> (r: u32)
    requires
        off + 4 <= N,
    ensures
        r == u32_at(raw@, off as int),
{
    (raw[off] as u32) | ((raw[off + 1] as u32) << 8u32) | ((raw[off + 2] as u32) << 16u32) | ((
    raw[off + 3] as u32) << 24u32)
}

/// The `u64` stored little-endian at `off`.
pub fn get_u64<const N: usize>(raw: &[u8; N], off: usize) -> (r: u64)
    requires
        off + 8 <= N,
    ensures
        r == u64_at(raw@, off as int),
{
    (raw[off] as u64) | ((raw[off + 1] as u64) << 8u64) | ((raw[off + 2] as u64) << 16u64) | ((
    raw[off + 3] as u64) << 24u64) | ((raw[off + 4] as u64) << 32u64) | ((raw[off + 5] as u64)
        << 40u64) | ((raw[off + 6] as u64) << 48u64) | ((raw[off + 7] as u64) << 56u64)
}

/// The `M` bytes stored at `off`.
pub fn get_array<const N: usize, const M: usize>(raw: &[u8; N], off: usize) -> (r: [u8; M])
    requires
        off + M <= N,
    ensures
        r@ == raw@.subrange(off as int, off + M),
{
    let mut r = [0u8; M];
    let mut i: usize = 0;
    while i < M
        invariant
            i <= M,
            off + M <= N,
            r@.len() == M,
            forall|j: int| 0 <= j < i ==> r@[j] == raw@[off + j],
        decreases M - i,
    {
        r[i] = raw[off + i];
        i = i + 1;
    }
    assert(r@ =~= raw@.subrange(off as int, off + M));
    r
}

/// Reading back a `u16` that was written little-endian gives the value written.
pub proof fn lemma_u16_round_trip(s: Seq<u8>, off: int, x: u16)
    requires
        0 <= off,
        off + 2 <= s.len(),
    ensures
        u16_at(splice(s, off, le16(x)), off) == x,
{
    let t = splice(s, off, le16(x));
    assert(t[off] == (x & 0xff) as u8);
    assert(t[off + 1] == (x >> 8u16) as u8);
    let b0 = t[off];
    let b1 = t[off + 1];
    assert(b0 == (x & 0xff) as u8 && b1 == (x >> 8u16) as u8 ==> (b0 as u16) | ((b1 as u16)
        << 8u16) == x) by (bit_vector);
}

/// Reading back a `u32` that was written little-endian gives the value written.
pub proof fn lemma_u32_round_trip(s: Seq<u8>, off: int, x: u32)
    requires
        0 <= off,
        off + 4 <= s.len(),
    ensures
        u32_at(splice(s, off, le32(x)), off) == x,
{
    let t = splice(s, off, le32(x));
    let b0 = t[off];
    let b1 = t[off + 1];
    let b2 = t[off + 2];
    let b3 = t[off + 3];
    assert(b0 == (x & 0xff) as u8);
    assert(b1 == ((x >> 8u32) & 0xff) as u8);
    assert(b2 == ((x >> 16u32) & 0xff) as u8);
    assert(b3 == (x >> 24u32) as u8);
    assert(b0 == (x & 0xff) as u8 && b1 == ((x >> 8u32) & 0xff) as u8 && b2 == ((x >> 16u32)
        & 0xff) as u8 && b3 == (x >> 24u32) as u8 ==> (b0 as u32) | ((b1 as u32) << 8u32) | ((
    b2 as u32) << 16u32) | ((b3 as u32) << 24u32) == x) by (bit_vector);
}

/// Reading back a `u64` that was written little-endian gives the value written.
pub proof fn lemma_u64_round_trip(s: Seq<u8>, off: int, x: u64)
    requires
        0 <= off,
        off + 8 <= s.len(),
    ensures
        u64_at(splice(s, off, le64(x)), off) == x,
{
    let t = splice(s, off, le64(x));
    let b0 = t[off];
    let b1 = t[off + 1];
    let b2 = t[off + 2];
    let b3 = t[off + 3];
    let b4 = t[off + 4];
    let b5 = t[off + 5];
    let b6 = t[off + 6];
    let b7 = t[off + 7];
    assert(b0 == (x & 0xff) as u8);
    assert(b1 == ((x >> 8u64) & 0xff) as u8);
    assert(b2 == ((x >> 16u64) & 0xff) as u8);
    assert(b3 == ((x >> 24u64) & 0xff) as u8);
    assert(b4 == ((x >> 32u64) & 0xff) as u8);
    assert(b5 == ((x >> 40u64) & 0xff) as u8);
    assert(b6 == ((x >> 48u64) & 0xff) as u8);
    assert(b7 == (x >> 56u64) as u8);
    assert(b0 == (x & 0xff) as u8 && b1 == ((x >> 8u64) & 0xff) as u8 && b2 == ((x >> 16u64)
        & 0xff) as u8 && b3 == ((x >> 24u64) & 0xff) as u8 && b4 == ((x >> 32u64) & 0xff) as u8
        && b5 == ((x >> 40u64) & 0xff) as u8 && b6 == ((x >> 48u64) & 0xff) as u8 && b7 == (x
        >> 56u64) as u8 ==> (b0 as u64) | ((b1 as u64) << 8u64) | ((b2 as u64) << 16u64) | ((
    b3 as u64) << 24u64) | ((b4 as u64) << 32u64) | ((b5 as u64) << 40u64) | ((b6 as u64)
        << 48u64) | ((b7 as u64) << 56u64) == x) by (bit_vector);
}

/// The first `min(len(src), M)` bytes of `src`, padded with zeros to `M` bytes.
pub fn fill_field<const M: usize>(src: &[u8]) -> (r: [u8; M])
    ensures
        r@ == fixed_field(src@, M as nat),
{
    let mut r = [0u8; M];
    let len = if src.len() < M {
        src.len()
    } else {
        M
    };
    put_bytes(&mut r, 0, src, len);
    assert(r@ =~= fixed_field(src@, M as nat));
    r
}

/// Writing `t` at the start of `n` zero bytes pads `t` with zeros to `n` bytes.
pub proof fn lemma_splice_zeros(t: Seq<u8>, n: nat)
    requires
        t.len() <= n,
    ensures
        splice(zeros(n), 0, t) == fixed_field(t, n),
{
    assert(splice(zeros(n), 0, t) =~= fixed_field(t, n));
}

/// Writing back the `u32` read at `off` leaves the bytes as they were.
pub proof fn lemma_u32_bytes_round_trip(s: Seq<u8>, off: int)
    requires
        0 <= off,
        off + 4 <= s.len(),
    ensures
        le32(u32_at(s, off)) == s.subrange(off, off + 4),
{
    let b0 = s[off];
    let b1 = s[off + 1];
    let b2 = s[off + 2];
    let b3 = s[off + 3];
    let x = u32_at(s, off);
    assert(x == (b0 as u32) | ((b1 as u32) << 8u32) | ((b2 as u32) << 16u32) | ((b3 as u32)
        << 24u32) ==> (x & 0xff) as u8 == b0 && ((x >> 8u32) & 0xff) as u8 == b1 && ((x
        >> 16u32) & 0xff) as u8 == b2 && (x >> 24u32) as u8 == b3) by (bit_vector);
    assert(le32(x) =~= s.subrange(off, off + 4));
}

/// Writing back the `u16` read at `off` leaves the bytes as they were.
pub proof fn lemma_u16_bytes_round_trip(s: Seq<u8>, off: int)
    requires
        0 <= off,
        off + 2 <= s.len(),
    ensures
        le16(u16_at(s, off)) == s.subrange(off, off + 2),
{
    let b0 = s[off];
    let b1 = s[off + 1];
    let x = u16_at(s, off);
    assert(x == (b0 as u16) | ((b1 as u16) << 8u16) ==> (x & 0xff) as u8 == b0 && (x >> 8u16) as u8
        == b1) by (bit_vector);
    assert(le16(x) =~= s.subrange(off, off + 2));
}

/// Writing back the `u64` read at `off` leaves the bytes as they were.
pub proof fn lemma_u64_bytes_round_trip(s: Seq<u8>, off: int)
    requires
        0 <= off,
        off + 8 <= s.len(),
    ensures
        le64(u64_at(s, off)) == s.subrange(off, off + 8),
{
    let b0 = s[off];
    let b1 = s[off + 1];
    let b2 = s[off + 2];
    let b3 = s[off + 3];
    let b4 = s[off + 4];
    let b5 = s[off + 5];
    let b6 = s[off + 6];
    let b7 = s[off + 7];
    let x = u64_at(s, off);
    assert(x == (b0 as u64) | ((b1 as u64) << 8u64) | ((b2 as u64) << 16u64) | ((b3 as u64)
        << 24u64) | ((b4 as u64) << 32u64) | ((b5 as u64) << 40u64) | ((b6 as u64) << 48u64) | ((
    b7 as u64) << 56u64) ==> (x & 0xff) as u8 == b0 && ((x >> 8u64) & 0xff) as u8 == b1 && ((x
        >> 16u64) & 0xff) as u8 == b2 && ((x >> 24u64) & 0xff) as u8 == b3 && ((x >> 32u64) & 0xff)
        as u8 == b4 && ((x >> 40u64) & 0xff) as u8 == b5 && ((x >> 48u64) & 0xff) as u8 == b6 && (x
        >> 56u64) as u8 == b7) by (bit_vector);
    assert(le64(x) =~= s.subrange(off, off + 8));
}

} // verus!
