//! Little-endian byte encodings of the scalar and GUID fields that make up
//! the packed driver structures.

use vstd::prelude::*;

verus! {

/// Encoding of a `u16` field: low byte first.
pub open spec fn le16(x: u16) -> Seq<u8> {
    seq![(x & 0xff) as u8, ((x >> 8u16) & 0xff) as u8]
}

/// Encoding of a `u32` field: least significant byte first.
pub open spec fn le32(x: u32) -> Seq<u8> {
    seq![
        (x & 0xff) as u8,
        ((x >> 8u32) & 0xff) as u8,
        ((x >> 16u32) & 0xff) as u8,
        ((x >> 24u32) & 0xff) as u8,
    ]
}

/// Encoding of a `u64` field: least significant byte first.
pub open spec fn le64(x: u64) -> Seq<u8> {
    seq![
        (x & 0xff) as u8,
        ((x >> 8u64) & 0xff) as u8,
        ((x >> 16u64) & 0xff) as u8,
        ((x >> 24u64) & 0xff) as u8,
        ((x >> 32u64) & 0xff) as u8,
        ((x >> 40u64) & 0xff) as u8,
        ((x >> 48u64) & 0xff) as u8,
        ((x >> 56u64) & 0xff) as u8,
    ]
}

/// Encoding of an `i32` field (two's complement).
pub open spec fn le_i32(x: i32) -> Seq<u8> {
    le32(x as u32)
}

/// Encoding of an `i64` field (two's complement).
pub open spec fn le_i64(x: i64) -> Seq<u8> {
    le64(x as u64)
}

/// The value of a `u16` field held in `s` (two bytes).
pub open spec fn read_le16(s: Seq<u8>) -> u16 {
    (s[0] as u16) | ((s[1] as u16) << 8u16)
}

/// The value of a `u32` field held in `s` (four bytes).
pub open spec fn read_le32(s: Seq<u8>) -> u32 {
    (s[0] as u32) | ((s[1] as u32) << 8u32) | ((s[2] as u32) << 16u32) | ((s[3] as u32) << 24u32)
}

/// The value of a `u64` field held in `s` (eight bytes).
pub open spec fn read_le64(s: Seq<u8>) -> u64 {
    (s[0] as u64) | ((s[1] as u64) << 8u64) | ((s[2] as u64) << 16u64) | ((s[3] as u64) << 24u64)
        | ((s[4] as u64) << 32u64) | ((s[5] as u64) << 40u64) | ((s[6] as u64) << 48u64) | ((
    s[7] as u64) << 56u64)
}

/// The value of an `i32` field held in `s` (four bytes).
pub open spec fn read_le_i32(s: Seq<u8>) -> i32 {
    read_le32(s) as i32
}

/// The value of an `i64` field held in `s` (eight bytes).
pub open spec fn read_le_i64(s: Seq<u8>) -> i64 {
    read_le64(s) as i64
}

proof fn lemma_le16(x: u16, s: Seq<u8>)
    ensures
        read_le16(le16(x)) == x,
        s.len() == 2 ==> le16(read_le16(s)) == s,
{
    assert(x == (((x & 0xff) as u8) as u16 | ((((x >> 8u16) & 0xff) as u8) as u16) << 8u16))
        by (bit_vector);
    if s.len() == 2 {
        let (b0, b1) = (s[0], s[1]);
        assert(((b0 as u16 | (b1 as u16) << 8u16) & 0xff) as u8 == b0 && ((((b0 as u16 | (
        b1 as u16) << 8u16) >> 8u16) & 0xff) as u8) == b1) by (bit_vector);
        assert(le16(read_le16(s)) =~= s);
    }
}

proof fn lemma_le32(x: u32, s: Seq<u8>)
    ensures
        read_le32(le32(x)) == x,
        s.len() == 4 ==> le32(read_le32(s)) == s,
{
    assert(x == (((x & 0xff) as u8) as u32 | ((((x >> 8u32) & 0xff) as u8) as u32) << 8u32 | ((((x
        >> 16u32) & 0xff) as u8) as u32) << 16u32 | ((((x >> 24u32) & 0xff) as u8) as u32)
        << 24u32)) by (bit_vector);
    if s.len() == 4 {
        let (b0, b1, b2, b3) = (s[0], s[1], s[2], s[3]);
        let v = read_le32(s);
        assert(v == (b0 as u32) | ((b1 as u32) << 8u32) | ((b2 as u32) << 16u32) | ((b3 as u32)
            << 24u32));
        assert(v == (b0 as u32) | ((b1 as u32) << 8u32) | ((b2 as u32) << 16u32) | ((b3 as u32)
            << 24u32) ==> (v & 0xff) as u8 == b0 && ((v >> 8u32) & 0xff) as u8 == b1 && ((v
            >> 16u32) & 0xff) as u8 == b2 && ((v >> 24u32) & 0xff) as u8 == b3) by (bit_vector);
        assert(le32(read_le32(s)) =~= s);
    }
}

proof fn lemma_le64(x: u64, s: Seq<u8>)
    ensures
        read_le64(le64(x)) == x,
        s.len() == 8 ==> le64(read_le64(s)) == s,
{
    assert(x == (((x & 0xff) as u8) as u64 | ((((x >> 8u64) & 0xff) as u8) as u64) << 8u64 | ((((x
        >> 16u64) & 0xff) as u8) as u64) << 16u64 | ((((x >> 24u64) & 0xff) as u8) as u64)
        << 24u64 | ((((x >> 32u64) & 0xff) as u8) as u64) << 32u64 | ((((x >> 40u64) & 0xff)
        as u8) as u64) << 40u64 | ((((x >> 48u64) & 0xff) as u8) as u64) << 48u64 | ((((x
        >> 56u64) & 0xff) as u8) as u64) << 56u64)) by (bit_vector);
    if s.len() == 8 {
        let (b0, b1, b2, b3, b4, b5, b6, b7) = (s[0], s[1], s[2], s[3], s[4], s[5], s[6], s[7]);
        let v = read_le64(s);
        assert(v == (b0 as u64) | ((b1 as u64) << 8u64) | ((b2 as u64) << 16u64) | ((b3 as u64)
            << 24u64) | ((b4 as u64) << 32u64) | ((b5 as u64) << 40u64) | ((b6 as u64) << 48u64)
            | ((b7 as u64) << 56u64));
        assert(v == (b0 as u64) | ((b1 as u64) << 8u64) | ((b2 as u64) << 16u64) | ((b3 as u64)
            << 24u64) | ((b4 as u64) << 32u64) | ((b5 as u64) << 40u64) | ((b6 as u64) << 48u64)
            | ((b7 as u64) << 56u64) ==> (v & 0xff) as u8 == b0 && ((v >> 8u64) & 0xff) as u8
            == b1 && ((v >> 16u64) & 0xff) as u8 == b2 && ((v >> 24u64) & 0xff) as u8 == b3 && ((v
            >> 32u64) & 0xff) as u8 == b4 && ((v >> 40u64) & 0xff) as u8 == b5 && ((v >> 48u64)
            & 0xff) as u8 == b6 && ((v >> 56u64) & 0xff) as u8 == b7) by (bit_vector);
        assert(le64(read_le64(s)) =~= s);
    }
}

/// Zero encodes as zero bytes, in every field width.
pub proof fn lemma_zero_fields()
    ensures
        le16(0) == seq![0u8, 0u8],
        le32(0) == seq![0u8, 0u8, 0u8, 0u8],
        le64(0) == seq![0u8, 0u8, 0u8, 0u8, 0u8, 0u8, 0u8, 0u8],
{
    assert((0u16 & 0xff) as u8 == 0 && ((0u16 >> 8u16) & 0xff) as u8 == 0) by (bit_vector);
    assert((0u32 & 0xff) as u8 == 0 && ((0u32 >> 8u32) & 0xff) as u8 == 0 && ((0u32 >> 16u32)
        & 0xff) as u8 == 0 && ((0u32 >> 24u32) & 0xff) as u8 == 0) by (bit_vector);
    assert((0u64 & 0xff) as u8 == 0 && ((0u64 >> 8u64) & 0xff) as u8 == 0 && ((0u64 >> 16u64)
        & 0xff) as u8 == 0 && ((0u64 >> 24u64) & 0xff) as u8 == 0 && ((0u64 >> 32u64) & 0xff)
        as u8 == 0 && ((0u64 >> 40u64) & 0xff) as u8 == 0 && ((0u64 >> 48u64) & 0xff) as u8 == 0
        && ((0u64 >> 56u64) & 0xff) as u8 == 0) by (bit_vector);
    assert(le16(0) =~= seq![0u8, 0u8]);
    assert(le32(0) =~= seq![0u8, 0u8, 0u8, 0u8]);
    assert(le64(0) =~= seq![0u8, 0u8, 0u8, 0u8, 0u8, 0u8, 0u8, 0u8]);
}

/// The field encodings are little-endian: the bytes of a field, least
/// significant first, are the digits of its value in base 256.
pub proof fn lemma_little_endian(a: u16, b: u32, c: u64)
    ensures
        le16(a)[0] + 0x100 * le16(a)[1] == a,
        le32(b)[0] + 0x100 * le32(b)[1] + 0x1_0000 * le32(b)[2] + 0x100_0000 * le32(b)[3] == b,
        le64(c)[0] + 0x100 * le64(c)[1] + 0x1_0000 * le64(c)[2] + 0x100_0000 * le64(c)[3]
            + 0x1_0000_0000 * le64(c)[4] + 0x100_0000_0000 * le64(c)[5] + 0x1_0000_0000_0000
            * le64(c)[6] + 0x100_0000_0000_0000 * le64(c)[7] == c,
{
    assert(((a & 0xff) as u8) + 0x100 * (((a >> 8u16) & 0xff) as u8) == a) by (bit_vector);
    assert(((b & 0xff) as u8) + 0x100 * (((b >> 8u32) & 0xff) as u8) + 0x1_0000 * (((b >> 16u32)
        & 0xff) as u8) + 0x100_0000 * (((b >> 24u32) & 0xff) as u8) == b) by (bit_vector);
    assert(((c & 0xff) as u8) + 0x100 * (((c >> 8u64) & 0xff) as u8) + 0x1_0000 * (((c >> 16u64)
        & 0xff) as u8) + 0x100_0000 * (((c >> 24u64) & 0xff) as u8) + 0x1_0000_0000 * (((c
        >> 32u64) & 0xff) as u8) + 0x100_0000_0000 * (((c >> 40u64) & 0xff) as u8)
        + 0x1_0000_0000_0000 * (((c >> 48u64) & 0xff) as u8) + 0x100_0000_0000_0000 * (((c
        >> 56u64) & 0xff) as u8) == c) by (bit_vector);
}

/// Field encodings have their fixed widths, reading a field back gives the
/// value that was written, and every byte string of a field's width is the
/// encoding of the value read from it.
pub proof fn lemma_field_encodings()
    ensures
        forall|x: u16| #[trigger] le16(x).len() == 2 && read_le16(le16(x)) == x,
        forall|x: u32| #[trigger] le32(x).len() == 4 && read_le32(le32(x)) == x,
        forall|x: i32| #[trigger] le_i32(x).len() == 4 && read_le_i32(le_i32(x)) == x,
        forall|x: i64| #[trigger] le_i64(x).len() == 8 && read_le_i64(le_i64(x)) == x,
        forall|s: Seq<u8>| s.len() == 2 ==> #[trigger] le16(read_le16(s)) == s,
        forall|s: Seq<u8>| s.len() == 4 ==> #[trigger] le32(read_le32(s)) == s,
        forall|s: Seq<u8>| s.len() == 4 ==> #[trigger] le_i32(read_le_i32(s)) == s,
        forall|s: Seq<u8>| s.len() == 8 ==> #[trigger] le_i64(read_le_i64(s)) == s,
{
    assert forall|x: u16| #[trigger] le16(x).len() == 2 && read_le16(le16(x)) == x by {
        lemma_le16(x, seq![]);
    }
    assert forall|x: u32| #[trigger] le32(x).len() == 4 && read_le32(le32(x)) == x by {
        lemma_le32(x, seq![]);
    }
    assert forall|s: Seq<u8>| s.len() == 2 implies #[trigger] le16(read_le16(s)) == s by {
        lemma_le16(0, s);
    }
    assert forall|s: Seq<u8>| s.len() == 4 implies #[trigger] le32(read_le32(s)) == s by {
        lemma_le32(0, s);
    }
    assert forall|x: i32| #[trigger] le_i32(x).len() == 4 && read_le_i32(le_i32(x)) == x by {
        let u = x as u32;
        lemma_le32(u, seq![]);
        assert((u as i32) == x) by (bit_vector)
            requires
                u == x as u32,
        ;
    }
    assert forall|x: i64| #[trigger] le_i64(x).len() == 8 && read_le_i64(le_i64(x)) == x by {
        let u = x as u64;
        lemma_le64(u, seq![]);
        assert((u as i64) == x) by (bit_vector)
            requires
                u == x as u64,
        ;
    }
    assert forall|s: Seq<u8>| s.len() == 4 implies #[trigger] le_i32(read_le_i32(s)) == s by {
        let u = read_le32(s);
        lemma_le32(0, s);
        assert(((u as i32) as u32) == u) by (bit_vector);
    }
    assert forall|s: Seq<u8>| s.len() == 8 implies #[trigger] le_i64(read_le_i64(s)) == s by {
        let u = read_le64(s);
        lemma_le64(0, s);
        assert(((u as i64) as u64) == u) by (bit_vector);
    }
}

/// Appends the encoding of a `u16`.
pub fn put_u16(out: &mut Vec<u8>, x: u16)
    ensures
        final(out)@ == old(out)@ + le16(x),
{
    out.push(#[verifier::truncate] ((x & 0xff) as u8));
    out.push(#[verifier::truncate] (((x >> 8u16) & 0xff) as u8));
    assert(out@ =~= old(out)@ + le16(x));
}

/// Appends the encoding of a `u32`.
pub fn put_u32(out: &mut Vec<u8>, x: u32)
    ensures
        final(out)@ == old(out)@ + le32(x),
{
    out.push(#[verifier::truncate] ((x & 0xff) as u8));
    out.push(#[verifier::truncate] (((x >> 8u32) & 0xff) as u8));
    out.push(#[verifier::truncate] (((x >> 16u32) & 0xff) as u8));
    out.push(#[verifier::truncate] (((x >> 24u32) & 0xff) as u8));
    assert(out@ =~= old(out)@ + le32(x));
}

/// Appends the encoding of a `u64`.
fn put_u64(out: &mut Vec<u8>, x: u64)
    ensures
        final(out)@ == old(out)@ + le64(x),
{
    out.push(#[verifier::truncate] ((x & 0xff) as u8));
    out.push(#[verifier::truncate] (((x >> 8u64) & 0xff) as u8));
    out.push(#[verifier::truncate] (((x >> 16u64) & 0xff) as u8));
    out.push(#[verifier::truncate] (((x >> 24u64) & 0xff) as u8));
    out.push(#[verifier::truncate] (((x >> 32u64) & 0xff) as u8));
    out.push(#[verifier::truncate] (((x >> 40u64) & 0xff) as u8));
    out.push(#[verifier::truncate] (((x >> 48u64) & 0xff) as u8));
    out.push(#[verifier::truncate] (((x >> 56u64) & 0xff) as u8));
    assert(out@ =~= old(out)@ + le64(x));
}

/// Appends the encoding of an `i64`.
pub fn put_i64(out: &mut Vec<u8>, x: i64)
    ensures
        final(out)@ == old(out)@ + le_i64(x),
{
    put_u64(out, #[verifier::truncate] (x as u64));
}

/// Appends raw bytes.
pub fn put_bytes(out: &mut Vec<u8>, bytes: &[u8])
    ensures
        final(out)@ == old(out)@ + bytes@,
{
    let mut i: usize = 0;
    while i < bytes.len()
        invariant
            i <= bytes@.len(),
            out@ == old(out)@ + bytes@.subrange(0, i as int),
        decreases bytes@.len() - i,
    {
        out.push(bytes[i]);
        i = i + 1;
        assert(out@ == old(out)@ + bytes@.subrange(0, i as int));
    }
    assert(bytes@.subrange(0, bytes@.len() as int) == bytes@);
}

/// Appends `n` zero bytes.
pub fn put_zeros(out: &mut Vec<u8>, n: usize)
    ensures
        final(out)@ == old(out)@ + Seq::new(n as nat, |i: int| 0u8),
{
    let mut i: usize = 0;
    while i < n
        invariant
            i <= n,
            out@ == old(out)@ + Seq::new(i as nat, |k: int| 0u8),
        decreases n - i,
    {
        out.push(0u8);
        i = i + 1;
        assert(out@ == old(out)@ + Seq::new(i as nat, |k: int| 0u8));
    }
}

/// Reads the `u16` field at byte offset `off`.
pub fn get_u16(b: &[u8], off: usize) -> (r: u16)
    requires
        off + 2 <= b@.len(),
    ensures
        r == read_le16(b@.subrange(off as int, off + 2)),
{
    let _len = b.len();
    (b[off] as u16) | ((b[off + 1] as u16) << 8u16)
}

/// Reads the `u32` field at byte offset `off`.
pub fn get_u32(b: &[u8], off: usize) -> (r: u32)
    requires
        off + 4 <= b@.len(),
    ensures
        r == read_le32(b@.subrange(off as int, off + 4)),
{
    let _len = b.len();
    (b[off] as u32) | ((b[off + 1] as u32) << 8u32) | ((b[off + 2] as u32) << 16u32) | ((b[off
        + 3] as u32) << 24u32)
}

fn get_u64(b: &[u8], off: usize) -> (r: u64)
    requires
        off + 8 <= b@.len(),
    ensures
        r == read_le64(b@.subrange(off as int, off + 8)),
{
    let _len = b.len();
    (b[off] as u64) | ((b[off + 1] as u64) << 8u64) | ((b[off + 2] as u64) << 16u64) | ((b[off
        + 3] as u64) << 24u64) | ((b[off + 4] as u64) << 32u64) | ((b[off + 5] as u64) << 40u64)
        | ((b[off + 6] as u64) << 48u64) | ((b[off + 7] as u64) << 56u64)
}

/// Reads the `i32` field at byte offset `off`.
pub fn get_i32(b: &[u8], off: usize) -> (r: i32)
    requires
        off + 4 <= b@.len(),
    ensures
        r == read_le_i32(b@.subrange(off as int, off + 4)),
{
    let u = get_u32(b, off);
    #[verifier::truncate]
    (u as i32)
}

/// Reads the `i64` field at byte offset `off`.
pub fn get_i64(b: &[u8], off: usize) -> (r: i64)
    requires
        off + 8 <= b@.len(),
    ensures
        r == read_le_i64(b@.subrange(off as int, off + 8)),
{
    let u = get_u64(b, off);
    #[verifier::truncate]
    (u as i64)
}

} // verus!
