//! The GUID value that identifies a virtual monitor, and its 16-byte field
//! in the packed driver structures.

use crate::wire::{get_u16, get_u32, le16, le32, lemma_field_encodings, put_bytes, put_u16, put_u32, read_le16, read_le32};
use vstd::prelude::*;
use vstd::slice::slice_subrange;

verus! {

/// A globally unique identifier, in the layout of the Windows `GUID`
/// structure.
#[derive(Clone, Copy, Debug, PartialEq, Eq)]
pub struct Guid {
    pub data1: u32,
    pub data2: u16,
    pub data3: u16,
    pub data4: [u8; 8],
}

/// The 16 bytes of a GUID field: `data1`, `data2` and `data3` little-endian,
/// then the eight bytes of `data4` in order.
pub open spec fn guid_bytes(g: Guid) -> Seq<u8> {
    le32(g.data1) + le16(g.data2) + le16(g.data3) + g.data4@
}

/// A GUID field is 16 bytes wide.
pub proof fn lemma_guid_bytes_len(g: Guid)
    ensures
        guid_bytes(g).len() == 16,
{
    lemma_field_encodings();
    assert(g.data4@.len() == 8);
}

/// A GUID field is 16 bytes wide and determines the GUID it holds.
pub proof fn lemma_guid_bytes_injective(g1: Guid, g2: Guid)
    ensures
        guid_bytes(g1).len() == 16,
        guid_bytes(g1) == guid_bytes(g2) ==> g1 == g2,
{
    lemma_field_encodings();
    assert(g1.data4@.len() == 8);
    assert(g2.data4@.len() == 8);
    if guid_bytes(g1) == guid_bytes(g2) {
        let b1 = guid_bytes(g1);
        let b2 = guid_bytes(g2);
        assert(b1.subrange(0, 4) == le32(g1.data1));
        assert(b2.subrange(0, 4) == le32(g2.data1));
        assert(b1.subrange(4, 6) == le16(g1.data2));
        assert(b2.subrange(4, 6) == le16(g2.data2));
        assert(b1.subrange(6, 8) == le16(g1.data3));
        assert(b2.subrange(6, 8) == le16(g2.data3));
        assert(b1.subrange(8, 16) == g1.data4@);
        assert(b2.subrange(8, 16) == g2.data4@);
        assert(read_le32(le32(g1.data1)) == g1.data1);
        assert(read_le32(le32(g2.data1)) == g2.data1);
        assert(read_le16(le16(g1.data2)) == g1.data2);
        assert(read_le16(le16(g2.data2)) == g2.data2);
        assert(read_le16(le16(g1.data3)) == g1.data3);
        assert(read_le16(le16(g2.data3)) == g2.data3);
        assert(g1.data4 == g2.data4);
    }
}

/// Layout of a GUID field: `data1` at bytes 0..4, `data2` at 4..6, `data3`
/// at 6..8 (each little-endian) and the eight bytes of `data4` at 8..16.
pub proof fn lemma_guid_layout(g: Guid)
    ensures
        read_le32(guid_bytes(g).subrange(0, 4)) == g.data1,
        read_le16(guid_bytes(g).subrange(4, 6)) == g.data2,
        read_le16(guid_bytes(g).subrange(6, 8)) == g.data3,
        guid_bytes(g).subrange(8, 16) == g.data4@,
{
    lemma_field_encodings();
    assert(g.data4@.len() == 8);
    let b = guid_bytes(g);
    assert(b.subrange(0, 4) =~= le32(g.data1));
    assert(b.subrange(4, 6) =~= le16(g.data2));
    assert(b.subrange(6, 8) =~= le16(g.data3));
    assert(b.subrange(8, 16) =~= g.data4@);
}

/// Appends the GUID field of `g`.
pub fn put_guid(out: &mut Vec<u8>, g: &Guid)
    ensures
        final(out)@ == old(out)@ + guid_bytes(*g),
{
    put_u32(out, g.data1);
    put_u16(out, g.data2);
    put_u16(out, g.data3);
    put_bytes(out, g.data4.as_slice());
    assert(out@ == old(out)@ + guid_bytes(*g));
}

/// Reads the GUID field at byte offset `off`.
pub fn get_guid(b: &[u8], off: usize) -> (g: Guid)
    requires
        off + 16 <= b@.len(),
    ensures
        guid_bytes(g) == b@.subrange(off as int, off + 16),
{
    let _len = b.len();
    let data1 = get_u32(b, off);
    let data2 = get_u16(b, off + 4);
    let data3 = get_u16(b, off + 6);
    let d = slice_subrange(b, off + 8, off + 16);
    let data4: [u8; 8] = [d[0], d[1], d[2], d[3], d[4], d[5], d[6], d[7]];
    let g = Guid { data1, data2, data3, data4 };
    proof {
        lemma_field_encodings();
        let s = b@.subrange(off as int, off + 16);
        assert(le32(data1) == s.subrange(0, 4));
        assert(le16(data2) == s.subrange(4, 6));
        assert(le16(data3) == s.subrange(6, 8));
        assert(data4@ == s.subrange(8, 16));
        assert(guid_bytes(g) == s);
    }
    g
}

} // verus!
