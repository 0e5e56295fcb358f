//! Text fields: the fixed, zero-padded name fields of the driver structures
//! and the NUL-terminated UTF-8 and UTF-16 names that come back from the
//! driver and from the system.

use vstd::prelude::*;
use vstd::slice::slice_subrange;
use vstd::string::StringSliceAdditionalSpecFns;
use vstd::utf8::{
    decode_utf8, encode_scalar, encode_utf8, encode_utf8_decode_utf8, encode_utf8_valid_utf8,
    has_width_1_encoding, is_scalar, last_continuation_byte, leading_byte_width_1,
    leading_byte_width_2, leading_byte_width_3, leading_byte_width_4,
    second_last_continuation_byte, third_last_continuation_byte, valid_utf8,
};

verus! {

/// What `String::from_utf8_lossy` makes of a byte string.
pub uninterp spec fn utf8_lossy(bytes: Seq<u8>) -> Seq<char>;

/// A UTF-16 code unit that is half of a surrogate pair.
pub open spec fn is_surrogate(u: u16) -> bool {
    0xD800 <= u <= 0xDFFF
}

/// A UTF-16 code unit that opens a surrogate pair.
pub open spec fn is_high_surrogate(u: u16) -> bool {
    0xD800 <= u <= 0xDBFF
}

/// A UTF-16 code unit that closes a surrogate pair.
pub open spec fn is_low_surrogate(u: u16) -> bool {
    0xDC00 <= u <= 0xDFFF
}

/// UTF-16 decoding with replacement: a high surrogate followed by a low
/// surrogate is the supplementary character they encode, any other
/// surrogate unit is U+FFFD on its own, and every other unit is the
/// character of its value.
pub open spec fn utf16_lossy(units: Seq<u16>) -> Seq<char>
    decreases units.len(),
{
    if units.len() == 0 {
        Seq::empty()
    } else if units.len() >= 2 && is_high_surrogate(units[0]) && is_low_surrogate(units[1]) {
        seq![
            (0x10000 + (units[0] - 0xD800) * 0x400 + (units[1] - 0xDC00)) as char,
        ] + utf16_lossy(units.skip(2))
    } else if is_surrogate(units[0]) {
        seq!['\u{FFFD}'] + utf16_lossy(units.drop_first())
    } else {
        seq![units[0] as char] + utf16_lossy(units.drop_first())
    }
}

/// Code units none of which is a surrogate; each of them is a whole
/// character.
pub open spec fn no_surrogates(units: Seq<u16>) -> bool {
    forall|i: int| 0 <= i < units.len() ==> !is_surrogate(#[trigger] units[i])
}

/// The characters of code units without surrogates, one per unit.
pub open spec fn bmp_chars(units: Seq<u16>) -> Seq<char> {
    units.map_values(|u: u16| u as char)
}

/// Calls `String::from_utf8_lossy` and takes the owned string.  The result is
/// named `utf8_lossy`; on well-formed UTF-8 it is the decoded text, as the
/// function's documentation says.  What it holds for malformed input (the
/// replacement characters) is left unstated.
#[verifier::external_body]
fn decode_utf8_lossy(bytes: &[u8]) -> (s: String)
    ensures
        s@ == utf8_lossy(bytes@),
        valid_utf8(bytes@) ==> s@ == decode_utf8(bytes@),
{
    String::from_utf8_lossy(bytes).into_owned()
}

/// Calls `String::from_utf16_lossy`, which decodes UTF-16 and puts the
/// replacement character U+FFFD in place of each unpaired surrogate, as its
/// documentation says: the result is `utf16_lossy` of the units.
#[verifier::external_body]
fn decode_utf16_lossy(units: &[u16]) -> (s: String)
    ensures
        s@ == utf16_lossy(units@),
{
    String::from_utf16_lossy(units)
}

/// Code units without surrogates decode to one character per unit.
pub proof fn lemma_utf16_lossy_without_surrogates(units: Seq<u16>)
    requires
        no_surrogates(units),
    ensures
        utf16_lossy(units) == bmp_chars(units),
    decreases units.len(),
{
    if units.len() > 0 {
        assert(!is_surrogate(units[0]));
        let rest = units.drop_first();
        assert forall|i: int| 0 <= i < rest.len() implies !is_surrogate(#[trigger] rest[i]) by {
            assert(rest[i] == units[i + 1]);
        }
        lemma_utf16_lossy_without_surrogates(rest);
        assert(bmp_chars(units) =~= seq![units[0] as char] + bmp_chars(rest));
    } else {
        assert(bmp_chars(units) =~= Seq::<char>::empty());
    }
}

/// `n` is the length of the part of `s` before the first `stop` (all of `s`
/// when there is none).
pub open spec fn is_len_before<T>(s: Seq<T>, stop: T, n: int) -> bool {
    &&& 0 <= n <= s.len()
    &&& forall|i: int| 0 <= i < n ==> s[i] != stop
    &&& (n == s.len() || s[n] == stop)
}

/// The length of the part of `s` before the first `stop`.
pub open spec fn len_before<T>(s: Seq<T>, stop: T) -> int {
    choose|n: int| is_len_before(s, stop, n)
}

/// The part of a NUL-terminated byte field before its terminator.
pub open spec fn c_str(s: Seq<u8>) -> Seq<u8> {
    s.take(len_before(s, 0u8))
}

/// The part of a NUL-terminated UTF-16 field before its terminator.
pub open spec fn wide_c_str(s: Seq<u16>) -> Seq<u16> {
    s.take(len_before(s, 0u16))
}

/// There is exactly one length before the first `stop`.
pub proof fn lemma_len_before_unique<T>(s: Seq<T>, stop: T, n: int)
    requires
        is_len_before(s, stop, n),
    ensures
        len_before(s, stop) == n,
{
    let m = len_before(s, stop);
    assert(is_len_before(s, stop, m));
    if m < n {
        assert(s[m] != stop);
    } else if n < m {
        assert(s[n] != stop);
    }
}

/// The length of `s` once its trailing `0` units are removed.
pub open spec fn trimmed_len(s: Seq<u16>) -> nat
    decreases s.len(),
{
    if s.len() == 0 {
        0
    } else if s.last() == 0u16 {
        trimmed_len(s.drop_last())
    } else {
        s.len()
    }
}

/// `s` without its trailing `0` units.
pub open spec fn trim_nul_units(s: Seq<u16>) -> Seq<u16> {
    s.take(trimmed_len(s) as int)
}

/// A string cut to the trailing-NUL-free part of its units: no `0` unit ends
/// it, and only `0` units were removed.
pub proof fn lemma_trimmed_len(s: Seq<u16>)
    ensures
        trimmed_len(s) <= s.len(),
        trimmed_len(s) > 0 ==> s[trimmed_len(s) - 1] != 0u16,
        forall|i: int| trimmed_len(s) <= i < s.len() ==> s[i] == 0u16,
    decreases s.len(),
{
    if s.len() > 0 && s.last() == 0u16 {
        lemma_trimmed_len(s.drop_last());
        assert forall|i: int| trimmed_len(s) <= i < s.len() implies s[i] == 0u16 by {
            if i < s.len() - 1 {
                assert(s.drop_last()[i] == s[i]);
            }
        }
    }
}

/// The fixed `n`-byte field that holds `bytes`: cut to `n` bytes, or padded
/// with zero bytes up to `n`.
pub open spec fn fixed_field(bytes: Seq<u8>, n: nat) -> Seq<u8> {
    if bytes.len() >= n {
        bytes.take(n as int)
    } else {
        bytes + Seq::new((n - bytes.len()) as nat, |i: int| 0u8)
    }
}

/// A fixed field is exactly `n` bytes long, begins with the bytes it holds
/// (as many of them as fit), and is zero after them.
pub proof fn lemma_fixed_field(bytes: Seq<u8>, n: nat)
    ensures
        fixed_field(bytes, n).len() == n,
        forall|i: int|
            0 <= i < n && i < bytes.len() ==> #[trigger] fixed_field(bytes, n)[i] == bytes[i],
        forall|i: int| bytes.len() <= i < n ==> #[trigger] fixed_field(bytes, n)[i] == 0u8,
{
}

/// Copies as many bytes of `s` as fit into `buf`; the rest of `buf` is left
/// as it was.
pub fn copy_str_to_buf(s: &str, buf: &mut Vec<u8>)
    ensures
        ({
            let k = if s.spec_bytes().len() < old(buf)@.len() {
                s.spec_bytes().len() as int
            } else {
                old(buf)@.len() as int
            };
            final(buf)@ == s.spec_bytes().take(k) + old(buf)@.skip(k)
        }),
{
    let bytes = s.as_bytes();
    let len = if bytes.len() < buf.len() {
        bytes.len()
    } else {
        buf.len()
    };
    let mut i: usize = 0;
    while i < len
        invariant
            len <= bytes@.len(),
            len <= old(buf)@.len(),
            bytes@ == s.spec_bytes(),
            i <= len,
            buf@.len() == old(buf)@.len(),
            forall|j: int| 0 <= j < i ==> buf@[j] == bytes@[j],
            forall|j: int| i <= j < buf@.len() ==> buf@[j] == old(buf)@[j],
        decreases len - i,
    {
        buf.set(i, bytes[i]);
        i = i + 1;
    }
    assert(buf@ =~= bytes@.take(len as int) + old(buf)@.skip(len as int));
}

/// The fixed `n`-byte field that holds the UTF-8 bytes of `s`.
pub fn name_field(s: &str, n: usize) -> (field: Vec<u8>)
    ensures
        field@ == fixed_field(s.spec_bytes(), n as nat),
        field@.len() == n,
{
    let mut field: Vec<u8> = Vec::new();
    crate::wire::put_zeros(&mut field, n);
    assert(field@ =~= Seq::new(n as nat, |i: int| 0u8));
    copy_str_to_buf(s, &mut field);
    assert(field@ =~= fixed_field(s.spec_bytes(), n as nat));
    field
}

/// The text of a NUL-terminated UTF-8 field: the bytes before the first zero
/// byte, decoded with replacement of malformed sequences.
pub fn buf_to_string(buf: &[u8]) -> (s: String)
    ensures
        s@ == utf8_lossy(c_str(buf@)),
        valid_utf8(c_str(buf@)) ==> s@ == decode_utf8(c_str(buf@)),
{
    let mut end: usize = 0;
    while end < buf.len() && buf[end] != 0
        invariant
            end <= buf@.len(),
            forall|i: int| 0 <= i < end ==> buf@[i] != 0u8,
        decreases buf@.len() - end,
    {
        end = end + 1;
    }
    proof {
        assert(is_len_before(buf@, 0u8, end as int));
        lemma_len_before_unique(buf@, 0u8, end as int);
    }
    decode_utf8_lossy(slice_subrange(buf, 0, end))
}

/// The text of a NUL-terminated UTF-16 field: the units before the first
/// zero unit, decoded with replacement of unpaired surrogates.
pub fn wide_c_str_to_string(units: &[u16]) -> (s: String)
    ensures
        s@ == utf16_lossy(wide_c_str(units@)),
        no_surrogates(wide_c_str(units@)) ==> s@ == bmp_chars(wide_c_str(units@)),
{
    let mut end: usize = 0;
    while end < units.len() && units[end] != 0
        invariant
            end <= units@.len(),
            forall|i: int| 0 <= i < end ==> units@[i] != 0u16,
        decreases units@.len() - end,
    {
        end = end + 1;
    }
    proof {
        assert(is_len_before(units@, 0u16, end as int));
        lemma_len_before_unique(units@, 0u16, end as int);
        if no_surrogates(wide_c_str(units@)) {
            lemma_utf16_lossy_without_surrogates(wide_c_str(units@));
        }
    }
    decode_utf16_lossy(slice_subrange(units, 0, end))
}

/// The text of a fixed UTF-16 name field with its trailing NUL units
/// removed, decoded with replacement of unpaired surrogates.
pub fn wide_name(units: &[u16]) -> (s: String)
    ensures
        s@ == utf16_lossy(trim_nul_units(units@)),
        no_surrogates(trim_nul_units(units@)) ==> s@ == bmp_chars(trim_nul_units(units@)),
{
    let mut n: usize = units.len();
    assert(units@.take(n as int) =~= units@);
    while n > 0 && units[n - 1] == 0
        invariant
            n <= units@.len(),
            trimmed_len(units@.take(n as int)) == trimmed_len(units@),
        decreases n,
    {
        assert(units@.take(n as int).drop_last() =~= units@.take(n - 1));
        n = n - 1;
    }
    proof {
        assert(units@.take(units@.len() as int) =~= units@);
        if n > 0 {
            assert(units@.take(n as int).last() != 0u16);
        }
        assert(trimmed_len(units@.take(n as int)) == n);
        if no_surrogates(trim_nul_units(units@)) {
            lemma_utf16_lossy_without_surrogates(trim_nul_units(units@));
        }
    }
    decode_utf16_lossy(slice_subrange(units, 0, n))
}

/// Whether a fixed UTF-16 name field, without its trailing NUL units, reads
/// as `name`.
pub fn wide_name_is(units: &[u16], name: &str) -> (b: bool)
    ensures
        b == (utf16_lossy(trim_nul_units(units@)) == name@),
{
    let decoded = wide_name(units);
    let wanted = name.to_owned();
    decoded == wanted
}

/// The UTF-8 encoding of a character other than NUL holds no zero byte.
proof fn lemma_scalar_bytes_nonzero(v: u32)
    requires
        is_scalar(v),
        v != 0,
    ensures
        forall|i: int| 0 <= i < encode_scalar(v).len() ==> encode_scalar(v)[i] != 0u8,
{
    assert(leading_byte_width_2(v) != 0 && leading_byte_width_3(v) != 0 && leading_byte_width_4(v)
        != 0 && last_continuation_byte(v) != 0 && second_last_continuation_byte(v) != 0
        && third_last_continuation_byte(v) != 0) by (bit_vector);
    if has_width_1_encoding(v) {
        assert(leading_byte_width_1(v) != 0) by (bit_vector)
            requires
                1 <= v <= 0x7F,
        ;
    }
}

/// The UTF-8 encoding of text without NUL characters holds no zero byte.
proof fn lemma_utf8_bytes_nonzero(s: Seq<char>)
    requires
        forall|i: int| 0 <= i < s.len() ==> (#[trigger] s[i]) as u32 != 0,
    ensures
        forall|i: int| 0 <= i < encode_utf8(s).len() ==> encode_utf8(s)[i] != 0u8,
    decreases s.len(),
{
    if s.len() > 0 {
        vstd::utf8::char_is_scalar(s[0]);
        lemma_scalar_bytes_nonzero(s[0] as u32);
        let rest = s.drop_first();
        assert forall|i: int| 0 <= i < rest.len() implies (#[trigger] rest[i]) as u32 != 0 by {
            assert(rest[i] == s[i + 1]);
        }
        lemma_utf8_bytes_nonzero(rest);
        let head = encode_scalar(s[0] as u32);
        assert(encode_utf8(s) == head + encode_utf8(rest));
        assert forall|i: int| 0 <= i < encode_utf8(s).len() implies encode_utf8(s)[i] != 0u8 by {
            if i >= head.len() {
                assert(encode_utf8(s)[i] == encode_utf8(rest)[i - head.len()]);
            }
        }
    }
}

/// A name without NUL characters whose UTF-8 encoding fits an `n`-byte field
/// reads back as itself: the field that `name_field` fills is cut by
/// `buf_to_string` exactly at the end of the name, and the bytes there are
/// well-formed UTF-8 that decode to the name.
pub proof fn lemma_name_field_roundtrip(s: Seq<char>, n: nat)
    requires
        forall|i: int| 0 <= i < s.len() ==> (#[trigger] s[i]) as u32 != 0,
        encode_utf8(s).len() <= n,
    ensures
        c_str(fixed_field(encode_utf8(s), n)) == encode_utf8(s),
        valid_utf8(encode_utf8(s)),
        decode_utf8(encode_utf8(s)) == s,
{
    let e = encode_utf8(s);
    let f = fixed_field(e, n);
    lemma_utf8_bytes_nonzero(s);
    assert(is_len_before(f, 0u8, e.len() as int));
    lemma_len_before_unique(f, 0u8, e.len() as int);
    assert(f.take(e.len() as int) =~= e);
    encode_utf8_valid_utf8(s);
    encode_utf8_decode_utf8(s);
}

} // verus!
