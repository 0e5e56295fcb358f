//! Decoders of the replies that the driver writes back: the packed,
//! little-endian images of its result structures.

use crate::guid::{get_guid, guid_bytes, lemma_guid_bytes_injective, lemma_guid_bytes_len, Guid};
use crate::protocol::ALLUNO_VDD_MAX_DISPLAYS;
use crate::text::{buf_to_string, c_str, fixed_field, lemma_name_field_roundtrip, utf8_lossy};
use crate::types::{AddResult, DisplayInfo, Version, WatchdogState};
use crate::wire::{
    get_i32, get_i64, get_u32, le32, le_i32, le_i64, lemma_field_encodings, read_le32,
    read_le_i32, read_le_i64,
};
use vstd::prelude::*;
use vstd::slice::slice_subrange;
use vstd::utf8::{decode_utf8, encode_utf8, valid_utf8};

verus! {

/// Size of the add-display reply: adapter LUID and target id.
pub const ADD_RESULT_SIZE: usize = 12;

/// Size of the version reply: major, minor and patch.
pub const VERSION_SIZE: usize = 12;

/// Size of the watchdog reply: timeout and countdown.
pub const WATCHDOG_SIZE: usize = 8;

/// Size of one display entry of the list reply.
pub const DISPLAY_INFO_SIZE: usize = 74;

/// Size of the list reply: the count and sixteen display entries.
pub const LIST_RESULT_SIZE: usize = 1188;

/// The add-display reply as the driver writes it.
pub open spec fn add_reply_bytes(adapter_luid: i64, target_id: u32) -> Seq<u8> {
    le_i64(adapter_luid) + le32(target_id)
}

/// The version reply as the driver writes it.
pub open spec fn version_bytes(v: Version) -> Seq<u8> {
    le32(v.major) + le32(v.minor) + le32(v.patch)
}

/// The watchdog reply as the driver writes it.
pub open spec fn watchdog_bytes(w: WatchdogState) -> Seq<u8> {
    le32(w.timeout_ms) + le32(w.countdown_ms)
}

/// The result of an add-display request: the adapter LUID and target id
/// that the driver reports, and the GUID the display was created with.
pub fn add_result_from_reply(reply: &[u8], monitor_guid: &Guid) -> (r: AddResult)
    requires
        reply@.len() == ADD_RESULT_SIZE,
    ensures
        add_reply_bytes(r.adapter_luid, r.target_id) == reply@,
        r.adapter_luid == read_le_i64(reply@.subrange(0, 8)),
        r.target_id == read_le32(reply@.subrange(8, 12)),
        r.monitor_guid == *monitor_guid,
{
    let r = AddResult {
        adapter_luid: get_i64(reply, 0),
        target_id: get_u32(reply, 8),
        monitor_guid: *monitor_guid,
    };
    proof {
        lemma_field_encodings();
        assert(reply@ =~= reply@.subrange(0, 8) + reply@.subrange(8, 12));
    }
    r
}

/// The protocol version that the driver reports.
pub fn version_from_reply(reply: &[u8]) -> (v: Version)
    requires
        reply@.len() == VERSION_SIZE,
    ensures
        version_bytes(v) == reply@,
        v.major == read_le32(reply@.subrange(0, 4)),
        v.minor == read_le32(reply@.subrange(4, 8)),
        v.patch == read_le32(reply@.subrange(8, 12)),
{
    let v = Version { major: get_u32(reply, 0), minor: get_u32(reply, 4), patch: get_u32(reply, 8) };
    proof {
        lemma_field_encodings();
        assert(reply@ =~= reply@.subrange(0, 4) + reply@.subrange(4, 8) + reply@.subrange(8, 12));
    }
    v
}

/// The watchdog state that the driver reports.
pub fn watchdog_from_reply(reply: &[u8]) -> (w: WatchdogState)
    requires
        reply@.len() == WATCHDOG_SIZE,
    ensures
        watchdog_bytes(w) == reply@,
        w.timeout_ms == read_le32(reply@.subrange(0, 4)),
        w.countdown_ms == read_le32(reply@.subrange(4, 8)),
{
    let w = WatchdogState { timeout_ms: get_u32(reply, 0), countdown_ms: get_u32(reply, 4) };
    proof {
        lemma_field_encodings();
        assert(reply@ =~= reply@.subrange(0, 4) + reply@.subrange(4, 8));
    }
    w
}

/// Each fixed-size reply determines the value decoded from it and is
/// determined by it: decoding the bytes that the driver writes for a value
/// gives that value back.
pub proof fn lemma_reply_roundtrips(
    v1: Version,
    v2: Version,
    w1: WatchdogState,
    w2: WatchdogState,
    l1: i64,
    t1: u32,
    l2: i64,
    t2: u32,
)
    ensures
        version_bytes(v1).len() == VERSION_SIZE,
        version_bytes(v1) == version_bytes(v2) ==> v1 == v2,
        watchdog_bytes(w1).len() == WATCHDOG_SIZE,
        watchdog_bytes(w1) == watchdog_bytes(w2) ==> w1 == w2,
        add_reply_bytes(l1, t1).len() == ADD_RESULT_SIZE,
        add_reply_bytes(l1, t1) == add_reply_bytes(l2, t2) ==> l1 == l2 && t1 == t2,
{
    lemma_field_encodings();
    if version_bytes(v1) == version_bytes(v2) {
        assert(version_bytes(v1).subrange(0, 4) == le32(v1.major));
        assert(version_bytes(v2).subrange(0, 4) == le32(v2.major));
        assert(version_bytes(v1).subrange(4, 8) == le32(v1.minor));
        assert(version_bytes(v2).subrange(4, 8) == le32(v2.minor));
        assert(version_bytes(v1).subrange(8, 12) == le32(v1.patch));
        assert(version_bytes(v2).subrange(8, 12) == le32(v2.patch));
        assert(read_le32(le32(v1.major)) == v1.major);
        assert(read_le32(le32(v2.major)) == v2.major);
        assert(read_le32(le32(v1.minor)) == v1.minor);
        assert(read_le32(le32(v2.minor)) == v2.minor);
        assert(read_le32(le32(v1.patch)) == v1.patch);
        assert(read_le32(le32(v2.patch)) == v2.patch);
    }
    if watchdog_bytes(w1) == watchdog_bytes(w2) {
        assert(watchdog_bytes(w1).subrange(0, 4) == le32(w1.timeout_ms));
        assert(watchdog_bytes(w2).subrange(0, 4) == le32(w2.timeout_ms));
        assert(watchdog_bytes(w1).subrange(4, 8) == le32(w1.countdown_ms));
        assert(watchdog_bytes(w2).subrange(4, 8) == le32(w2.countdown_ms));
        assert(read_le32(le32(w1.timeout_ms)) == w1.timeout_ms);
        assert(read_le32(le32(w2.timeout_ms)) == w2.timeout_ms);
        assert(read_le32(le32(w1.countdown_ms)) == w1.countdown_ms);
        assert(read_le32(le32(w2.countdown_ms)) == w2.countdown_ms);
    }
    if add_reply_bytes(l1, t1) == add_reply_bytes(l2, t2) {
        assert(add_reply_bytes(l1, t1).subrange(0, 8) == le_i64(l1));
        assert(add_reply_bytes(l2, t2).subrange(0, 8) == le_i64(l2));
        assert(add_reply_bytes(l1, t1).subrange(8, 12) == le32(t1));
        assert(add_reply_bytes(l2, t2).subrange(8, 12) == le32(t2));
        assert(read_le_i64(le_i64(l1)) == l1);
        assert(read_le_i64(le_i64(l2)) == l2);
        assert(read_le32(le32(t1)) == t1);
        assert(read_le32(le32(t2)) == t2);
    }
}

/// `d` is what one 74-byte display entry of the list reply says: GUID, mode,
/// adapter LUID, target id, the NUL-terminated UTF-8 device name, the active
/// flag (any nonzero value) and the vsync fraction.
pub open spec fn display_info_matches(d: DisplayInfo, slot: Seq<u8>) -> bool {
    let name = c_str(slot.subrange(48, 62));
    &&& guid_bytes(d.monitor_guid) == slot.subrange(0, 16)
    &&& d.width == read_le32(slot.subrange(16, 20))
    &&& d.height == read_le32(slot.subrange(20, 24))
    &&& d.refresh_rate == read_le32(slot.subrange(24, 28))
    &&& d.bits_per_channel == read_le32(slot.subrange(28, 32))
    &&& d.hdr_mode == read_le32(slot.subrange(32, 36))
    &&& d.adapter_luid == read_le_i64(slot.subrange(36, 44))
    &&& d.target_id == read_le32(slot.subrange(44, 48))
    &&& d.device_name@ == utf8_lossy(name)
    &&& (valid_utf8(name) ==> d.device_name@ == decode_utf8(name))
    &&& d.active == (read_le_i32(slot.subrange(62, 66)) != 0)
    &&& d.vsync_numerator == read_le32(slot.subrange(66, 70))
    &&& d.vsync_denominator == read_le32(slot.subrange(70, 74))
}

/// Entry `i` of the list reply.
pub open spec fn display_slot(reply: Seq<u8>, i: int) -> Seq<u8> {
    reply.subrange(4 + 74 * i, 4 + 74 * i + 74)
}

/// How many entries of the list reply are taken: the count that the driver
/// reports, at most sixteen.
pub open spec fn listed_count(reply: Seq<u8>) -> nat {
    let count = read_le32(reply.subrange(0, 4));
    if count < 16 {
        count as nat
    } else {
        16
    }
}

fn display_info_at(reply: &[u8], off: usize) -> (d: DisplayInfo)
    requires
        off + DISPLAY_INFO_SIZE <= reply@.len(),
    ensures
        display_info_matches(d, reply@.subrange(off as int, off + 74)),
{
    let _len = reply.len();
    let slot = slice_subrange(reply, off, off + DISPLAY_INFO_SIZE);
    let d = DisplayInfo {
        monitor_guid: get_guid(slot, 0),
        width: get_u32(slot, 16),
        height: get_u32(slot, 20),
        refresh_rate: get_u32(slot, 24),
        bits_per_channel: get_u32(slot, 28),
        hdr_mode: get_u32(slot, 32),
        adapter_luid: get_i64(slot, 36),
        target_id: get_u32(slot, 44),
        device_name: buf_to_string(slice_subrange(slot, 48, 62)),
        active: get_i32(slot, 62) != 0,
        vsync_numerator: get_u32(slot, 66),
        vsync_denominator: get_u32(slot, 70),
    };
    d
}

/// The virtual displays in a list reply: as many entries as the reported
/// count says, at most sixteen, each decoded from its 74-byte slot after the
/// 4-byte count.
pub fn display_list_from_reply(reply: &[u8]) -> (displays: Vec<DisplayInfo>)
    requires
        reply@.len() == LIST_RESULT_SIZE,
    ensures
        displays@.len() == listed_count(reply@),
        displays@.len() <= ALLUNO_VDD_MAX_DISPLAYS,
        forall|i: int|
            0 <= i < displays@.len() ==> display_info_matches(
                #[trigger] displays@[i],
                display_slot(reply@, i),
            ),
{
    let count = get_u32(reply, 0);
    let n: usize = if (count as usize) < ALLUNO_VDD_MAX_DISPLAYS {
        count as usize
    } else {
        ALLUNO_VDD_MAX_DISPLAYS
    };
    let mut displays: Vec<DisplayInfo> = Vec::with_capacity(n);
    let mut i: usize = 0;
    while i < n
        invariant
            reply@.len() == LIST_RESULT_SIZE,
            n == listed_count(reply@),
            n <= 16,
            i <= n,
            displays@.len() == i,
            forall|k: int|
                0 <= k < i ==> display_info_matches(
                    #[trigger] displays@[k],
                    display_slot(reply@, k),
                ),
        decreases n - i,
    {
        let d = display_info_at(reply, 4 + DISPLAY_INFO_SIZE * i);
        displays.push(d);
        i = i + 1;
    }
    displays
}

/// A display entry as the driver writes it, with the device name given as
/// text.
pub open spec fn display_entry_bytes(
    monitor_guid: Guid,
    width: u32,
    height: u32,
    refresh_rate: u32,
    bits_per_channel: u32,
    hdr_mode: u32,
    adapter_luid: i64,
    target_id: u32,
    name: Seq<char>,
    active: i32,
    vsync_numerator: u32,
    vsync_denominator: u32,
) -> Seq<u8> {
    guid_bytes(monitor_guid) + le32(width) + le32(height) + le32(refresh_rate) + le32(
        bits_per_channel,
    ) + le32(hdr_mode) + le_i64(adapter_luid) + le32(target_id) + fixed_field(
        encode_utf8(name),
        14,
    ) + le_i32(active) + le32(vsync_numerator) + le32(vsync_denominator)
}

/// Decoding a display entry gives back what the driver wrote into it: the
/// GUID, the mode, the adapter and target, the vsync fraction, whether the
/// display is active, and the device name itself when it holds no NUL and
/// its UTF-8 bytes fit the 14-byte field.
pub proof fn lemma_display_entry_roundtrip(
    d: DisplayInfo,
    monitor_guid: Guid,
    width: u32,
    height: u32,
    refresh_rate: u32,
    bits_per_channel: u32,
    hdr_mode: u32,
    adapter_luid: i64,
    target_id: u32,
    name: Seq<char>,
    active: i32,
    vsync_numerator: u32,
    vsync_denominator: u32,
)
    requires
        display_info_matches(
            d,
            display_entry_bytes(
                monitor_guid,
                width,
                height,
                refresh_rate,
                bits_per_channel,
                hdr_mode,
                adapter_luid,
                target_id,
                name,
                active,
                vsync_numerator,
                vsync_denominator,
            ),
        ),
    ensures
        display_entry_bytes(
            monitor_guid,
            width,
            height,
            refresh_rate,
            bits_per_channel,
            hdr_mode,
            adapter_luid,
            target_id,
            name,
            active,
            vsync_numerator,
            vsync_denominator,
        ).len() == DISPLAY_INFO_SIZE,
        d.monitor_guid == monitor_guid,
        d.width == width,
        d.height == height,
        d.refresh_rate == refresh_rate,
        d.bits_per_channel == bits_per_channel,
        d.hdr_mode == hdr_mode,
        d.adapter_luid == adapter_luid,
        d.target_id == target_id,
        d.active == (active != 0),
        d.vsync_numerator == vsync_numerator,
        d.vsync_denominator == vsync_denominator,
        (forall|i: int| 0 <= i < name.len() ==> (#[trigger] name[i]) as u32 != 0) && encode_utf8(
            name,
        ).len() <= 14 ==> d.device_name@ == name,
{
    lemma_field_encodings();
    lemma_guid_bytes_len(monitor_guid);
    lemma_guid_bytes_injective(d.monitor_guid, monitor_guid);
    let e = display_entry_bytes(
        monitor_guid,
        width,
        height,
        refresh_rate,
        bits_per_channel,
        hdr_mode,
        adapter_luid,
        target_id,
        name,
        active,
        vsync_numerator,
        vsync_denominator,
    );
    let field = fixed_field(encode_utf8(name), 14);
    assert(field.len() == 14);
    assert(e.subrange(0, 16) == guid_bytes(monitor_guid));
    assert(e.subrange(16, 20) == le32(width));
    assert(e.subrange(20, 24) == le32(height));
    assert(e.subrange(24, 28) == le32(refresh_rate));
    assert(e.subrange(28, 32) == le32(bits_per_channel));
    assert(e.subrange(32, 36) == le32(hdr_mode));
    assert(e.subrange(36, 44) == le_i64(adapter_luid));
    assert(e.subrange(44, 48) == le32(target_id));
    assert(e.subrange(48, 62) == field);
    assert(e.subrange(62, 66) == le_i32(active));
    assert(e.subrange(66, 70) == le32(vsync_numerator));
    assert(e.subrange(70, 74) == le32(vsync_denominator));
    if (forall|i: int| 0 <= i < name.len() ==> (#[trigger] name[i]) as u32 != 0) && encode_utf8(
        name,
    ).len() <= 14 {
        lemma_name_field_roundtrip(name, 14);
    }
}

} // verus!
