use alluno_vdd_sys::guid::Guid;
use alluno_vdd_sys::responses::{
    add_result_from_reply, display_list_from_reply, version_from_reply, watchdog_from_reply,
    LIST_RESULT_SIZE,
};

fn guid_bytes(g: &Guid) -> Vec<u8> {
    let mut v = Vec::new();
    v.extend_from_slice(&g.data1.to_le_bytes());
    v.extend_from_slice(&g.data2.to_le_bytes());
    v.extend_from_slice(&g.data3.to_le_bytes());
    v.extend_from_slice(&g.data4);
    v
}

#[allow(clippy::too_many_arguments)]
fn display_entry(
    g: &Guid,
    width: u32,
    height: u32,
    refresh: u32,
    bpc: u32,
    hdr: u32,
    luid: i64,
    target: u32,
    name: &[u8],
    active: i32,
    num: u32,
    den: u32,
) -> Vec<u8> {
    let mut v = guid_bytes(g);
    for x in [width, height, refresh, bpc, hdr] {
        v.extend_from_slice(&x.to_le_bytes());
    }
    v.extend_from_slice(&luid.to_le_bytes());
    v.extend_from_slice(&target.to_le_bytes());
    let mut field = [0u8; 14];
    field[..name.len()].copy_from_slice(name);
    v.extend_from_slice(&field);
    v.extend_from_slice(&active.to_le_bytes());
    v.extend_from_slice(&num.to_le_bytes());
    v.extend_from_slice(&den.to_le_bytes());
    assert_eq!(v.len(), 74);
    v
}

fn list_reply(count: u32, entries: &[Vec<u8>]) -> Vec<u8> {
    let mut v = count.to_le_bytes().to_vec();
    for e in entries {
        v.extend_from_slice(e);
    }
    v.resize(LIST_RESULT_SIZE, 0);
    v
}

#[test]
fn version_reply() {
    let mut reply = Vec::new();
    for x in [2u32, 1, 7] {
        reply.extend_from_slice(&x.to_le_bytes());
    }
    let v = version_from_reply(&reply);
    assert_eq!((v.major, v.minor, v.patch), (2, 1, 7));
}

#[test]
fn watchdog_reply() {
    let mut reply = Vec::new();
    reply.extend_from_slice(&3000u32.to_le_bytes());
    reply.extend_from_slice(&1250u32.to_le_bytes());
    let w = watchdog_from_reply(&reply);
    assert_eq!(w.timeout_ms, 3000);
    assert_eq!(w.countdown_ms, 1250);
}

#[test]
fn add_result_reply() {
    let g = Guid { data1: 9, data2: 8, data3: 7, data4: [6; 8] };
    let mut reply = Vec::new();
    reply.extend_from_slice(&(-5i64).to_le_bytes());
    reply.extend_from_slice(&261u32.to_le_bytes());
    let r = add_result_from_reply(&reply, &g);
    assert_eq!(r.adapter_luid, -5);
    assert_eq!(r.target_id, 261);
    assert_eq!(r.monitor_guid, g);
}

#[test]
fn empty_list_reply() {
    let reply = list_reply(0, &[]);
    assert!(display_list_from_reply(&reply).is_empty());
}

#[test]
fn list_reply_entries() {
    let g1 = Guid { data1: 1, data2: 2, data3: 3, data4: [4, 5, 6, 7, 8, 9, 10, 11] };
    let g2 = Guid { data1: 0xdead_beef, data2: 0xffff, data3: 0, data4: [0xff; 8] };
    let e1 = display_entry(&g1, 1920, 1080, 60, 8, 0, 0x1_0000_0002, 4, b"Test", 1, 60000, 1001);
    let e2 = display_entry(&g2, 3840, 2160, 144, 10, 1, -1, 5, b"FourteenChars!", 0, 0, 0);
    let reply = list_reply(2, &[e1, e2]);
    let list = display_list_from_reply(&reply);
    assert_eq!(list.len(), 2);
    let a = &list[0];
    assert_eq!(a.monitor_guid, g1);
    assert_eq!((a.width, a.height, a.refresh_rate), (1920, 1080, 60));
    assert_eq!((a.bits_per_channel, a.hdr_mode), (8, 0));
    assert_eq!(a.adapter_luid, 0x1_0000_0002);
    assert_eq!(a.target_id, 4);
    assert_eq!(a.device_name, "Test");
    assert!(a.active);
    assert_eq!((a.vsync_numerator, a.vsync_denominator), (60000, 1001));
    let b = &list[1];
    assert_eq!(b.monitor_guid, g2);
    assert_eq!(b.adapter_luid, -1);
    assert_eq!(b.device_name, "FourteenChars!");
    assert!(!b.active);
    assert_eq!(b.hdr_mode, 1);
}

#[test]
fn list_reply_active_is_any_nonzero() {
    let g = Guid { data1: 0, data2: 0, data3: 0, data4: [0; 8] };
    let e = display_entry(&g, 1, 1, 1, 8, 0, 0, 0, b"x", -7, 0, 0);
    let list = display_list_from_reply(&list_reply(1, &[e]));
    assert!(list[0].active);
}

#[test]
fn list_reply_count_is_capped_at_sixteen() {
    let g = Guid { data1: 0, data2: 0, data3: 0, data4: [0; 8] };
    let entries: Vec<Vec<u8>> = (0..16u32)
        .map(|i| display_entry(&g, 100 + i, 200, 60, 8, 0, 0, i, b"d", 1, 0, 0))
        .collect();
    let list = display_list_from_reply(&list_reply(40, &entries));
    assert_eq!(list.len(), 16);
    for (i, d) in list.iter().enumerate() {
        assert_eq!(d.width, 100 + i as u32);
        assert_eq!(d.target_id, i as u32);
    }
    let list = display_list_from_reply(&list_reply(3, &entries));
    assert_eq!(list.len(), 3);
}

#[test]
fn list_reply_name_with_invalid_utf8_is_replaced() {
    let g = Guid { data1: 0, data2: 0, data3: 0, data4: [0; 8] };
    let e = display_entry(&g, 1, 1, 1, 8, 0, 0, 0, &[b'A', 0xff, b'B'], 1, 0, 0);
    let list = display_list_from_reply(&list_reply(1, &[e]));
    assert_eq!(list[0].device_name, "A\u{fffd}B");
}
