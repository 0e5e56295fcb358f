use alluno_vdd_sys::guid::Guid;
use alluno_vdd_sys::requests::{
    add_display_request, effective_bits_per_channel, needs_advanced_color, remove_display_request,
    set_custom_edid_request, set_hdr_request, set_hdr_with_metadata_request,
    set_render_adapter_request, set_watchdog_request, update_mode_request,
};
use alluno_vdd_sys::types::{HdrMetadata, VddError};

fn sample_guid() -> Guid {
    Guid { data1: 0x1122_3344, data2: 0x5566, data3: 0x7788, data4: [1, 2, 3, 4, 5, 6, 7, 8] }
}

const GUID_BYTES: [u8; 16] = [0x44, 0x33, 0x22, 0x11, 0x66, 0x55, 0x88, 0x77, 1, 2, 3, 4, 5, 6, 7, 8];

#[test]
fn add_display_request_layout() {
    let g = sample_guid();
    let req = add_display_request(1920, 1080, 60, "Test", "SN001", 8, 0, &g, 60000, 1001);
    assert_eq!(req.len(), 72);
    assert_eq!(&req[0..4], &1920u32.to_le_bytes());
    assert_eq!(&req[4..8], &1080u32.to_le_bytes());
    assert_eq!(&req[8..12], &60u32.to_le_bytes());
    assert_eq!(&req[12..28], &GUID_BYTES);
    assert_eq!(&req[28..42], b"Test\0\0\0\0\0\0\0\0\0\0");
    assert_eq!(&req[42..56], b"SN001\0\0\0\0\0\0\0\0\0");
    assert_eq!(&req[56..60], &8u32.to_le_bytes());
    assert_eq!(&req[60..64], &0u32.to_le_bytes());
    assert_eq!(&req[64..68], &60000u32.to_le_bytes());
    assert_eq!(&req[68..72], &1001u32.to_le_bytes());
}

#[test]
fn add_display_request_defaults_bit_depth_and_cuts_names() {
    let g = sample_guid();
    let req = add_display_request(3840, 2160, 120, "AVeryLongDisplayName", "", 0, 1, &g, 0, 0);
    assert_eq!(req.len(), 72);
    assert_eq!(&req[28..42], b"AVeryLongDispl");
    assert_eq!(&req[42..56], &[0u8; 14]);
    assert_eq!(&req[56..60], &8u32.to_le_bytes());
    assert_eq!(&req[60..64], &1u32.to_le_bytes());
}

#[test]
fn add_display_request_cuts_utf8_bytes() {
    let g = sample_guid();
    // 7 two-byte characters fill 14 bytes exactly; the eighth is cut.
    let req = add_display_request(1, 1, 1, "ééééééé\u{e9}", "", 8, 0, &g, 0, 0);
    let expected: Vec<u8> = "ééééééé".as_bytes().to_vec();
    assert_eq!(&req[28..42], expected.as_slice());
}

#[test]
fn bit_depth_and_advanced_color() {
    assert_eq!(effective_bits_per_channel(0), 8);
    assert_eq!(effective_bits_per_channel(10), 10);
    assert!(!needs_advanced_color(0));
    assert!(!needs_advanced_color(8));
    assert!(!needs_advanced_color(9));
    assert!(needs_advanced_color(10));
    assert!(needs_advanced_color(12));
}

#[test]
fn remove_and_adapter_and_watchdog_requests() {
    let g = sample_guid();
    assert_eq!(remove_display_request(&g), GUID_BYTES.to_vec());
    assert_eq!(set_render_adapter_request(-2), vec![0xfe, 0xff, 0xff, 0xff, 0xff, 0xff, 0xff, 0xff]);
    assert_eq!(set_render_adapter_request(0x0000_0001_0000_0002), vec![2, 0, 0, 0, 1, 0, 0, 0]);
    assert_eq!(set_watchdog_request(0), vec![0, 0, 0, 0]);
    assert_eq!(set_watchdog_request(5000), vec![0x88, 0x13, 0, 0]);
}

#[test]
fn update_mode_request_layout() {
    let g = sample_guid();
    let req = update_mode_request(&g, 2560, 1440, 144, 0, 0xFF, 0, 0);
    assert_eq!(req.len(), 44);
    assert_eq!(&req[0..16], &GUID_BYTES);
    assert_eq!(&req[16..20], &2560u32.to_le_bytes());
    assert_eq!(&req[20..24], &1440u32.to_le_bytes());
    assert_eq!(&req[24..28], &144u32.to_le_bytes());
    assert_eq!(&req[28..32], &0u32.to_le_bytes());
    assert_eq!(&req[32..36], &0xFFu32.to_le_bytes());
    assert_eq!(&req[36..44], &[0u8; 8]);
}

#[test]
fn set_hdr_requests() {
    let g = sample_guid();
    let plain = set_hdr_request(&g, 1, 10);
    assert_eq!(plain.len(), 76);
    assert_eq!(&plain[0..16], &GUID_BYTES);
    assert_eq!(&plain[16..20], &1u32.to_le_bytes());
    assert_eq!(&plain[20..24], &10u32.to_le_bytes());
    assert_eq!(&plain[24..28], &0u32.to_le_bytes());
    assert_eq!(&plain[28..76], &[0u8; 48]);

    let mut m = HdrMetadata::default();
    m.red_primary_x = 34000;
    m.max_luminance = 1000;
    m.max_frame_avg_light_level = 400;
    let with = set_hdr_with_metadata_request(&g, 2, 10, &m);
    assert_eq!(with.len(), 76);
    assert_eq!(&with[24..28], &1u32.to_le_bytes());
    assert_eq!(&with[28..32], &34000u32.to_le_bytes());
    assert_eq!(&with[32..60], &[0u8; 28]);
    assert_eq!(&with[60..64], &1000u32.to_le_bytes());
    assert_eq!(&with[64..72], &[0u8; 8]);
    assert_eq!(&with[72..76], &400u32.to_le_bytes());
}

#[test]
fn custom_edid_sizes() {
    let g = sample_guid();
    let short = vec![0xAAu8; 128];
    let req = set_custom_edid_request(&g, &short).unwrap();
    assert_eq!(req.len(), 276);
    assert_eq!(&req[16..20], &128u32.to_le_bytes());
    assert_eq!(&req[20..148], short.as_slice());
    assert!(req[148..].iter().all(|&b| b == 0));

    let full: Vec<u8> = (0..256).map(|i| i as u8).collect();
    let req = set_custom_edid_request(&g, &full).unwrap();
    assert_eq!(&req[16..20], &256u32.to_le_bytes());
    assert_eq!(&req[20..276], full.as_slice());

    for bad in [0usize, 127, 129, 255, 257, 512] {
        let edid = vec![1u8; bad];
        assert_eq!(set_custom_edid_request(&g, &edid), Err(VddError::InvalidEdidSize));
    }
}
