use alluno_vdd_sys::display_config::{
    advanced_color_request, find_primary_target, luid_from_i64, path_is_target,
    shift_source_modes, source_shift_fits, topology_flags, DisplayMode, Luid, SourcePath,
    PRIMARY_DISPLAY_CONFIG_FLAGS,
};
use alluno_vdd_sys::types::{DisplayTopology, VddError};

fn wide(s: &str) -> Vec<u16> {
    let mut v: Vec<u16> = s.encode_utf16().collect();
    v.resize(32, 0);
    v
}

#[test]
fn luid_split() {
    assert_eq!(luid_from_i64(0x0000_0001_0000_c3a1), Luid { low_part: 0xc3a1, high_part: 1 });
    assert_eq!(luid_from_i64(-1), Luid { low_part: 0xffff_ffff, high_part: -1 });
    assert_eq!(luid_from_i64(i64::MIN), Luid { low_part: 0, high_part: i32::MIN });
    for l in [0i64, 1, -1, 0x1234_5678_9abc_def0, i64::MIN, i64::MAX] {
        let p = luid_from_i64(l);
        assert_eq!(((p.high_part as i64) << 32) | (p.low_part as i64), l);
    }
}

#[test]
fn path_matching() {
    let l = luid_from_i64(0x2_0000_0010);
    assert!(path_is_target(&l, 7, 0x2_0000_0010, 7));
    assert!(!path_is_target(&l, 8, 0x2_0000_0010, 7));
    assert!(!path_is_target(&l, 7, 0x3_0000_0010, 7));
}

#[test]
fn topology_and_primary_flags() {
    assert_eq!(topology_flags(DisplayTopology::Extend), 0x84);
    assert_eq!(topology_flags(DisplayTopology::Duplicate), 0x82);
    assert_eq!(topology_flags(DisplayTopology::External), 0x88);
    assert_eq!(PRIMARY_DISPLAY_CONFIG_FLAGS, 0x2a0);
}

#[test]
fn advanced_color() {
    let on = advanced_color_request(0x1_0000_0005, 3, true);
    assert_eq!(on.adapter, Luid { low_part: 5, high_part: 1 });
    assert_eq!(on.target_id, 3);
    assert_eq!(on.value, 1);
    assert_eq!(advanced_color_request(0, 0, false).value, 0);
}

fn sample_config() -> (Vec<SourcePath>, Vec<DisplayMode>) {
    let paths = vec![
        SourcePath { gdi_name: Some(wide("\\\\.\\DISPLAY1")), mode_index: 1 },
        SourcePath { gdi_name: None, mode_index: 7 },
        SourcePath { gdi_name: Some(wide("\\\\.\\DISPLAY9")), mode_index: 3 },
    ];
    let modes = vec![
        DisplayMode::Other,
        DisplayMode::Source { x: 0, y: 0 },
        DisplayMode::Other,
        DisplayMode::Source { x: 1920, y: -200 },
    ];
    (paths, modes)
}

#[test]
fn primary_target_found_and_shifted() {
    let (paths, modes) = sample_config();
    let (idx, dx, dy) = find_primary_target(&paths, &modes, "\\\\.\\DISPLAY9").unwrap();
    assert_eq!((idx, dx, dy), (3, 1920, -200));
    assert!(source_shift_fits(&modes, dx, dy));
    let shifted = shift_source_modes(&modes, dx, dy);
    assert_eq!(
        shifted,
        vec![
            DisplayMode::Other,
            DisplayMode::Source { x: -1920, y: 200 },
            DisplayMode::Other,
            DisplayMode::Source { x: 0, y: 0 },
        ]
    );
}

#[test]
fn primary_target_errors() {
    let (paths, modes) = sample_config();
    assert_eq!(
        find_primary_target(&paths, &modes, "\\\\.\\DISPLAY4"),
        Err(VddError::PrimaryTargetNotFound)
    );
    let bad_index = vec![SourcePath { gdi_name: Some(wide("\\\\.\\DISPLAY2")), mode_index: 4 }];
    assert_eq!(
        find_primary_target(&bad_index, &modes, "\\\\.\\DISPLAY2"),
        Err(VddError::TargetModeIndexOutOfRange)
    );
    let not_source = vec![SourcePath { gdi_name: Some(wide("\\\\.\\DISPLAY2")), mode_index: 2 }];
    assert_eq!(
        find_primary_target(&not_source, &modes, "\\\\.\\DISPLAY2"),
        Err(VddError::TargetModeNotSource)
    );
}

#[test]
fn primary_target_first_match_wins() {
    let paths = vec![
        SourcePath { gdi_name: Some(wide("\\\\.\\DISPLAY2")), mode_index: 0 },
        SourcePath { gdi_name: Some(wide("\\\\.\\DISPLAY2")), mode_index: 1 },
    ];
    let modes = vec![DisplayMode::Source { x: 5, y: 6 }, DisplayMode::Source { x: 7, y: 8 }];
    assert_eq!(find_primary_target(&paths, &modes, "\\\\.\\DISPLAY2"), Ok((0, 5, 6)));
}

#[test]
fn shift_range_check() {
    let modes = vec![DisplayMode::Source { x: i32::MIN, y: 0 }, DisplayMode::Other];
    assert!(!source_shift_fits(&modes, 1, 0));
    assert!(source_shift_fits(&modes, 0, 0));
    assert!(source_shift_fits(&modes, -5, i32::MIN + 1));
    assert!(source_shift_fits(&[DisplayMode::Other].to_vec(), i32::MAX, i32::MAX));
}
