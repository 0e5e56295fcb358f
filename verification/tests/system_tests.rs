use alluno_vdd_sys::system::{
    check_interface_list, check_interface_list_size, gdi_name_from_units, is_active_display,
    find_move_target, resolve_gdi_name, system_display_info, DisplaySettings, TargetPath,
};
use alluno_vdd_sys::display_config::luid_from_i64;
use alluno_vdd_sys::types::VddError;

fn wide(s: &str, len: usize) -> Vec<u16> {
    let mut v: Vec<u16> = s.encode_utf16().collect();
    v.resize(len, 0);
    v
}

#[test]
fn interface_list_checks() {
    assert_eq!(check_interface_list_size(true, 40), Ok(()));
    assert_eq!(check_interface_list_size(true, 1), Err(VddError::DeviceNotFound));
    assert_eq!(check_interface_list_size(true, 0), Err(VddError::DeviceNotFound));
    assert_eq!(check_interface_list_size(false, 40), Err(VddError::DeviceNotFound));
    assert_eq!(check_interface_list(true, b'\\' as u16), Ok(()));
    assert_eq!(check_interface_list(true, 0), Err(VddError::InterfaceEnumerationFailed));
    assert_eq!(check_interface_list(false, b'\\' as u16), Err(VddError::InterfaceEnumerationFailed));
}

#[test]
fn error_messages() {
    assert_eq!(VddError::DeviceNotFound.message(), "AllunoVDD device not found");
    assert_eq!(VddError::InvalidEdidSize.message(), "EDID must be 128 or 256 bytes");
    assert_eq!(
        VddError::MoveTargetNotFound.message(),
        "Target display not found for move_all_windows_to_display"
    );
}

#[test]
fn gdi_names() {
    assert_eq!(gdi_name_from_units(&wide("\\\\.\\DISPLAY5", 32)), Some("\\\\.\\DISPLAY5".to_string()));
    assert_eq!(gdi_name_from_units(&wide("", 32)), None);
    assert_eq!(gdi_name_from_units(&[]), None);
    let mut stop_early = wide("AB", 8);
    stop_early[4] = b'C' as u16;
    assert_eq!(gdi_name_from_units(&stop_early), Some("AB".to_string()));
}

#[test]
fn system_display_entries() {
    assert!(is_active_display(0x1));
    assert!(is_active_display(0x5));
    assert!(!is_active_display(0x4));
    let d = system_display_info(
        0x5,
        &wide("\\\\.\\DISPLAY1", 32),
        &wide("Intel(R) Iris(R) Xe Graphics", 128),
        Some(DisplaySettings { width: 2560, height: 1600, refresh_rate: 60 }),
    );
    assert_eq!(d.device_name, "\\\\.\\DISPLAY1");
    assert_eq!(d.adapter_desc, "Intel(R) Iris(R) Xe Graphics");
    assert_eq!((d.width, d.height, d.refresh_rate), (2560, 1600, 60));
    assert!(d.is_primary);
    let e = system_display_info(0x1, &wide("\\\\.\\DISPLAY9", 32), &wide("AllunoVDD", 128), None);
    assert_eq!((e.width, e.height, e.refresh_rate), (0, 0, 0));
    assert!(!e.is_primary);
}

#[test]
fn gdi_name_resolution() {
    let luid = 0x1_0000_0042i64;
    let paths = vec![
        TargetPath { adapter: luid_from_i64(luid), target_id: 3, source_name: Some(wide("\\\\.\\DISPLAY1", 32)) },
        TargetPath { adapter: luid_from_i64(luid), target_id: 7, source_name: None },
        TargetPath { adapter: luid_from_i64(luid), target_id: 7, source_name: Some(wide("", 32)) },
        TargetPath { adapter: luid_from_i64(luid + 1), target_id: 7, source_name: Some(wide("\\\\.\\DISPLAY4", 32)) },
        TargetPath { adapter: luid_from_i64(luid), target_id: 7, source_name: Some(wide("\\\\.\\DISPLAY5", 32)) },
        TargetPath { adapter: luid_from_i64(luid), target_id: 7, source_name: Some(wide("\\\\.\\DISPLAY6", 32)) },
    ];
    assert_eq!(resolve_gdi_name(&paths, luid, 7), Some("\\\\.\\DISPLAY5".to_string()));
    assert_eq!(resolve_gdi_name(&paths, luid, 3), Some("\\\\.\\DISPLAY1".to_string()));
    assert_eq!(resolve_gdi_name(&paths, luid, 9), None);
    assert_eq!(resolve_gdi_name(&vec![], luid, 7), None);
}

#[test]
fn move_target_lookup() {
    let devices = vec![wide("\\\\.\\DISPLAY1", 32), wide("\\\\.\\DISPLAY9", 32), wide("\\\\.\\DISPLAY9", 32)];
    assert_eq!(find_move_target(&devices, "\\\\.\\DISPLAY9"), Ok(1));
    assert_eq!(find_move_target(&devices, "\\\\.\\DISPLAY1"), Ok(0));
    assert_eq!(find_move_target(&devices, "\\\\.\\DISPLAY2"), Err(VddError::MoveTargetNotFound));
    assert_eq!(find_move_target(&vec![], "x"), Err(VddError::MoveTargetNotFound));
}
