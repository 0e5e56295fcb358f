use alluno_vdd_sys::protocol::{
    ctl_code, version_is_compatible, IOCTL_ALLUNO_VDD_ADD_DISPLAY, IOCTL_ALLUNO_VDD_GET_VERSION,
    IOCTL_ALLUNO_VDD_GET_WATCHDOG, IOCTL_ALLUNO_VDD_LIST_DISPLAYS, IOCTL_ALLUNO_VDD_PING,
    IOCTL_ALLUNO_VDD_REMOVE_ALL, IOCTL_ALLUNO_VDD_REMOVE_DISPLAY, IOCTL_ALLUNO_VDD_SET_CUSTOM_EDID,
    IOCTL_ALLUNO_VDD_SET_HDR, IOCTL_ALLUNO_VDD_SET_RENDER_ADAPTER, IOCTL_ALLUNO_VDD_SET_WATCHDOG,
    IOCTL_ALLUNO_VDD_UPDATE_MODE, ALLUNO_VDD_PROTOCOL_MAJOR, ALLUNO_VDD_PROTOCOL_MINOR,
};
use alluno_vdd_sys::types::Version;

#[test]
fn ctl_code_formula() {
    assert_eq!(ctl_code(0x800), 0x0022_2000);
    assert_eq!(ctl_code(0), 0x0022_0000);
    assert_eq!(ctl_code(0x3fff), 0x0022_fffc);
}

#[test]
fn request_codes_have_driver_values() {
    assert_eq!(IOCTL_ALLUNO_VDD_ADD_DISPLAY, 0x0022_2000);
    assert_eq!(IOCTL_ALLUNO_VDD_REMOVE_DISPLAY, 0x0022_2004);
    assert_eq!(IOCTL_ALLUNO_VDD_SET_RENDER_ADAPTER, 0x0022_2008);
    assert_eq!(IOCTL_ALLUNO_VDD_GET_WATCHDOG, 0x0022_200c);
    assert_eq!(IOCTL_ALLUNO_VDD_UPDATE_MODE, 0x0022_2010);
    assert_eq!(IOCTL_ALLUNO_VDD_LIST_DISPLAYS, 0x0022_2014);
    assert_eq!(IOCTL_ALLUNO_VDD_REMOVE_ALL, 0x0022_2018);
    assert_eq!(IOCTL_ALLUNO_VDD_SET_WATCHDOG, 0x0022_201c);
    assert_eq!(IOCTL_ALLUNO_VDD_SET_HDR, 0x0022_2020);
    assert_eq!(IOCTL_ALLUNO_VDD_SET_CUSTOM_EDID, 0x0022_2024);
    assert_eq!(IOCTL_ALLUNO_VDD_PING, 0x0022_2220);
    assert_eq!(IOCTL_ALLUNO_VDD_GET_VERSION, 0x0022_23fc);
    assert_eq!(IOCTL_ALLUNO_VDD_PING, ctl_code(0x888));
    assert_eq!(IOCTL_ALLUNO_VDD_GET_VERSION, ctl_code(0x8ff));
}

#[test]
fn request_codes_are_distinct() {
    let codes = [
        IOCTL_ALLUNO_VDD_ADD_DISPLAY,
        IOCTL_ALLUNO_VDD_REMOVE_DISPLAY,
        IOCTL_ALLUNO_VDD_SET_RENDER_ADAPTER,
        IOCTL_ALLUNO_VDD_GET_WATCHDOG,
        IOCTL_ALLUNO_VDD_UPDATE_MODE,
        IOCTL_ALLUNO_VDD_LIST_DISPLAYS,
        IOCTL_ALLUNO_VDD_REMOVE_ALL,
        IOCTL_ALLUNO_VDD_SET_WATCHDOG,
        IOCTL_ALLUNO_VDD_SET_HDR,
        IOCTL_ALLUNO_VDD_SET_CUSTOM_EDID,
        IOCTL_ALLUNO_VDD_PING,
        IOCTL_ALLUNO_VDD_GET_VERSION,
    ];
    for i in 0..codes.len() {
        for j in 0..codes.len() {
            if i != j {
                assert_ne!(codes[i], codes[j]);
            }
        }
    }
}

#[test]
fn compatible_versions() {
    let same = Version { major: ALLUNO_VDD_PROTOCOL_MAJOR, minor: ALLUNO_VDD_PROTOCOL_MINOR, patch: 0 };
    assert!(version_is_compatible(&same));
    let newer_minor = Version { major: 2, minor: 5, patch: 3 };
    assert!(version_is_compatible(&newer_minor));
    let older_major = Version { major: 1, minor: 9, patch: 0 };
    assert!(!version_is_compatible(&older_major));
    let newer_major = Version { major: 3, minor: 0, patch: 0 };
    assert!(!version_is_compatible(&newer_major));
}
