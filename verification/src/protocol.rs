//! Protocol constants shared with the driver, the control codes of its
//! requests, and the protocol-version compatibility rule.

use crate::types::Version;
use vstd::prelude::*;

verus! {

/// Most virtual displays the driver manages at once.
pub const ALLUNO_VDD_MAX_DISPLAYS: usize = 16;

/// Largest custom EDID block the driver accepts.
pub const ALLUNO_VDD_EDID_MAX_SIZE: usize = 256;

/// Width of the fixed device-name field of the wire structures.
pub const ALLUNO_VDD_DEVICE_NAME_LEN: usize = 14;

/// Width of the fixed serial-number field of the wire structures.
pub const ALLUNO_VDD_SERIAL_LEN: usize = 14;

pub const ALLUNO_VDD_BPC_8: u32 = 8;

pub const ALLUNO_VDD_BPC_10: u32 = 10;

pub const ALLUNO_VDD_BPC_12: u32 = 12;

pub const ALLUNO_VDD_HDR_OFF: u32 = 0;

pub const ALLUNO_VDD_HDR_HDR10: u32 = 1;

pub const ALLUNO_VDD_HDR_HDR10_PLUS: u32 = 2;

pub const ALLUNO_VDD_PROTOCOL_MAJOR: u32 = 2;

pub const ALLUNO_VDD_PROTOCOL_MINOR: u32 = 0;

pub const ALLUNO_VDD_PROTOCOL_PATCH: u32 = 0;

/// The control code of driver function `function`: device type
/// `FILE_DEVICE_UNKNOWN` (0x22) in the upper word, buffered transfer and any
/// access in the low bits, and the function number in bits 2 to 13.
pub open spec fn spec_ctl_code(function: u32) -> u32 {
    (0x22u32 << 16u32) | (function << 2u32)
}

/// Computes the control code of driver function `function`.
pub fn ctl_code(function: u32) -> (code: u32)
    ensures
        code == spec_ctl_code(function),
{
    (0x22u32 << 16u32) | (function << 2u32)
}

pub const IOCTL_ALLUNO_VDD_ADD_DISPLAY: u32 = (0x22u32 << 16u32) | (0x800u32 << 2u32);

pub const IOCTL_ALLUNO_VDD_REMOVE_DISPLAY: u32 = (0x22u32 << 16u32) | (0x801u32 << 2u32);

pub const IOCTL_ALLUNO_VDD_SET_RENDER_ADAPTER: u32 = (0x22u32 << 16u32) | (0x802u32 << 2u32);

pub const IOCTL_ALLUNO_VDD_GET_WATCHDOG: u32 = (0x22u32 << 16u32) | (0x803u32 << 2u32);

pub const IOCTL_ALLUNO_VDD_UPDATE_MODE: u32 = (0x22u32 << 16u32) | (0x804u32 << 2u32);

pub const IOCTL_ALLUNO_VDD_LIST_DISPLAYS: u32 = (0x22u32 << 16u32) | (0x805u32 << 2u32);

pub const IOCTL_ALLUNO_VDD_REMOVE_ALL: u32 = (0x22u32 << 16u32) | (0x806u32 << 2u32);

pub const IOCTL_ALLUNO_VDD_SET_WATCHDOG: u32 = (0x22u32 << 16u32) | (0x807u32 << 2u32);

pub const IOCTL_ALLUNO_VDD_SET_HDR: u32 = (0x22u32 << 16u32) | (0x808u32 << 2u32);

pub const IOCTL_ALLUNO_VDD_SET_CUSTOM_EDID: u32 = (0x22u32 << 16u32) | (0x809u32 << 2u32);

pub const IOCTL_ALLUNO_VDD_PING: u32 = (0x22u32 << 16u32) | (0x888u32 << 2u32);

pub const IOCTL_ALLUNO_VDD_GET_VERSION: u32 = (0x22u32 << 16u32) | (0x8FFu32 << 2u32);

/// Each request code of the driver is the control code of its function
/// number.
pub proof fn lemma_request_codes()
    ensures
        IOCTL_ALLUNO_VDD_ADD_DISPLAY == spec_ctl_code(0x800),
        IOCTL_ALLUNO_VDD_REMOVE_DISPLAY == spec_ctl_code(0x801),
        IOCTL_ALLUNO_VDD_SET_RENDER_ADAPTER == spec_ctl_code(0x802),
        IOCTL_ALLUNO_VDD_GET_WATCHDOG == spec_ctl_code(0x803),
        IOCTL_ALLUNO_VDD_UPDATE_MODE == spec_ctl_code(0x804),
        IOCTL_ALLUNO_VDD_LIST_DISPLAYS == spec_ctl_code(0x805),
        IOCTL_ALLUNO_VDD_REMOVE_ALL == spec_ctl_code(0x806),
        IOCTL_ALLUNO_VDD_SET_WATCHDOG == spec_ctl_code(0x807),
        IOCTL_ALLUNO_VDD_SET_HDR == spec_ctl_code(0x808),
        IOCTL_ALLUNO_VDD_SET_CUSTOM_EDID == spec_ctl_code(0x809),
        IOCTL_ALLUNO_VDD_PING == spec_ctl_code(0x888),
        IOCTL_ALLUNO_VDD_GET_VERSION == spec_ctl_code(0x8FF),
{
}

/// Distinct function numbers (below 0x4000, the width of the function field)
/// give distinct control codes, and every code carries the unknown-device
/// type and buffered, any-access transfer.
pub proof fn lemma_ctl_code_fields(f1: u32, f2: u32)
    requires
        f1 < 0x4000,
        f2 < 0x4000,
    ensures
        f1 != f2 ==> spec_ctl_code(f1) != spec_ctl_code(f2),
        spec_ctl_code(f1) >> 16u32 == 0x22,
        spec_ctl_code(f1) & 3 == 0,
        (spec_ctl_code(f1) >> 2u32) & 0x3fff == f1,
{
    assert(f1 < 0x4000 && f2 < 0x4000 && f1 != f2 ==> ((0x22u32 << 16u32) | (f1 << 2u32)) != ((0x22u32 << 16u32) | (f2 << 2u32)))
        by (bit_vector);
    assert(f1 < 0x4000 ==> ((0x22u32 << 16u32) | (f1 << 2u32)) >> 16u32
        == 0x22) by (bit_vector);
    assert(((0x22u32 << 16u32) | (f1 << 2u32)) & 3 == 0) by (bit_vector);
    assert(f1 < 0x4000 ==> (((0x22u32 << 16u32) | (f1 << 2u32)) >> 2u32)
        & 0x3fff == f1) by (bit_vector);
}

/// Whether a driver reporting version `v` speaks this crate's protocol: the
/// same major version and at least the same minor version.
pub fn version_is_compatible(v: &Version) -> (b: bool)
    ensures
        b == (v.major == ALLUNO_VDD_PROTOCOL_MAJOR && v.minor >= ALLUNO_VDD_PROTOCOL_MINOR),
{
    v.major == ALLUNO_VDD_PROTOCOL_MAJOR && v.minor >= ALLUNO_VDD_PROTOCOL_MINOR
}

} // verus!
