//! Decisions on what the system reports: the driver's device interface
//! list, the GDI name of a display path, and the enumeration of active
//! system displays.

use crate::text::{
    bmp_chars, no_surrogates, trim_nul_units, utf16_lossy, wide_c_str, wide_c_str_to_string,
    wide_name, wide_name_is,
};
use crate::display_config::{path_is_target, spec_luid, Luid};
use crate::types::{SystemDisplayInfo, VddError};
use vstd::prelude::*;

verus! {

/// The display-device state flag `DISPLAY_DEVICE_ACTIVE`.
pub const DISPLAY_DEVICE_ACTIVE: u32 = 0x1;

/// The display-device state flag `DISPLAY_DEVICE_PRIMARY_DEVICE`.
pub const DISPLAY_DEVICE_PRIMARY_DEVICE: u32 = 0x4;

/// Judges the size query of the driver's device interface list: the driver
/// is there only when the query succeeded and the list holds more than its
/// terminating NUL.
pub fn check_interface_list_size(query_ok: bool, list_size: u32) -> (r: Result<(), VddError>)
    ensures
        r is Err <==> (!query_ok || list_size <= 1),
        r matches Err(e) ==> e == VddError::DeviceNotFound,
{
    if !query_ok || list_size <= 1 {
        Err(VddError::DeviceNotFound)
    } else {
        Ok(())
    }
}

/// Judges the device interface list itself: it is usable only when the query
/// succeeded and its first path is not empty.
pub fn check_interface_list(query_ok: bool, first_unit: u16) -> (r: Result<(), VddError>)
    ensures
        r is Err <==> (!query_ok || first_unit == 0),
        r matches Err(e) ==> e == VddError::InterfaceEnumerationFailed,
{
    if !query_ok || first_unit == 0 {
        Err(VddError::InterfaceEnumerationFailed)
    } else {
        Ok(())
    }
}

/// The GDI device name held in a NUL-terminated UTF-16 field, or `None` when
/// it is empty.
pub fn gdi_name_from_units(units: &[u16]) -> (name: Option<String>)
    ensures
        name is None <==> utf16_lossy(wide_c_str(units@)).len() == 0,
        name matches Some(s) ==> s@ == utf16_lossy(wide_c_str(units@)),
        name matches Some(s) ==> (no_surrogates(wide_c_str(units@)) ==> s@ == bmp_chars(
            wide_c_str(units@),
        )),
{
    let s = wide_c_str_to_string(units);
    if s.as_str().is_empty() {
        None
    } else {
        Some(s)
    }
}

/// A display path as far as GDI name resolution reads it: its source
/// adapter, its target id, and the NUL-terminated GDI name of its source
/// (`None` when the name was not read or could not be read).
#[derive(Clone, Debug)]
pub struct TargetPath {
    pub adapter: Luid,
    pub target_id: u32,
    pub source_name: Option<Vec<u16>>,
}

/// Whether path `p` leads to the target `target_id` of the adapter
/// `adapter_luid` and carries a nonempty source name.
pub open spec fn path_resolves(p: TargetPath, adapter_luid: i64, target_id: u32) -> bool {
    &&& p.adapter == spec_luid(adapter_luid)
    &&& p.target_id == target_id
    &&& match p.source_name {
        Some(units) => utf16_lossy(wide_c_str(units@)).len() > 0,
        None => false,
    }
}

/// The first path, from position `i` on, that resolves the target.
pub open spec fn first_resolving_path(
    paths: Seq<TargetPath>,
    adapter_luid: i64,
    target_id: u32,
    i: int,
) -> Option<int>
    decreases paths.len() - i,
{
    if i < 0 || i >= paths.len() {
        None
    } else if path_resolves(paths[i], adapter_luid, target_id) {
        Some(i)
    } else {
        first_resolving_path(paths, adapter_luid, target_id, i + 1)
    }
}

/// The path found is the first one that resolves the target: it resolves
/// it, and no path before it (from position `i` on) does; when none is found,
/// no path from position `i` on resolves the target.
pub proof fn lemma_first_resolving_path(
    paths: Seq<TargetPath>,
    adapter_luid: i64,
    target_id: u32,
    i: int,
)
    requires
        0 <= i,
    ensures
        match first_resolving_path(paths, adapter_luid, target_id, i) {
            Some(k) => {
                &&& i <= k < paths.len()
                &&& path_resolves(paths[k], adapter_luid, target_id)
                &&& forall|j: int|
                    i <= j < k ==> !path_resolves(#[trigger] paths[j], adapter_luid, target_id)
            },
            None => forall|j: int|
                i <= j < paths.len() ==> !path_resolves(#[trigger] paths[j], adapter_luid, target_id),
        },
    decreases paths.len() - i,
{
    if i < paths.len() && !path_resolves(paths[i], adapter_luid, target_id) {
        lemma_first_resolving_path(paths, adapter_luid, target_id, i + 1);
    }
}

/// The GDI device name of the target `target_id` of the adapter
/// `adapter_luid`: the source name of the first path to that target whose
/// name is nonempty, or `None` when there is no such path.
pub fn resolve_gdi_name(paths: &Vec<TargetPath>, adapter_luid: i64, target_id: u32) -> (name:
    Option<String>)
    ensures
        name is None <==> first_resolving_path(paths@, adapter_luid, target_id, 0) is None,
        name matches Some(s) ==> ({
            let k = first_resolving_path(paths@, adapter_luid, target_id, 0)->0;
            s@ == utf16_lossy(wide_c_str(paths@[k].source_name->0@))
        }),
{
    let mut i: usize = 0;
    while i < paths.len()
        invariant
            i <= paths@.len(),
            first_resolving_path(paths@, adapter_luid, target_id, 0) == first_resolving_path(
                paths@,
                adapter_luid,
                target_id,
                i as int,
            ),
        decreases paths@.len() - i,
    {
        if path_is_target(&paths[i].adapter, paths[i].target_id, adapter_luid, target_id) {
            match &paths[i].source_name {
                Some(units) => {
                    match gdi_name_from_units(units.as_slice()) {
                        Some(s) => {
                            return Some(s);
                        },
                        None => {},
                    }
                },
                None => {},
            }
        }
        i = i + 1;
    }
    None
}

/// The first display device, from position `i` on, whose name field
/// (without its trailing NULs) reads as `name`.
pub open spec fn first_device_named(devices: Seq<Vec<u16>>, name: Seq<char>, i: int) -> Option<
    int,
>
    decreases devices.len() - i,
{
    if i < 0 || i >= devices.len() {
        None
    } else if utf16_lossy(trim_nul_units(devices[i]@)) == name {
        Some(i)
    } else {
        first_device_named(devices, name, i + 1)
    }
}

/// The device found is the first one whose name reads as `name`: its name
/// does, and no device before it (from position `i` on) has that name; when
/// none is found, no device from position `i` on has it.
pub proof fn lemma_first_device_named(devices: Seq<Vec<u16>>, name: Seq<char>, i: int)
    requires
        0 <= i,
    ensures
        match first_device_named(devices, name, i) {
            Some(k) => {
                &&& i <= k < devices.len()
                &&& utf16_lossy(trim_nul_units(devices[k]@)) == name
                &&& forall|j: int|
                    i <= j < k ==> utf16_lossy(trim_nul_units((#[trigger] devices[j])@)) != name
            },
            None => forall|j: int|
                i <= j < devices.len() ==> utf16_lossy(trim_nul_units((#[trigger] devices[j])@))
                    != name,
        },
    decreases devices.len() - i,
{
    if i < devices.len() && utf16_lossy(trim_nul_units(devices[i]@)) != name {
        lemma_first_device_named(devices, name, i + 1);
    }
}

/// Finds the display device that windows are moved to: the position of the
/// first device whose name is `target_device_name`, or `MoveTargetNotFound`.
pub fn find_move_target(device_names: &Vec<Vec<u16>>, target_device_name: &str) -> (r: Result<
    usize,
    VddError,
>)
    ensures
        match first_device_named(device_names@, target_device_name@, 0) {
            Some(k) => r == Ok::<usize, VddError>(k as usize),
            None => r == Err::<usize, VddError>(VddError::MoveTargetNotFound),
        },
{
    let mut i: usize = 0;
    while i < device_names.len()
        invariant
            i <= device_names@.len(),
            first_device_named(device_names@, target_device_name@, 0) == first_device_named(
                device_names@,
                target_device_name@,
                i as int,
            ),
        decreases device_names@.len() - i,
    {
        if wide_name_is(device_names[i].as_slice(), target_device_name) {
            return Ok(i);
        }
        i = i + 1;
    }
    Err(VddError::MoveTargetNotFound)
}

/// Whether a display device is attached to the desktop.
pub fn is_active_display(state_flags: u32) -> (b: bool)
    ensures
        b == (state_flags & DISPLAY_DEVICE_ACTIVE != 0),
{
    state_flags & DISPLAY_DEVICE_ACTIVE != 0
}

/// The current mode of a display device.
#[derive(Clone, Copy, Debug, PartialEq, Eq)]
pub struct DisplaySettings {
    pub width: u32,
    pub height: u32,
    pub refresh_rate: u32,
}

/// What is listed of an active display device: its name and adapter
/// description (fixed UTF-16 fields without their trailing NULs), its current
/// mode (all zero when it could not be read), and whether it is the primary
/// display.
pub fn system_display_info(
    state_flags: u32,
    device_name: &[u16],
    device_string: &[u16],
    settings: Option<DisplaySettings>,
) -> (d: SystemDisplayInfo)
    ensures
        d.device_name@ == utf16_lossy(trim_nul_units(device_name@)),
        no_surrogates(trim_nul_units(device_name@)) ==> d.device_name@ == bmp_chars(
            trim_nul_units(device_name@),
        ),
        d.adapter_desc@ == utf16_lossy(trim_nul_units(device_string@)),
        no_surrogates(trim_nul_units(device_string@)) ==> d.adapter_desc@ == bmp_chars(
            trim_nul_units(device_string@),
        ),
        d.width == (match settings {
            Some(s) => s.width,
            None => 0,
        }),
        d.height == (match settings {
            Some(s) => s.height,
            None => 0,
        }),
        d.refresh_rate == (match settings {
            Some(s) => s.refresh_rate,
            None => 0,
        }),
        d.is_primary == (state_flags & DISPLAY_DEVICE_PRIMARY_DEVICE != 0),
{
    let (width, height, refresh_rate) = match settings {
        Some(s) => (s.width, s.height, s.refresh_rate),
        None => (0, 0, 0),
    };
    SystemDisplayInfo {
        device_name: wide_name(device_name),
        adapter_desc: wide_name(device_string),
        width,
        height,
        refresh_rate,
        is_primary: state_flags & DISPLAY_DEVICE_PRIMARY_DEVICE != 0,
    }
}

} // verus!
