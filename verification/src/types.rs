//! The values that the library hands to its callers and takes from them.

use crate::guid::Guid;
use vstd::prelude::*;

verus! {

/// Result of adding a virtual display.
#[derive(Debug, Clone)]
pub struct AddResult {
    pub adapter_luid: i64,
    pub target_id: u32,
    pub monitor_guid: Guid,
}

/// Protocol version reported by the driver.
#[derive(Debug, Clone)]
pub struct Version {
    pub major: u32,
    pub minor: u32,
    pub patch: u32,
}

/// Watchdog state reported by the driver.
#[derive(Debug, Clone)]
pub struct WatchdogState {
    pub timeout_ms: u32,
    pub countdown_ms: u32,
}

/// Information about an active virtual display.
#[derive(Debug, Clone)]
pub struct DisplayInfo {
    pub monitor_guid: Guid,
    pub width: u32,
    pub height: u32,
    pub refresh_rate: u32,
    pub bits_per_channel: u32,
    pub hdr_mode: u32,
    pub adapter_luid: i64,
    pub target_id: u32,
    pub device_name: String,
    pub active: bool,
    pub vsync_numerator: u32,
    pub vsync_denominator: u32,
}

/// ST.2086 HDR mastering display metadata.
#[derive(Debug, Clone)]
pub struct HdrMetadata {
    pub red_primary_x: u32,
    pub red_primary_y: u32,
    pub green_primary_x: u32,
    pub green_primary_y: u32,
    pub blue_primary_x: u32,
    pub blue_primary_y: u32,
    pub white_point_x: u32,
    pub white_point_y: u32,
    pub max_luminance: u32,
    pub min_luminance_x10000: u32,
    pub max_content_light_level: u32,
    pub max_frame_avg_light_level: u32,
}

/// Metadata with every field zero: what `HdrMetadata::default` gives.
pub open spec fn default_hdr_metadata() -> HdrMetadata {
    HdrMetadata {
        red_primary_x: 0,
        red_primary_y: 0,
        green_primary_x: 0,
        green_primary_y: 0,
        blue_primary_x: 0,
        blue_primary_y: 0,
        white_point_x: 0,
        white_point_y: 0,
        max_luminance: 0,
        min_luminance_x10000: 0,
        max_content_light_level: 0,
        max_frame_avg_light_level: 0,
    }
}

impl Default for HdrMetadata {
    /// Metadata with every field zero.
    fn default() -> (m: Self)
        ensures
            m == default_hdr_metadata(),
    {
        HdrMetadata {
            red_primary_x: 0,
            red_primary_y: 0,
            green_primary_x: 0,
            green_primary_y: 0,
            blue_primary_x: 0,
            blue_primary_y: 0,
            white_point_x: 0,
            white_point_y: 0,
            max_luminance: 0,
            min_luminance_x10000: 0,
            max_content_light_level: 0,
            max_frame_avg_light_level: 0,
        }
    }
}

/// Display topology mode.
#[derive(Clone, Copy, Debug, PartialEq, Eq)]
pub enum DisplayTopology {
    /// Extended desktop: each display is independent.
    Extend,
    /// Duplicate/mirror: all displays show the same content.
    Duplicate,
    /// External only: the internal (physical) display is switched off.
    External,
}

/// Information about an active system display (physical or virtual).
#[derive(Clone, Debug)]
pub struct SystemDisplayInfo {
    /// GDI device name (e.g., `\\.\DISPLAY9`)
    pub device_name: String,
    /// Adapter/driver description (e.g., "Intel(R) Iris(R) Xe Graphics")
    pub adapter_desc: String,
    pub width: u32,
    pub height: u32,
    pub refresh_rate: u32,
    pub is_primary: bool,
}

/// The failures that the library decides by itself, before or after a
/// system call.
#[derive(Clone, Copy, Debug, PartialEq, Eq)]
pub enum VddError {
    /// No present device implements the driver's interface.
    DeviceNotFound,
    /// The list of the interface's device paths could not be read.
    InterfaceEnumerationFailed,
    /// A custom EDID is neither 128 nor 256 bytes long.
    InvalidEdidSize,
    /// No display path carries the requested GDI device name.
    PrimaryTargetNotFound,
    /// The source mode index of the requested display is out of range.
    TargetModeIndexOutOfRange,
    /// The mode of the requested display is not a source mode.
    TargetModeNotSource,
    /// No display device carries the name given for a window move.
    MoveTargetNotFound,
}

impl VddError {
    /// The message that accompanies the error.
    pub fn message(&self) -> (m: &'static str)
        ensures
            *self == VddError::DeviceNotFound ==> m@ == "AllunoVDD device not found"@,
            *self == VddError::InterfaceEnumerationFailed ==> m@
                == "Failed to enumerate device interfaces"@,
            *self == VddError::InvalidEdidSize ==> m@ == "EDID must be 128 or 256 bytes"@,
            *self == VddError::PrimaryTargetNotFound ==> m@
                == "Target display not found in DisplayConfig paths"@,
            *self == VddError::TargetModeIndexOutOfRange ==> m@
                == "Target mode index out of range"@,
            *self == VddError::TargetModeNotSource ==> m@ == "Target mode is not a source mode"@,
            *self == VddError::MoveTargetNotFound ==> m@
                == "Target display not found for move_all_windows_to_display"@,
    {
        match self {
            VddError::DeviceNotFound => "AllunoVDD device not found",
            VddError::InterfaceEnumerationFailed => "Failed to enumerate device interfaces",
            VddError::InvalidEdidSize => "EDID must be 128 or 256 bytes",
            VddError::PrimaryTargetNotFound => "Target display not found in DisplayConfig paths",
            VddError::TargetModeIndexOutOfRange => "Target mode index out of range",
            VddError::TargetModeNotSource => "Target mode is not a source mode",
            VddError::MoveTargetNotFound => "Target display not found for move_all_windows_to_display",
        }
    }
}

} // verus!
