//! Display configuration decisions: adapter LUIDs, topology flags, the
//! layout shift that makes a display primary, and the Advanced Color
//! request.

use crate::text::{trim_nul_units, utf16_lossy, wide_name_is};
use crate::types::{DisplayTopology, VddError};
use vstd::prelude::*;

verus! {

/// The `SetDisplayConfig` flag `SDC_TOPOLOGY_CLONE`.
pub const SDC_TOPOLOGY_CLONE: u32 = 0x2;

/// The `SetDisplayConfig` flag `SDC_TOPOLOGY_EXTEND`.
pub const SDC_TOPOLOGY_EXTEND: u32 = 0x4;

/// The `SetDisplayConfig` flag `SDC_TOPOLOGY_EXTERNAL`.
pub const SDC_TOPOLOGY_EXTERNAL: u32 = 0x8;

/// The `SetDisplayConfig` flag `SDC_USE_SUPPLIED_DISPLAY_CONFIG`.
pub const SDC_USE_SUPPLIED_DISPLAY_CONFIG: u32 = 0x20;

/// The `SetDisplayConfig` flag `SDC_APPLY`.
pub const SDC_APPLY: u32 = 0x80;

/// The `SetDisplayConfig` flag `SDC_SAVE_TO_DATABASE`.
pub const SDC_SAVE_TO_DATABASE: u32 = 0x200;

/// Flags that apply a supplied path and mode configuration and save it.
pub const PRIMARY_DISPLAY_CONFIG_FLAGS: u32 = SDC_APPLY | SDC_USE_SUPPLIED_DISPLAY_CONFIG
    | SDC_SAVE_TO_DATABASE;

/// A locally unique adapter identifier in the layout of the Windows `LUID`.
#[derive(Clone, Copy, Debug, PartialEq, Eq)]
pub struct Luid {
    pub low_part: u32,
    pub high_part: i32,
}

/// The `LUID` of a 64-bit adapter identifier: its low 32 bits and its high
/// 32 bits.
pub open spec fn spec_luid(adapter_luid: i64) -> Luid {
    Luid { low_part: adapter_luid as u32, high_part: (adapter_luid >> 32i64) as i32 }
}

/// Splits a 64-bit adapter identifier into its `LUID` parts.
pub fn luid_from_i64(adapter_luid: i64) -> (l: Luid)
    ensures
        l == spec_luid(adapter_luid),
{
    Luid {
        low_part: #[verifier::truncate]
        (adapter_luid as u32),
        high_part: #[verifier::truncate]
        ((adapter_luid >> 32i64) as i32),
    }
}

/// The parts of a `LUID` put back together give the identifier they were
/// split from, so distinct identifiers have distinct `LUID`s.
pub proof fn lemma_luid_recombines(adapter_luid: i64)
    ensures
        (((spec_luid(adapter_luid).high_part as i64) << 32i64) | (spec_luid(
            adapter_luid,
        ).low_part as i64)) == adapter_luid,
{
    let l = adapter_luid;
    assert(((((l >> 32i64) as i32) as i64) << 32i64) | ((l as u32) as i64) == l) by (bit_vector);
}

/// Whether a display path runs from the adapter `adapter_luid` to the
/// target `target_id`.
pub fn path_is_target(path_adapter: &Luid, path_target_id: u32, adapter_luid: i64, target_id: u32)
    -> (b: bool)
    ensures
        b == (*path_adapter == spec_luid(adapter_luid) && path_target_id == target_id),
{
    let l = luid_from_i64(adapter_luid);
    path_adapter.low_part == l.low_part && path_adapter.high_part == l.high_part && path_target_id
        == target_id
}

/// The flags that apply a topology: `SDC_APPLY` with the topology's own flag.
pub open spec fn spec_topology_flags(topology: DisplayTopology) -> u32 {
    match topology {
        DisplayTopology::Extend => SDC_APPLY | SDC_TOPOLOGY_EXTEND,
        DisplayTopology::Duplicate => SDC_APPLY | SDC_TOPOLOGY_CLONE,
        DisplayTopology::External => SDC_APPLY | SDC_TOPOLOGY_EXTERNAL,
    }
}

/// The flags that apply `topology`.
pub fn topology_flags(topology: DisplayTopology) -> (flags: u32)
    ensures
        flags == spec_topology_flags(topology),
        topology is Extend ==> flags == 0x84,
        topology is Duplicate ==> flags == 0x82,
        topology is External ==> flags == 0x88,
{
    proof {
        assert(SDC_APPLY | SDC_TOPOLOGY_EXTEND == 0x84) by (bit_vector);
        assert(SDC_APPLY | SDC_TOPOLOGY_CLONE == 0x82) by (bit_vector);
        assert(SDC_APPLY | SDC_TOPOLOGY_EXTERNAL == 0x88) by (bit_vector);
    }
    match topology {
        DisplayTopology::Extend => SDC_APPLY | SDC_TOPOLOGY_EXTEND,
        DisplayTopology::Duplicate => SDC_APPLY | SDC_TOPOLOGY_CLONE,
        DisplayTopology::External => SDC_APPLY | SDC_TOPOLOGY_EXTERNAL,
    }
}

/// The Advanced Color state change for one display target.
#[derive(Clone, Copy, Debug, PartialEq, Eq)]
pub struct AdvancedColorRequest {
    pub adapter: Luid,
    pub target_id: u32,
    /// The `enableAdvancedColor` bit: 1 to switch on, 0 to switch off.
    pub value: u32,
}

/// The Advanced Color state change for the target `target_id` of the
/// adapter `adapter_luid`.
pub fn advanced_color_request(adapter_luid: i64, target_id: u32, enable: bool) -> (r:
    AdvancedColorRequest)
    ensures
        r.adapter == spec_luid(adapter_luid),
        r.target_id == target_id,
        r.value == (if enable {
            1u32
        } else {
            0u32
        }),
{
    AdvancedColorRequest {
        adapter: luid_from_i64(adapter_luid),
        target_id,
        value: if enable {
            1
        } else {
            0
        },
    }
}

/// A mode of the current display configuration: a source mode with the
/// position of its desktop, or any other kind of mode.
#[derive(Clone, Copy, Debug, PartialEq, Eq)]
pub enum DisplayMode {
    Source { x: i32, y: i32 },
    Other,
}

/// An active display path: the GDI name of its source (`None` when the name
/// could not be read) and the index of its source mode.
#[derive(Clone, Debug)]
pub struct SourcePath {
    pub gdi_name: Option<Vec<u16>>,
    pub mode_index: u32,
}

/// Whether the source of `p` carries the GDI device name `name`.
pub open spec fn path_has_name(p: SourcePath, name: Seq<char>) -> bool {
    match p.gdi_name {
        Some(units) => utf16_lossy(trim_nul_units(units@)) == name,
        None => false,
    }
}

/// The first path, from position `i` on, whose source is named `name`.
pub open spec fn first_path_named(paths: Seq<SourcePath>, name: Seq<char>, i: int) -> Option<int>
    decreases paths.len() - i,
{
    if i < 0 || i >= paths.len() {
        None
    } else if path_has_name(paths[i], name) {
        Some(i)
    } else {
        first_path_named(paths, name, i + 1)
    }
}

/// Where the display named `name` sits: the index of its source mode and
/// its desktop position, or why it cannot be made primary.
pub open spec fn spec_primary_target(
    paths: Seq<SourcePath>,
    modes: Seq<DisplayMode>,
    name: Seq<char>,
) -> Result<(usize, i32, i32), VddError> {
    match first_path_named(paths, name, 0) {
        None => Err(VddError::PrimaryTargetNotFound),
        Some(k) => {
            let idx = paths[k].mode_index;
            if idx >= modes.len() {
                Err(VddError::TargetModeIndexOutOfRange)
            } else {
                match modes[idx as int] {
                    DisplayMode::Source { x, y } => Ok((idx as usize, x, y)),
                    DisplayMode::Other => Err(VddError::TargetModeNotSource),
                }
            }
        },
    }
}

/// The path found is the first one whose source is named `name`: it is
/// named so, and no path before it (from position `i` on) is; when none is
/// found, no path from position `i` on is named `name`.
pub proof fn lemma_first_path_named(paths: Seq<SourcePath>, name: Seq<char>, i: int)
    requires
        0 <= i,
    ensures
        match first_path_named(paths, name, i) {
            Some(k) => {
                &&& i <= k < paths.len()
                &&& path_has_name(paths[k], name)
                &&& forall|j: int| i <= j < k ==> !path_has_name(#[trigger] paths[j], name)
            },
            None => forall|j: int| i <= j < paths.len() ==> !path_has_name(#[trigger] paths[j], name),
        },
    decreases paths.len() - i,
{
    if i < paths.len() && !path_has_name(paths[i], name) {
        lemma_first_path_named(paths, name, i + 1);
    }
}

/// The display made primary is found through the first path named `name`:
/// the result is the source mode index of that path and the desktop
/// position held in that source mode.  It is refused as not found exactly
/// when no path is named `name`.
pub proof fn lemma_primary_target(paths: Seq<SourcePath>, modes: Seq<DisplayMode>, name: Seq<char>)
    ensures
        (spec_primary_target(paths, modes, name) == Err::<(usize, i32, i32), VddError>(
            VddError::PrimaryTargetNotFound,
        )) <==> (forall|j: int| 0 <= j < paths.len() ==> !path_has_name(#[trigger] paths[j], name)),
        (spec_primary_target(paths, modes, name) matches Ok((idx, x, y)) ==> (exists|k: int|
            0 <= k < paths.len() && path_has_name(#[trigger] paths[k], name) && paths[k].mode_index
                == idx && modes[idx as int] == (DisplayMode::Source { x, y }))),
{
    lemma_first_path_named(paths, name, 0);
}

/// Finds the display named `target_device_name`: the first path whose
/// source carries that name gives the index of its source mode, which must
/// exist and be a source mode; the result is that index and the mode's
/// desktop position.
pub fn find_primary_target(
    paths: &Vec<SourcePath>,
    modes: &Vec<DisplayMode>,
    target_device_name: &str,
) -> (r: Result<(usize, i32, i32), VddError>)
    ensures
        r == spec_primary_target(paths@, modes@, target_device_name@),
{
    let mut found: Option<u32> = None;
    let mut i: usize = 0;
    while found.is_none() && i < paths.len()
        invariant
            i <= paths@.len(),
            found is None ==> first_path_named(paths@, target_device_name@, 0)
                == first_path_named(paths@, target_device_name@, i as int),
            found matches Some(idx) ==> (first_path_named(paths@, target_device_name@, 0) matches Some(
                k,
            ) && 0 <= k < paths@.len() && paths@[k].mode_index == idx),
        decreases paths@.len() - i + (if found is None {
            1int
        } else {
            0int
        }),
    {
        let named = match &paths[i].gdi_name {
            Some(units) => wide_name_is(units.as_slice(), target_device_name),
            None => false,
        };
        if named {
            found = Some(paths[i].mode_index);
        } else {
            i = i + 1;
        }
    }
    let target_idx = match found {
        Some(idx) => idx as usize,
        None => {
            return Err(VddError::PrimaryTargetNotFound);
        },
    };
    if target_idx >= modes.len() {
        return Err(VddError::TargetModeIndexOutOfRange);
    }
    match modes[target_idx] {
        DisplayMode::Source { x, y } => Ok((target_idx, x, y)),
        DisplayMode::Other => Err(VddError::TargetModeNotSource),
    }
}

/// `m` moved by `(-dx, -dy)` when it is a source mode; any other mode is
/// left as it is.
pub open spec fn shifted(m: DisplayMode, dx: i32, dy: i32) -> DisplayMode {
    match m {
        DisplayMode::Source { x, y } => DisplayMode::Source { x: (x - dx) as i32, y: (y - dy) as i32 },
        DisplayMode::Other => m,
    }
}

/// Every source position moved by `(-dx, -dy)` stays within `i32`.
pub open spec fn shift_fits(modes: Seq<DisplayMode>, dx: i32, dy: i32) -> bool {
    forall|i: int|
        0 <= i < modes.len() ==> match #[trigger] modes[i] {
            DisplayMode::Source { x, y } => i32::MIN <= x - dx <= i32::MAX && i32::MIN <= y - dy
                <= i32::MAX,
            DisplayMode::Other => true,
        }
}

/// Whether every source position of `modes` can be moved by `(-dx, -dy)`
/// within `i32`.
pub fn source_shift_fits(modes: &Vec<DisplayMode>, dx: i32, dy: i32) -> (b: bool)
    ensures
        b == shift_fits(modes@, dx, dy),
{
    let mut i: usize = 0;
    while i < modes.len()
        invariant
            i <= modes@.len(),
            shift_fits(modes@.take(i as int), dx, dy),
        decreases modes@.len() - i,
    {
        match modes[i] {
            DisplayMode::Source { x, y } => {
                let fx = (x as i64) - (dx as i64);
                let fy = (y as i64) - (dy as i64);
                if fx < i32::MIN as i64 || fx > i32::MAX as i64 || fy < i32::MIN as i64 || fy
                    > i32::MAX as i64 {
                    assert(!(match modes@[i as int] {
                        DisplayMode::Source { x, y } => i32::MIN <= x - dx <= i32::MAX && i32::MIN
                            <= y - dy <= i32::MAX,
                        DisplayMode::Other => true,
                    }));
                    return false;
                }
            },
            DisplayMode::Other => {},
        }
        assert(modes@.take(i + 1) =~= modes@.take(i as int).push(modes@[i as int]));
        i = i + 1;
    }
    assert(modes@.take(modes@.len() as int) =~= modes@);
    true
}

/// Moves every source mode by `(-dx, -dy)`, keeping the other modes: with
/// the target display's position as `(dx, dy)`, the target lands at the
/// origin and the relative layout of all displays is kept.
pub fn shift_source_modes(modes: &Vec<DisplayMode>, dx: i32, dy: i32) -> (shifted_modes: Vec<
    DisplayMode,
>)
    requires
        shift_fits(modes@, dx, dy),
    ensures
        shifted_modes@.len() == modes@.len(),
        forall|i: int|
            0 <= i < modes@.len() ==> #[trigger] shifted_modes@[i] == shifted(modes@[i], dx, dy),
{
    let mut out: Vec<DisplayMode> = Vec::with_capacity(modes.len());
    let mut i: usize = 0;
    while i < modes.len()
        invariant
            i <= modes@.len(),
            shift_fits(modes@, dx, dy),
            out@.len() == i,
            forall|k: int| 0 <= k < i ==> #[trigger] out@[k] == shifted(modes@[k], dx, dy),
        decreases modes@.len() - i,
    {
        let m = match modes[i] {
            DisplayMode::Source { x, y } => {
                assert(match modes@[i as int] {
                    DisplayMode::Source { x, y } => i32::MIN <= x - dx <= i32::MAX && i32::MIN <= y
                        - dy <= i32::MAX,
                    DisplayMode::Other => true,
                });
                DisplayMode::Source { x: x - dx, y: y - dy }
            },
            DisplayMode::Other => DisplayMode::Other,
        };
        out.push(m);
        i = i + 1;
    }
    out
}

/// The desktop position of a mode (the origin for a mode that is not a
/// source mode).
pub open spec fn mode_position(m: DisplayMode) -> (int, int) {
    match m {
        DisplayMode::Source { x, y } => (x as int, y as int),
        DisplayMode::Other => (0, 0),
    }
}

/// Making a display primary puts it at the origin, keeps the distance
/// between any two source modes, and leaves every other mode unchanged.
pub proof fn lemma_primary_layout(
    paths: Seq<SourcePath>,
    modes: Seq<DisplayMode>,
    name: Seq<char>,
    i: int,
    j: int,
)
    requires
        spec_primary_target(paths, modes, name) is Ok,
        shift_fits(
            modes,
            spec_primary_target(paths, modes, name)->Ok_0.1,
            spec_primary_target(paths, modes, name)->Ok_0.2,
        ),
        0 <= i < modes.len(),
        0 <= j < modes.len(),
    ensures
        ({
            let (idx, dx, dy) = spec_primary_target(paths, modes, name)->Ok_0;
            &&& shifted(modes[idx as int], dx, dy) == DisplayMode::Source { x: 0, y: 0 }
            &&& modes[i] is Other ==> shifted(modes[i], dx, dy) == modes[i]
            &&& modes[i] is Source ==> shifted(modes[i], dx, dy) is Source
            &&& (modes[i] is Source && modes[j] is Source) ==> mode_position(
                shifted(modes[i], dx, dy),
            ).0 - mode_position(shifted(modes[j], dx, dy)).0 == mode_position(modes[i]).0
                - mode_position(modes[j]).0 && mode_position(shifted(modes[i], dx, dy)).1
                - mode_position(shifted(modes[j], dx, dy)).1 == mode_position(modes[i]).1
                - mode_position(modes[j]).1
        }),
{
    let (idx, dx, dy) = spec_primary_target(paths, modes, name)->Ok_0;
    assert(modes[idx as int] == DisplayMode::Source { x: dx, y: dy });
    let a = modes[i];
    let b = modes[j];
    assert(match a {
        DisplayMode::Source { x, y } => i32::MIN <= x - dx <= i32::MAX && i32::MIN <= y - dy
            <= i32::MAX,
        DisplayMode::Other => true,
    });
    assert(match b {
        DisplayMode::Source { x, y } => i32::MIN <= x - dx <= i32::MAX && i32::MIN <= y - dy
            <= i32::MAX,
        DisplayMode::Other => true,
    });
}

} // verus!
