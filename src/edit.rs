//! Edits that a user asks for on the selected path and target.

use vstd::prelude::*;
use crate::model::{
    hz_to_millihz, spec_millihz, NvDisplayConfigPathInfo, NvDisplayConfigPathTargetInfo,
    SourceModeInfo,
};
use crate::rotation::Rotation;
use crate::scaling::{scaling_named, Scaling};
use crate::status::ConfigError;

verus! {

/// The settings a user asked to change; `None` leaves a setting as it is.
/// Resolution and position belong to the selected path's source mode; the
/// refresh rate (in hertz), scaling mode name and rotation (in degrees)
/// belong to the selected target.
#[derive(Debug, Clone)]
pub struct DisplayEdits {
    pub resolution_x: Option<u32>,
    pub resolution_y: Option<u32>,
    pub position_x: Option<i32>,
    pub position_y: Option<i32>,
    pub scaling: Option<String>,
    pub refresh: Option<u32>,
    pub rotation: Option<u32>,
}

/// The target settings that a set of edits asks for, once checked.
#[derive(Debug, Clone, Copy, PartialEq, Eq)]
pub struct TargetChange {
    pub refresh_rate_1k: Option<u32>,
    pub scaling: Option<Scaling>,
    pub rotation: Option<Rotation>,
}

/// Some edit touches the selected target.
pub open spec fn touches_target(e: DisplayEdits) -> bool {
    e.scaling is Some || e.refresh is Some || e.rotation is Some
}

/// A rotation in degrees names a rotation.
pub open spec fn valid_degrees(d: u32) -> bool {
    d == 0 || d == 90 || d == 180 || d == 270
}

/// The value an optional edit leaves.
pub open spec fn edited<T>(new: Option<T>, old: T) -> T {
    match new {
        Some(v) => v,
        None => old,
    }
}

/// The error that checking the edits gives, if any: the scaling name is
/// checked first, then the refresh rate, then the rotation.
pub open spec fn edit_error(e: DisplayEdits) -> Option<ConfigError> {
    if e.scaling matches Some(name) && scaling_named(name@) is None {
        Some(ConfigError::InvalidScalingName)
    } else if e.refresh is Some && spec_millihz(e.refresh->0 as int) > u32::MAX {
        Some(ConfigError::InvalidRefreshRate { hz: e.refresh->0 })
    } else if e.rotation is Some && !valid_degrees(e.rotation->0) {
        Some(ConfigError::InvalidRotationValue { value: e.rotation->0 as i64 })
    } else {
        None
    }
}

/// The target change that valid edits stand for.
pub open spec fn change_matches(e: DisplayEdits, c: TargetChange) -> bool {
    &&& (c.scaling is Some <==> e.scaling is Some)
    &&& (e.scaling matches Some(name) ==> c.scaling == scaling_named(name@))
    &&& (c.refresh_rate_1k is Some <==> e.refresh is Some)
    &&& (e.refresh matches Some(hz) ==> c.refresh_rate_1k matches Some(m) && m == spec_millihz(hz as int))
    &&& (c.rotation is Some <==> e.rotation is Some)
    &&& (e.rotation matches Some(d) ==> c.rotation matches Some(rot) && rot.spec_degrees() == d)
}

/// The source mode after the edits.
pub open spec fn source_edited(e: DisplayEdits, old: SourceModeInfo, new: SourceModeInfo) -> bool {
    &&& new.width == edited(e.resolution_x, old.width)
    &&& new.height == edited(e.resolution_y, old.height)
    &&& new.x == edited(e.position_x, old.x)
    &&& new.y == edited(e.position_y, old.y)
    &&& new.primary == old.primary
    &&& new.extra == old.extra
}

/// The target after a change.
pub open spec fn target_changed(c: TargetChange, old: NvDisplayConfigPathTargetInfo, new: NvDisplayConfigPathTargetInfo) -> bool {
    &&& new.display_id == old.display_id
    &&& new.target_id == old.target_id
    &&& new.details.refresh_rate_1k == edited(c.refresh_rate_1k, old.details.refresh_rate_1k)
    &&& new.details.scaling == edited(c.scaling, old.details.scaling)
    &&& new.details.rotation == edited(c.rotation, old.details.rotation)
    &&& new.details.extra == old.details.extra
}

/// Checks the edits and turns them into driver values.
pub fn check_edits(e: &DisplayEdits) -> (r: Result<TargetChange, ConfigError>)
    ensures
        match edit_error(*e) {
            Some(err) => r == Err::<TargetChange, ConfigError>(err),
            None => r matches Ok(c) && change_matches(*e, c),
        },
{
    let scaling = match &e.scaling {
        Some(name) => match Scaling::from_name(name.as_str()) {
            Ok(s) => Some(s),
            Err(err) => return Err(err),
        },
        None => None,
    };
    let refresh_rate_1k = match e.refresh {
        Some(hz) => match hz_to_millihz(hz) {
            Some(m) => Some(m),
            None => return Err(ConfigError::InvalidRefreshRate { hz }),
        },
        None => None,
    };
    let rotation = match e.rotation {
        Some(d) => match Rotation::from_degrees(d) {
            Ok(rot) => Some(rot),
            Err(err) => return Err(err),
        },
        None => None,
    };
    Ok(TargetChange { refresh_rate_1k, scaling, rotation })
}

/// A path after the edits: its source mode edited, its targets the same but
/// the selected one, which has the change when any edit touches a target.
pub open spec fn path_edited(
    e: DisplayEdits,
    c: TargetChange,
    target_index: int,
    old: NvDisplayConfigPathInfo,
    new: NvDisplayConfigPathInfo,
) -> bool {
    &&& source_edited(e, old.source_mode_info, new.source_mode_info)
    &&& new.is_non_nvidia_adapter == old.is_non_nvidia_adapter
    &&& new.target_info@.len() == old.target_info@.len()
    &&& forall|t: int| 0 <= t < old.target_info@.len() && (t != target_index || !touches_target(e))
        ==> #[trigger] new.target_info@[t] == old.target_info@[t]
    &&& touches_target(e) ==> target_changed(c, old.target_info@[target_index], new.target_info@[target_index])
}

fn change_target(t: &mut NvDisplayConfigPathTargetInfo, c: TargetChange)
    ensures
        target_changed(c, *old(t), *final(t)),
{
    if let Some(m) = c.refresh_rate_1k {
        t.details.refresh_rate_1k = m;
    }
    if let Some(s) = c.scaling {
        t.details.scaling = s;
    }
    if let Some(rot) = c.rotation {
        t.details.rotation = rot;
    }
}

fn edit_path(p: &mut NvDisplayConfigPathInfo, target_index: usize, e: &DisplayEdits, c: TargetChange)
    requires
        touches_target(*e) ==> target_index < old(p).target_info@.len(),
    ensures
        path_edited(*e, c, target_index as int, *old(p), *final(p)),
{
    if let Some(w) = e.resolution_x {
        p.source_mode_info.width = w;
    }
    if let Some(h) = e.resolution_y {
        p.source_mode_info.height = h;
    }
    if let Some(x) = e.position_x {
        p.source_mode_info.x = x;
    }
    if let Some(y) = e.position_y {
        p.source_mode_info.y = y;
    }
    if e.scaling.is_some() || e.refresh.is_some() || e.rotation.is_some() {
        change_target(&mut p.target_info[target_index], c);
    }
}

/// Applies the edits to the selected path and target. Invalid edits, or edits
/// to a target that the selected path does not have, change nothing and give
/// the error.
pub fn apply_edits(
    paths: &mut Vec<NvDisplayConfigPathInfo>,
    path_index: usize,
    target_index: usize,
    edits: &DisplayEdits,
) -> (r: Result<(), ConfigError>)
    requires
        path_index < old(paths)@.len(),
    ensures
        match edit_error(*edits) {
            Some(err) => r == Err::<(), ConfigError>(err) && final(paths)@ == old(paths)@,
            None => if touches_target(*edits)
                && target_index >= old(paths)@[path_index as int].target_info@.len() {
                r == Err::<(), ConfigError>(ConfigError::SelectionNotFound)
                    && final(paths)@ == old(paths)@
            } else {
                &&& r is Ok
                &&& final(paths)@.len() == old(paths)@.len()
                &&& forall|k: int| 0 <= k < old(paths)@.len() && k != path_index
                    ==> #[trigger] final(paths)@[k] == old(paths)@[k]
                &&& exists|c: TargetChange| change_matches(*edits, c)
                    && path_edited(*edits, c, target_index as int,
                        old(paths)@[path_index as int], final(paths)@[path_index as int])
            },
        },
{
    let change = match check_edits(edits) {
        Ok(c) => c,
        Err(err) => return Err(err),
    };
    if (edits.scaling.is_some() || edits.refresh.is_some() || edits.rotation.is_some())
        && target_index >= paths[path_index].target_info.len() {
        return Err(ConfigError::SelectionNotFound);
    }
    edit_path(&mut paths[path_index], target_index, edits, change);
    assert(change_matches(*edits, change));
    Ok(())
}

} // verus!
