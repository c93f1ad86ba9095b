//! The in-process display configuration and its conversion to and from the
//! driver's record layout.
//!
//! The raw form mirrors the driver's records field for field, with the
//! nested blocks held by value; whoever talks to the driver turns it into
//! pointer-linked records and back.

use vstd::prelude::*;
use crate::rotation::{lemma_rotation_code_round_trip, Rotation};
use crate::scaling::{lemma_scaling_mode_round_trip, Scaling};
use crate::status::ConfigError;

verus! {

/// Milli-hertz per hertz: the driver keeps refresh rates in milli-hertz.
pub const MILLI_PER_HZ: u32 = 1000;

/// The source mode of a path: resolution, position and the primary flag.
/// `extra` holds the driver's other fields, untouched.
#[derive(Debug, Clone)]
pub struct SourceModeInfo {
    pub width: u32,
    pub height: u32,
    pub x: i32,
    pub y: i32,
    pub primary: bool,
    pub extra: Vec<u8>,
}

/// The per-target settings that this library edits, with the driver's other
/// fields kept untouched in `extra`.
#[derive(Debug, Clone)]
pub struct TargetDetails {
    pub refresh_rate_1k: u32,
    pub scaling: Scaling,
    pub rotation: Rotation,
    pub extra: Vec<u8>,
}

/// One display attached to a path.
#[derive(Debug, Clone)]
pub struct NvDisplayConfigPathTargetInfo {
    pub display_id: u32,
    pub details: TargetDetails,
    pub target_id: u32,
}

/// One output path: its source mode and its targets, in the driver's order.
#[derive(Debug, Clone)]
pub struct NvDisplayConfigPathInfo {
    pub target_info: Vec<NvDisplayConfigPathTargetInfo>,
    pub source_mode_info: SourceModeInfo,
    pub is_non_nvidia_adapter: bool,
}

/// The driver's per-target details record, with its enums as raw codes.
#[derive(Debug, Clone)]
pub struct RawTargetDetails {
    pub refresh_rate_1k: u32,
    pub scaling: i32,
    pub rotation: i32,
    pub extra: Vec<u8>,
}

/// The driver's target record.
#[derive(Debug, Clone)]
pub struct RawTargetInfo {
    pub display_id: u32,
    pub details: RawTargetDetails,
    pub target_id: u32,
}

/// The driver's path record: a target count and as many target records.
#[derive(Debug, Clone)]
pub struct RawPathInfo {
    pub target_info_count: u32,
    pub target_info: Vec<RawTargetInfo>,
    pub source_mode_info: SourceModeInfo,
    pub is_non_nvidia_adapter: bool,
}

/// Milli-hertz for a whole number of hertz.
pub open spec fn spec_millihz(hz: int) -> int {
    hz * 1000
}

/// Whole hertz for a rate in milli-hertz.
pub open spec fn spec_hz(millihz: int) -> int {
    millihz / 1000
}

/// Two source modes hold the same values.
pub open spec fn same_source(a: SourceModeInfo, b: SourceModeInfo) -> bool {
    &&& a.width == b.width
    &&& a.height == b.height
    &&& a.x == b.x
    &&& a.y == b.y
    &&& a.primary == b.primary
    &&& a.extra@ == b.extra@
}

/// Two targets hold the same values.
pub open spec fn same_target(a: NvDisplayConfigPathTargetInfo, b: NvDisplayConfigPathTargetInfo) -> bool {
    &&& a.display_id == b.display_id
    &&& a.target_id == b.target_id
    &&& a.details.refresh_rate_1k == b.details.refresh_rate_1k
    &&& a.details.scaling == b.details.scaling
    &&& a.details.rotation == b.details.rotation
    &&& a.details.extra@ == b.details.extra@
}

/// Two paths hold the same values, target for target.
pub open spec fn same_path(a: NvDisplayConfigPathInfo, b: NvDisplayConfigPathInfo) -> bool {
    &&& a.target_info@.len() == b.target_info@.len()
    &&& forall|i: int| 0 <= i < a.target_info@.len()
        ==> same_target(#[trigger] a.target_info@[i], b.target_info@[i])
    &&& same_source(a.source_mode_info, b.source_mode_info)
    &&& a.is_non_nvidia_adapter == b.is_non_nvidia_adapter
}

/// A raw target record holds exactly what a target holds, its enums encoded.
pub open spec fn target_encodes(t: NvDisplayConfigPathTargetInfo, r: RawTargetInfo) -> bool {
    &&& r.display_id == t.display_id
    &&& r.target_id == t.target_id
    &&& r.details.refresh_rate_1k == t.details.refresh_rate_1k
    &&& r.details.scaling == t.details.scaling.spec_code()
    &&& r.details.rotation == t.details.rotation.spec_code()
    &&& r.details.extra@ == t.details.extra@
}

/// A raw path record holds exactly what a path holds.
pub open spec fn path_encodes(p: NvDisplayConfigPathInfo, r: RawPathInfo) -> bool {
    &&& r.target_info@.len() == p.target_info@.len()
    &&& forall|i: int| 0 <= i < p.target_info@.len()
        ==> target_encodes(#[trigger] p.target_info@[i], r.target_info@[i])
    &&& same_source(p.source_mode_info, r.source_mode_info)
    &&& r.is_non_nvidia_adapter == p.is_non_nvidia_adapter
}

/// The rotation code of a raw target record names a rotation.
pub open spec fn raw_target_decodable(r: RawTargetInfo) -> bool {
    0 <= r.details.rotation <= 3
}

/// The error for the first target record, from index `i` on, whose
/// rotation code names no rotation, if any.
pub open spec fn first_target_error(targets: Seq<RawTargetInfo>, i: int) -> Option<ConfigError>
    decreases targets.len() - i,
{
    if i < 0 || i >= targets.len() {
        None
    } else if !raw_target_decodable(targets[i]) {
        Some(ConfigError::InvalidRotationValue { value: targets[i].details.rotation as i64 })
    } else {
        first_target_error(targets, i + 1)
    }
}

/// Why a raw path record does not decode, if it does not: its target count
/// differs from the number of target records it holds, or else the first
/// bad rotation code.
pub open spec fn raw_path_error(r: RawPathInfo) -> Option<ConfigError> {
    if r.target_info_count != r.target_info@.len() {
        Some(ConfigError::TargetCountChanged)
    } else {
        first_target_error(r.target_info@, 0)
    }
}

impl NvDisplayConfigPathTargetInfo {
    /// Only codes that name no scaling mode are held as unknown.
    pub open spec fn wf(self) -> bool {
        self.details.scaling.wf()
    }

    /// This target as a driver record.
    pub fn into_raw(self) -> (r: RawTargetInfo)
        ensures
            target_encodes(self, r),
    {
        RawTargetInfo {
            display_id: self.display_id,
            details: RawTargetDetails {
                refresh_rate_1k: self.details.refresh_rate_1k,
                scaling: self.details.scaling.code(),
                rotation: self.details.rotation.code(),
                extra: self.details.extra,
            },
            target_id: self.target_id,
        }
    }

    /// The target that a driver record describes; a rotation code that names
    /// no rotation is an error.
    pub fn from_raw(raw: RawTargetInfo) -> (r: Result<NvDisplayConfigPathTargetInfo, ConfigError>)
        ensures
            r is Ok <==> raw_target_decodable(raw),
            r matches Ok(t) ==> target_encodes(t, raw) && t.wf(),
            r matches Err(e) ==> e == (ConfigError::InvalidRotationValue {
                value: raw.details.rotation as i64,
            }),
    {
        let rotation = match Rotation::from_code(raw.details.rotation) {
            Ok(rot) => rot,
            Err(e) => return Err(e),
        };
        Ok(NvDisplayConfigPathTargetInfo {
            display_id: raw.display_id,
            details: TargetDetails {
                refresh_rate_1k: raw.details.refresh_rate_1k,
                scaling: Scaling::from_code(raw.details.scaling),
                rotation,
                extra: raw.details.extra,
            },
            target_id: raw.target_id,
        })
    }
}

/// The same items in the opposite order.
pub(crate) fn reversed<T>(v: Vec<T>) -> (r: Vec<T>)
    ensures
        r@.len() == v@.len(),
        forall|i: int| 0 <= i < v@.len() ==> #[trigger] r@[i] == v@[v@.len() - 1 - i],
{
    let ghost orig = v@;
    let mut v = v;
    let mut r: Vec<T> = Vec::new();
    while v.len() > 0
        invariant
            v@ == orig.subrange(0, v@.len() as int),
            r@.len() + v@.len() == orig.len(),
            forall|i: int| 0 <= i < r@.len() ==> #[trigger] r@[i] == orig[orig.len() - 1 - i],
        decreases v@.len(),
    {
        let x = v.pop().unwrap();
        r.push(x);
    }
    r
}

impl NvDisplayConfigPathInfo {
    /// Every target holds only codes that name no scaling mode as unknown.
    pub open spec fn wf(self) -> bool {
        forall|i: int| 0 <= i < self.target_info@.len() ==> (#[trigger] self.target_info@[i]).wf()
    }

    /// This path as a driver record, its target count set to the number of
    /// targets. The nested blocks move into the record.
    pub fn into_raw(self) -> (r: RawPathInfo)
        requires
            self.target_info@.len() <= u32::MAX,
        ensures
            path_encodes(self, r),
            r.target_info_count == self.target_info@.len(),
    {
        let ghost old_targets = self.target_info@;
        let mut targets = self.target_info;
        let mut raw_targets: Vec<RawTargetInfo> = Vec::new();
        let n = targets.len();
        // Drain from the front, keeping the order.
        targets = reversed(targets);
        while targets.len() > 0
            invariant
                n == old_targets.len(),
                raw_targets@.len() + targets@.len() == n,
                forall|i: int| 0 <= i < targets@.len()
                    ==> #[trigger] targets@[i] == old_targets[n - 1 - i],
                forall|i: int| 0 <= i < raw_targets@.len()
                    ==> target_encodes(old_targets[i], #[trigger] raw_targets@[i]),
            decreases targets@.len(),
        {
            let t = targets.pop().unwrap();
            raw_targets.push(t.into_raw());
        }
        RawPathInfo {
            target_info_count: n as u32,
            target_info: raw_targets,
            source_mode_info: self.source_mode_info,
            is_non_nvidia_adapter: self.is_non_nvidia_adapter,
        }
    }

    /// The path that a driver record describes. The nested blocks move back
    /// out of the record. A target count that differs from the number of
    /// target records is an error, and so is a rotation code that names no
    /// rotation: the first such code.
    pub fn from_raw(raw: RawPathInfo) -> (r: Result<NvDisplayConfigPathInfo, ConfigError>)
        ensures
            r is Ok <==> raw_path_error(raw) is None,
            r matches Ok(p) ==> path_encodes(p, raw) && p.wf(),
            r matches Err(e) ==> raw_path_error(raw) == Some(e),
    {
        let ghost old_raw = raw.target_info@;
        let RawPathInfo { target_info_count, target_info: raws, source_mode_info, is_non_nvidia_adapter } = raw;
        let n = raws.len();
        if target_info_count as usize != n {
            return Err(ConfigError::TargetCountChanged);
        }
        let mut raws = reversed(raws);
        let mut targets: Vec<NvDisplayConfigPathTargetInfo> = Vec::new();
        while raws.len() > 0
            invariant
                n == old_raw.len(),
                old_raw == raw.target_info@,
                target_info_count == n,
                raw.target_info_count == target_info_count,
                targets@.len() + raws@.len() == n,
                forall|i: int| 0 <= i < raws@.len() ==> #[trigger] raws@[i] == old_raw[n - 1 - i],
                forall|i: int| 0 <= i < targets@.len()
                    ==> target_encodes(#[trigger] targets@[i], old_raw[i]) && targets@[i].wf(),
                first_target_error(old_raw, 0) == first_target_error(old_raw, targets@.len() as int),
            decreases raws@.len(),
        {
            let k = targets.len();
            let rt = raws.pop().unwrap();
            assert(rt == old_raw[k as int]);
            match NvDisplayConfigPathTargetInfo::from_raw(rt) {
                Ok(t) => targets.push(t),
                Err(e) => {
                    assert(first_target_error(old_raw, k as int) == Some(e));
                    return Err(e);
                },
            }
        }
        Ok(NvDisplayConfigPathInfo {
            target_info: targets,
            source_mode_info,
            is_non_nvidia_adapter,
        })
    }
}

/// Converting a path to a driver record and back gives a path with the same
/// targets, in the same order, and the same source mode.
pub proof fn lemma_path_round_trip(p: NvDisplayConfigPathInfo, raw: RawPathInfo, q: NvDisplayConfigPathInfo)
    requires
        p.wf(),
        q.wf(),
        path_encodes(p, raw),
        path_encodes(q, raw),
    ensures
        same_path(p, q),
{
    assert forall|i: int| 0 <= i < p.target_info@.len()
        implies same_target(#[trigger] p.target_info@[i], q.target_info@[i]) by {
        let a = p.target_info@[i];
        let b = q.target_info@[i];
        assert(target_encodes(a, raw.target_info@[i]));
        assert(target_encodes(b, raw.target_info@[i]));
        assert(a.wf() && b.wf());
        lemma_scaling_mode_round_trip(a.details.scaling);
        lemma_scaling_mode_round_trip(b.details.scaling);
        lemma_rotation_code_round_trip(a.details.rotation, b.details.rotation);
    }
}

/// The rate in milli-hertz for a whole number of hertz, if it fits in a
/// `u32`.
pub fn hz_to_millihz(hz: u32) -> (r: Option<u32>)
    ensures
        r matches Some(m) ==> m == spec_millihz(hz as int),
        r is None <==> spec_millihz(hz as int) > u32::MAX,
{
    if hz > u32::MAX / MILLI_PER_HZ {
        None
    } else {
        Some(hz * MILLI_PER_HZ)
    }
}

/// The whole number of hertz in a rate given in milli-hertz.
pub fn millihz_to_hz(millihz: u32) -> (r: u32)
    ensures
        r == spec_hz(millihz as int),
{
    millihz / MILLI_PER_HZ
}

/// A whole number of hertz survives the trip through milli-hertz exactly.
pub proof fn lemma_refresh_round_trip(hz: nat)
    ensures
        spec_millihz(hz as int) == hz * 1000,
        spec_hz(spec_millihz(hz as int)) == hz,
{
    assert((hz * 1000) / 1000 == hz) by (nonlinear_arith);
}

} // verus!
