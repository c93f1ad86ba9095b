//! Choosing the path and target that an edit applies to.

use vstd::prelude::*;
use crate::model::NvDisplayConfigPathInfo;
use crate::status::ConfigError;

verus! {

/// Some target of the path carries the display id.
pub open spec fn path_has_display(p: NvDisplayConfigPathInfo, id: u32) -> bool {
    exists|j: int| 0 <= j < p.target_info@.len() && (#[trigger] p.target_info@[j]).display_id == id
}

/// `(i, j)` is the first match for the display id: path `i` is the first
/// path with such a target, and `j` the first such target within it.
pub open spec fn is_first_display_match(paths: Seq<NvDisplayConfigPathInfo>, id: u32, i: int, j: int) -> bool {
    &&& 0 <= i < paths.len()
    &&& 0 <= j < paths[i].target_info@.len()
    &&& paths[i].target_info@[j].display_id == id
    &&& forall|k: int| 0 <= k < i ==> !path_has_display(#[trigger] paths[k], id)
    &&& forall|k: int| 0 <= k < j ==> (#[trigger] paths[i].target_info@[k]).display_id != id
}

/// Path `i` is the first whose primary flag is set.
pub open spec fn is_first_primary(paths: Seq<NvDisplayConfigPathInfo>, i: int) -> bool {
    &&& 0 <= i < paths.len()
    &&& paths[i].source_mode_info.primary
    &&& forall|k: int| 0 <= k < i ==> !(#[trigger] paths[k]).source_mode_info.primary
}

/// The first target, scanning paths in order and targets within a path in
/// order, that carries the display id: its path index and its index within
/// that path.
pub fn find_by_display_id(paths: &Vec<NvDisplayConfigPathInfo>, id: u32) -> (r: Option<(usize, usize)>)
    ensures
        r matches Some((i, j)) ==> is_first_display_match(paths@, id, i as int, j as int),
        r is None <==> forall|k: int| 0 <= k < paths@.len() ==> !path_has_display(#[trigger] paths@[k], id),
{
    let mut i: usize = 0;
    while i < paths.len()
        invariant
            i <= paths@.len(),
            forall|k: int| 0 <= k < i ==> !path_has_display(#[trigger] paths@[k], id),
        decreases paths@.len() - i,
    {
        let targets = &paths[i].target_info;
        let mut j: usize = 0;
        while j < targets.len()
            invariant
                i < paths@.len(),
                targets@ == paths@[i as int].target_info@,
                j <= targets@.len(),
                forall|k: int| 0 <= k < i ==> !path_has_display(#[trigger] paths@[k], id),
                forall|k: int| 0 <= k < j ==> (#[trigger] targets@[k]).display_id != id,
            decreases targets@.len() - j,
        {
            if targets[j].display_id == id {
                return Some((i, j));
            }
            j = j + 1;
        }
        i = i + 1;
    }
    None
}

/// The first path whose primary flag is set, with target index 0: selecting
/// the primary display selects a source, not one of its targets.
pub fn find_primary(paths: &Vec<NvDisplayConfigPathInfo>) -> (r: Option<(usize, usize)>)
    ensures
        r matches Some((i, j)) ==> is_first_primary(paths@, i as int) && j == 0,
        r is None <==> forall|k: int| 0 <= k < paths@.len() ==> !(#[trigger] paths@[k]).source_mode_info.primary,
{
    let mut i: usize = 0;
    while i < paths.len()
        invariant
            i <= paths@.len(),
            forall|k: int| 0 <= k < i ==> !(#[trigger] paths@[k]).source_mode_info.primary,
        decreases paths@.len() - i,
    {
        if paths[i].source_mode_info.primary {
            return Some((i, 0));
        }
        i = i + 1;
    }
    None
}

/// The entry to edit: the first target with the display id when one is
/// given, else the primary path. Finding none is `SelectionNotFound`.
pub fn resolve_selection(paths: &Vec<NvDisplayConfigPathInfo>, display: Option<u32>) -> (r: Result<(usize, usize), ConfigError>)
    ensures
        display matches Some(id) ==> match r {
            Ok((i, j)) => is_first_display_match(paths@, id, i as int, j as int),
            Err(e) => e == ConfigError::SelectionNotFound
                && forall|k: int| 0 <= k < paths@.len() ==> !path_has_display(#[trigger] paths@[k], id),
        },
        display is None ==> match r {
            Ok((i, j)) => is_first_primary(paths@, i as int) && j == 0,
            Err(e) => e == ConfigError::SelectionNotFound
                && forall|k: int| 0 <= k < paths@.len() ==> !(#[trigger] paths@[k]).source_mode_info.primary,
        },
{
    let found = match display {
        Some(id) => find_by_display_id(paths, id),
        None => find_primary(paths),
    };
    match found {
        Some(sel) => Ok(sel),
        None => Err(ConfigError::SelectionNotFound),
    }
}

} // verus!
