//! The three-phase protocol for reading the display configuration, and the
//! outcome of applying one.
//!
//! The driver sizes nothing itself: a first call reports the number of
//! paths, a second fills the path records (and reports each path's target
//! count), and a third fills the target records. Each phase's allocations
//! are sized from the previous answer. The steps below decide, from each
//! answer, what to allocate next or how the query ends; the caller makes the
//! driver calls.

use vstd::prelude::*;
use crate::model::{reversed, path_encodes, raw_path_error, NvDisplayConfigPathInfo, RawPathInfo};
use crate::status::{status_text, ConfigError, STATUS_OK};

verus! {

/// Where a configuration query stands.
#[derive(Debug, Clone)]
pub enum QueryPhase {
    /// Nothing asked yet: the driver is to report the number of paths.
    AwaitCount,
    /// That many path records, each with a zeroed source-mode block, are to
    /// be filled.
    AwaitPaths { path_count: u32 },
    /// Each path has that many target records, each with a zeroed details
    /// block, to be filled.
    AwaitTargets { target_counts: Vec<u32> },
    /// The query has ended.
    Done,
}

/// What the driver answered in a phase.
#[derive(Debug, Clone)]
pub enum QueryEvent {
    Counted { status: i32, path_count: u32 },
    PathsFilled { status: i32, target_counts: Vec<u32> },
    TargetsFilled { status: i32, paths: Vec<RawPathInfo> },
}

/// What the caller does next.
#[derive(Debug, Clone)]
pub enum QueryAction {
    /// Allocate this many path records and query again.
    AllocatePaths { path_count: u32 },
    /// Allocate, for each path, this many target records and query again.
    AllocateTargets { target_counts: Vec<u32> },
    /// The query succeeded with these paths.
    Finish { paths: Vec<NvDisplayConfigPathInfo> },
    /// The query failed; whatever was allocated is dropped.
    Fail { error: ConfigError },
}

/// The event answers the question that the phase asked.
pub open spec fn answers(phase: QueryPhase, event: QueryEvent) -> bool {
    match (phase, event) {
        (QueryPhase::AwaitCount, QueryEvent::Counted { .. }) => true,
        (QueryPhase::AwaitPaths { .. }, QueryEvent::PathsFilled { .. }) => true,
        (QueryPhase::AwaitTargets { .. }, QueryEvent::TargetsFilled { .. }) => true,
        _ => false,
    }
}

/// The action is a failure for this driver status.
pub open spec fn fails_with_status(action: QueryAction, status: i32) -> bool {
    action matches QueryAction::Fail { error: ConfigError::Driver { status: s, message: m } }
        && s == status && m@ == status_text(status as int)
}

/// Each path is what the corresponding raw record describes.
pub open spec fn decodes_all(paths: Seq<NvDisplayConfigPathInfo>, raws: Seq<RawPathInfo>) -> bool {
    &&& paths.len() == raws.len()
    &&& forall|i: int| 0 <= i < raws.len()
        ==> path_encodes(#[trigger] paths[i], raws[i]) && paths[i].wf()
}

/// The error of the first raw record, from index `i` on, that does not
/// decode, if any.
pub open spec fn first_path_error(raws: Seq<RawPathInfo>, i: int) -> Option<ConfigError>
    decreases raws.len() - i,
{
    if i < 0 || i >= raws.len() {
        None
    } else if raw_path_error(raws[i]) is Some {
        raw_path_error(raws[i])
    } else {
        first_path_error(raws, i + 1)
    }
}

/// The filled records report, path for path, the target counts that were
/// allocated.
pub open spec fn counts_match(raws: Seq<RawPathInfo>, counts: Seq<u32>) -> bool {
    &&& raws.len() == counts.len()
    &&& forall|i: int| 0 <= i < raws.len() ==> (#[trigger] raws[i]).target_info_count == counts[i]
}

/// The target counts that a phase allocated.
pub open spec fn allocated(phase: QueryPhase) -> Seq<u32> {
    match phase {
        QueryPhase::AwaitTargets { target_counts } => target_counts@,
        _ => Seq::empty(),
    }
}

/// Whether the filled records report the allocated target counts.
pub fn check_counts(raws: &Vec<RawPathInfo>, counts: &Vec<u32>) -> (r: bool)
    ensures
        r == counts_match(raws@, counts@),
{
    if raws.len() != counts.len() {
        return false;
    }
    let mut i: usize = 0;
    while i < raws.len()
        invariant
            raws@.len() == counts@.len(),
            i <= raws@.len(),
            forall|k: int| 0 <= k < i ==> (#[trigger] raws@[k]).target_info_count == counts@[k],
        decreases raws@.len() - i,
    {
        if raws[i].target_info_count != counts[i] {
            return false;
        }
        i = i + 1;
    }
    true
}

/// Decodes every raw path record, in order; the first record that does not
/// decode gives the error.
pub fn decode_paths(raws: Vec<RawPathInfo>) -> (r: Result<Vec<NvDisplayConfigPathInfo>, ConfigError>)
    ensures
        r is Ok <==> first_path_error(raws@, 0) is None,
        r matches Ok(paths) ==> decodes_all(paths@, raws@),
        r matches Err(e) ==> first_path_error(raws@, 0) == Some(e),
{
    let ghost orig = raws@;
    let n = raws.len();
    let mut rest = reversed(raws);
    let mut out: Vec<NvDisplayConfigPathInfo> = Vec::new();
    while rest.len() > 0
        invariant
            n == orig.len(),
            orig == raws@,
            out@.len() + rest@.len() == n,
            forall|k: int| 0 <= k < rest@.len() ==> #[trigger] rest@[k] == orig[n - 1 - k],
            forall|k: int| 0 <= k < out@.len()
                ==> path_encodes(#[trigger] out@[k], orig[k]) && out@[k].wf(),
            first_path_error(orig, 0) == first_path_error(orig, out@.len() as int),
        decreases rest@.len(),
    {
        let i = out.len();
        let raw = rest.pop().unwrap();
        assert(raw == orig[i as int]);
        match NvDisplayConfigPathInfo::from_raw(raw) {
            Ok(p) => out.push(p),
            Err(e) => return Err(e),
        }
    }
    Ok(out)
}

/// One step of the query: from where it stands and what the driver
/// answered, where it stands next and what the caller does. A non-zero
/// status ends the query at once with that status's error, before anything
/// more is allocated.
pub fn query_step(phase: QueryPhase, event: QueryEvent) -> (r: (QueryPhase, QueryAction))
    requires
        answers(phase, event),
    ensures
        match event {
            QueryEvent::Counted { status, path_count } => if status != STATUS_OK {
                r.0 is Done && fails_with_status(r.1, status)
            } else {
                r.0 == (QueryPhase::AwaitPaths { path_count })
                    && r.1 == (QueryAction::AllocatePaths { path_count })
            },
            QueryEvent::PathsFilled { status, target_counts } => if status != STATUS_OK {
                r.0 is Done && fails_with_status(r.1, status)
            } else {
                (r.0 matches QueryPhase::AwaitTargets { target_counts: c } && c@ == target_counts@)
                    && (r.1 matches QueryAction::AllocateTargets { target_counts: c }
                        && c@ == target_counts@)
            },
            QueryEvent::TargetsFilled { status, paths } => r.0 is Done && if status != STATUS_OK {
                fails_with_status(r.1, status)
            } else if !counts_match(paths@, allocated(phase)) {
                r.1 == (QueryAction::Fail { error: ConfigError::TargetCountChanged })
            } else {
                match first_path_error(paths@, 0) {
                    None => r.1 matches QueryAction::Finish { paths: out } && decodes_all(out@, paths@),
                    Some(e) => r.1 == (QueryAction::Fail { error: e }),
                }
            },
        },
{
    match event {
        QueryEvent::Counted { status, path_count } => {
            if status != STATUS_OK {
                (QueryPhase::Done, QueryAction::Fail { error: ConfigError::driver(status) })
            } else {
                (QueryPhase::AwaitPaths { path_count }, QueryAction::AllocatePaths { path_count })
            }
        },
        QueryEvent::PathsFilled { status, target_counts } => {
            if status != STATUS_OK {
                (QueryPhase::Done, QueryAction::Fail { error: ConfigError::driver(status) })
            } else {
                let next = QueryPhase::AwaitTargets { target_counts: target_counts.clone() };
                (next, QueryAction::AllocateTargets { target_counts })
            }
        },
        QueryEvent::TargetsFilled { status, paths } => {
            let counts_ok = match &phase {
                QueryPhase::AwaitTargets { target_counts } => check_counts(&paths, target_counts),
                _ => false,
            };
            if status != STATUS_OK {
                (QueryPhase::Done, QueryAction::Fail { error: ConfigError::driver(status) })
            } else if !counts_ok {
                (QueryPhase::Done, QueryAction::Fail { error: ConfigError::TargetCountChanged })
            } else {
                match decode_paths(paths) {
                    Ok(out) => (QueryPhase::Done, QueryAction::Finish { paths: out }),
                    Err(error) => (QueryPhase::Done, QueryAction::Fail { error }),
                }
            }
        },
    }
}

/// Every path has few enough targets for the driver's `u32` count.
pub open spec fn counts_fit(paths: Seq<NvDisplayConfigPathInfo>) -> bool {
    forall|i: int| 0 <= i < paths.len() ==> (#[trigger] paths[i]).target_info@.len() <= u32::MAX
}

/// The paths as driver records, in order, ready for the apply call. Each
/// nested block moves into its record; the caller moves them back with
/// `NvDisplayConfigPathInfo::from_raw` once the call returns, whatever it
/// returned.
pub fn encode_paths(paths: Vec<NvDisplayConfigPathInfo>) -> (r: Vec<RawPathInfo>)
    requires
        counts_fit(paths@),
    ensures
        r@.len() == paths@.len(),
        forall|i: int| 0 <= i < paths@.len()
            ==> path_encodes(#[trigger] paths@[i], r@[i])
                && r@[i].target_info_count == paths@[i].target_info@.len(),
{
    let ghost orig = paths@;
    let n = paths.len();
    let mut rest = reversed(paths);
    let mut out: Vec<RawPathInfo> = Vec::new();
    while rest.len() > 0
        invariant
            n == orig.len(),
            orig == paths@,
            counts_fit(orig),
            out@.len() + rest@.len() == n,
            forall|k: int| 0 <= k < rest@.len() ==> #[trigger] rest@[k] == orig[n - 1 - k],
            forall|k: int| 0 <= k < out@.len()
                ==> path_encodes(orig[k], #[trigger] out@[k])
                    && out@[k].target_info_count == orig[k].target_info@.len(),
        decreases rest@.len(),
    {
        let i = out.len();
        let p = rest.pop().unwrap();
        assert(p == orig[i as int]);
        out.push(p.into_raw());
    }
    out
}

/// The outcome of the apply call: its own status decides, and what moving
/// the blocks back afterwards gives has no part in it.
pub fn apply_outcome(status: i32) -> (r: Result<(), ConfigError>)
    ensures
        status == STATUS_OK ==> r is Ok,
        status != STATUS_OK ==> (r matches Err(ConfigError::Driver { status: s, message: m })
            && s == status && m@ == status_text(status as int)),
{
    if status == STATUS_OK {
        Ok(())
    } else {
        Err(ConfigError::driver(status))
    }
}

} // verus!
