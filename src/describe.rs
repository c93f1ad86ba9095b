//! A textual description of a path and its targets.

use vstd::prelude::*;
use vstd::string::StringExecFns;
use crate::model::{millihz_to_hz, spec_hz, NvDisplayConfigPathInfo, NvDisplayConfigPathTargetInfo};
use crate::scaling::scaling_name;
use crate::status::{decimal, push_decimal, push_signed_decimal, signed_decimal};

verus! {

/// The text of a flag.
pub open spec fn flag_text(b: bool) -> Seq<char> {
    if b { "true"@ } else { "false"@ }
}

/// The block that describes a path's source mode.
pub open spec fn source_text(p: NvDisplayConfigPathInfo) -> Seq<char> {
    let m = p.source_mode_info;
    "Source\nPrimary: "@ + flag_text(m.primary)
        + "\nResolution: "@ + decimal(m.width as nat) + "x"@ + decimal(m.height as nat)
        + "\nPosition: ("@ + signed_decimal(m.x as int) + ","@ + signed_decimal(m.y as int)
        + ")"@
}

/// The block that describes the target at `index` (numbered from one).
pub open spec fn target_text(t: NvDisplayConfigPathTargetInfo, index: nat) -> Seq<char> {
    "\nTarget "@ + decimal(index + 1)
        + "\nID: "@ + decimal(t.display_id as nat)
        + "\nRefresh rate: "@ + decimal(spec_hz(t.details.refresh_rate_1k as int) as nat) + " Hz"@
        + "\nScaling: "@ + scaling_name(t.details.scaling)
        + "\nRotation: "@ + decimal(t.details.rotation.spec_degrees() as nat)
}

/// The blocks of the first `n` targets.
pub open spec fn targets_text(targets: Seq<NvDisplayConfigPathTargetInfo>, n: nat) -> Seq<char>
    decreases n,
{
    if n == 0 {
        Seq::empty()
    } else {
        targets_text(targets, (n - 1) as nat) + target_text(targets[n - 1], (n - 1) as nat)
    }
}

/// The whole description of a path.
pub open spec fn path_text(p: NvDisplayConfigPathInfo) -> Seq<char> {
    source_text(p) + targets_text(p.target_info@, p.target_info@.len())
}

/// Describing a configuration entry for a user.
pub trait Output {
    /// The full description, one field per line.
    fn long_display(&self) -> String;
}

fn push_source(out: &mut String, p: &NvDisplayConfigPathInfo)
    ensures
        final(out)@ == old(out)@ + source_text(*p),
{
    proof {
        reveal_strlit("Source\nPrimary: ");
        reveal_strlit("true");
        reveal_strlit("false");
        reveal_strlit("\nResolution: ");
        reveal_strlit("x");
        reveal_strlit("\nPosition: (");
        reveal_strlit(",");
        reveal_strlit(")");
    }
    let m = &p.source_mode_info;
    out.append("Source\nPrimary: ");
    out.append(if m.primary { "true" } else { "false" });
    out.append("\nResolution: ");
    push_decimal(out, m.width as u64);
    out.append("x");
    push_decimal(out, m.height as u64);
    out.append("\nPosition: (");
    push_signed_decimal(out, m.x);
    out.append(",");
    push_signed_decimal(out, m.y);
    out.append(")");
    assert(final(out)@ =~= old(out)@ + source_text(*p));
}

fn push_target(out: &mut String, t: &NvDisplayConfigPathTargetInfo, index: usize)
    requires
        index < usize::MAX,
    ensures
        final(out)@ == old(out)@ + target_text(*t, index as nat),
{
    proof {
        reveal_strlit("\nTarget ");
        reveal_strlit("\nID: ");
        reveal_strlit("\nRefresh rate: ");
        reveal_strlit(" Hz");
        reveal_strlit("\nScaling: ");
        reveal_strlit("\nRotation: ");
    }
    out.append("\nTarget ");
    push_decimal(out, (index + 1) as u64);
    out.append("\nID: ");
    push_decimal(out, t.display_id as u64);
    out.append("\nRefresh rate: ");
    push_decimal(out, millihz_to_hz(t.details.refresh_rate_1k) as u64);
    out.append(" Hz");
    out.append("\nScaling: ");
    out.append(t.details.scaling.name());
    out.append("\nRotation: ");
    push_decimal(out, t.details.rotation.degrees() as u64);
    assert(final(out)@ =~= old(out)@ + target_text(*t, index as nat));
}

impl Output for NvDisplayConfigPathInfo {
    /// The source mode, then each target in order.
    fn long_display(&self) -> (r: String)
        ensures
            r@ == path_text(*self),
    {
        let mut out = String::new();
        push_source(&mut out, self);
        let n = self.target_info.len();
        let mut i: usize = 0;
        while i < n
            invariant
                n == self.target_info@.len(),
                i <= n,
                out@ == source_text(*self) + targets_text(self.target_info@, i as nat),
            decreases n - i,
        {
            push_target(&mut out, &self.target_info[i], i);
            proof {
                assert(targets_text(self.target_info@, (i + 1) as nat)
                    == targets_text(self.target_info@, i as nat)
                        + target_text(self.target_info@[i as int], i as nat));
            }
            i = i + 1;
        }
        out
    }
}

} // verus!
