//! The driver's scaling modes and their integer encoding.

use vstd::prelude::*;
use vstd::string::StrSliceExecFns;
use crate::status::ConfigError;

verus! {

/// How an image is scaled onto a display. Codes that name no mode are kept
/// as they are in `Unknown`, so that they travel back to the driver unchanged.
#[derive(Debug, Clone, Copy, PartialEq, Eq)]
pub enum Scaling {
    Default,
    GpuScalingToClosest,
    GpuScalingToNative,
    GpuScanoutToNative,
    GpuScalingToAspectScanoutToNative,
    GpuScalingToAspectScanoutToClosest,
    GpuScanoutToClosest,
    GpuIntegerAspectScaling,
    Customized,
    Unknown(i32),
}

/// The mode that a driver code names, if any.
pub open spec fn scaling_of_code(code: i32) -> Option<Scaling> {
    if code == 0 { Some(Scaling::Default) }
    else if code == 1 { Some(Scaling::GpuScalingToClosest) }
    else if code == 2 { Some(Scaling::GpuScalingToNative) }
    else if code == 3 { Some(Scaling::GpuScanoutToNative) }
    else if code == 5 { Some(Scaling::GpuScalingToAspectScanoutToNative) }
    else if code == 6 { Some(Scaling::GpuScalingToAspectScanoutToClosest) }
    else if code == 7 { Some(Scaling::GpuScanoutToClosest) }
    else if code == 8 { Some(Scaling::GpuIntegerAspectScaling) }
    else if code == 255 { Some(Scaling::Customized) }
    else { None }
}

impl Scaling {
    /// The driver code of this mode.
    pub open spec fn spec_code(self) -> i32 {
        match self {
            Scaling::Default => 0,
            Scaling::GpuScalingToClosest => 1,
            Scaling::GpuScalingToNative => 2,
            Scaling::GpuScanoutToNative => 3,
            Scaling::GpuScalingToAspectScanoutToNative => 5,
            Scaling::GpuScalingToAspectScanoutToClosest => 6,
            Scaling::GpuScanoutToClosest => 7,
            Scaling::GpuIntegerAspectScaling => 8,
            Scaling::Customized => 255,
            Scaling::Unknown(c) => c,
        }
    }

    /// A value that decoding can produce: `Unknown` only holds codes that name
    /// no mode.
    pub open spec fn wf(self) -> bool {
        self matches Scaling::Unknown(c) ==> scaling_of_code(c) is None
    }

    /// The mode for a driver code.
    pub open spec fn spec_from_code(code: i32) -> Scaling {
        match scaling_of_code(code) {
            Some(s) => s,
            None => Scaling::Unknown(code),
        }
    }

    /// The driver code of this mode.
    pub fn code(self) -> (r: i32)
        ensures
            r == self.spec_code(),
    {
        match self {
            Scaling::Default => 0,
            Scaling::GpuScalingToClosest => 1,
            Scaling::GpuScalingToNative => 2,
            Scaling::GpuScanoutToNative => 3,
            Scaling::GpuScalingToAspectScanoutToNative => 5,
            Scaling::GpuScalingToAspectScanoutToClosest => 6,
            Scaling::GpuScanoutToClosest => 7,
            Scaling::GpuIntegerAspectScaling => 8,
            Scaling::Customized => 255,
            Scaling::Unknown(c) => c,
        }
    }

    /// The mode for a driver code; a code that names no mode is kept in
    /// `Unknown`.
    pub fn from_code(code: i32) -> (r: Scaling)
        ensures
            r == Scaling::spec_from_code(code),
            r.wf(),
            r.spec_code() == code,
    {
        if code == 0 { Scaling::Default }
        else if code == 1 { Scaling::GpuScalingToClosest }
        else if code == 2 { Scaling::GpuScalingToNative }
        else if code == 3 { Scaling::GpuScanoutToNative }
        else if code == 5 { Scaling::GpuScalingToAspectScanoutToNative }
        else if code == 6 { Scaling::GpuScalingToAspectScanoutToClosest }
        else if code == 7 { Scaling::GpuScanoutToClosest }
        else if code == 8 { Scaling::GpuIntegerAspectScaling }
        else if code == 255 { Scaling::Customized }
        else { Scaling::Unknown(code) }
    }
}

/// Decoding any code and encoding the result gives the code back, whether or
/// not it names a mode.
pub proof fn lemma_scaling_code_round_trip(code: i32)
    ensures
        Scaling::spec_from_code(code).spec_code() == code,
        Scaling::spec_from_code(code).wf(),
{
}

/// Encoding a mode and decoding the code gives the mode back.
pub proof fn lemma_scaling_mode_round_trip(s: Scaling)
    requires
        s.wf(),
    ensures
        Scaling::spec_from_code(s.spec_code()) == s,
{
}


/// The name of a mode, as a user writes it and as it is shown.
pub open spec fn scaling_name(s: Scaling) -> Seq<char> {
    match s {
        Scaling::Default => "default"@,
        Scaling::GpuScalingToClosest => "gpu-closest"@,
        Scaling::GpuScalingToNative => "gpu-native"@,
        Scaling::GpuScanoutToNative => "scanout-native"@,
        Scaling::GpuScalingToAspectScanoutToNative => "aspect-native"@,
        Scaling::GpuScalingToAspectScanoutToClosest => "aspect-closest"@,
        Scaling::GpuScanoutToClosest => "scanout-closest"@,
        Scaling::GpuIntegerAspectScaling => "integer-aspect"@,
        Scaling::Customized => "customized"@,
        Scaling::Unknown(_) => "unknown"@,
    }
}

/// The mode that a name names; `unknown` names none.
pub open spec fn scaling_named(text: Seq<char>) -> Option<Scaling> {
    if text == "default"@ { Some(Scaling::Default) }
    else if text == "gpu-closest"@ { Some(Scaling::GpuScalingToClosest) }
    else if text == "gpu-native"@ { Some(Scaling::GpuScalingToNative) }
    else if text == "scanout-native"@ { Some(Scaling::GpuScanoutToNative) }
    else if text == "aspect-native"@ { Some(Scaling::GpuScalingToAspectScanoutToNative) }
    else if text == "aspect-closest"@ { Some(Scaling::GpuScalingToAspectScanoutToClosest) }
    else if text == "scanout-closest"@ { Some(Scaling::GpuScanoutToClosest) }
    else if text == "integer-aspect"@ { Some(Scaling::GpuIntegerAspectScaling) }
    else if text == "customized"@ { Some(Scaling::Customized) }
    else { None }
}

/// Whether two strings hold the same characters.
pub fn same_text(a: &str, b: &str) -> (r: bool)
    ensures
        r == (a@ == b@),
{
    let n = a.unicode_len();
    if n != b.unicode_len() {
        return false;
    }
    let mut i: usize = 0;
    while i < n
        invariant
            n == a@.len(),
            n == b@.len(),
            i <= n,
            forall|j: int| 0 <= j < i ==> a@[j] == b@[j],
        decreases n - i,
    {
        if a.get_char(i) != b.get_char(i) {
            return false;
        }
        i = i + 1;
    }
    assert(a@ =~= b@);
    true
}

impl Scaling {
    /// The name of this mode.
    pub fn name(self) -> (r: &'static str)
        ensures
            r@ == scaling_name(self),
    {
        match self {
            Scaling::Default => { proof { reveal_strlit("default"); } "default" },
            Scaling::GpuScalingToClosest => { proof { reveal_strlit("gpu-closest"); } "gpu-closest" },
            Scaling::GpuScalingToNative => { proof { reveal_strlit("gpu-native"); } "gpu-native" },
            Scaling::GpuScanoutToNative => { proof { reveal_strlit("scanout-native"); } "scanout-native" },
            Scaling::GpuScalingToAspectScanoutToNative => { proof { reveal_strlit("aspect-native"); } "aspect-native" },
            Scaling::GpuScalingToAspectScanoutToClosest => { proof { reveal_strlit("aspect-closest"); } "aspect-closest" },
            Scaling::GpuScanoutToClosest => { proof { reveal_strlit("scanout-closest"); } "scanout-closest" },
            Scaling::GpuIntegerAspectScaling => { proof { reveal_strlit("integer-aspect"); } "integer-aspect" },
            Scaling::Customized => { proof { reveal_strlit("customized"); } "customized" },
            Scaling::Unknown(_) => { proof { reveal_strlit("unknown"); } "unknown" },
        }
    }

    /// The mode that a user-supplied name names.
    pub fn from_name(text: &str) -> (r: Result<Scaling, ConfigError>)
        ensures
            match scaling_named(text@) {
                Some(s) => r == Ok::<Scaling, ConfigError>(s),
                None => r == Err::<Scaling, ConfigError>(ConfigError::InvalidScalingName),
            },
    {
        let named = [
            Scaling::Default,
            Scaling::GpuScalingToClosest,
            Scaling::GpuScalingToNative,
            Scaling::GpuScanoutToNative,
            Scaling::GpuScalingToAspectScanoutToNative,
            Scaling::GpuScalingToAspectScanoutToClosest,
            Scaling::GpuScanoutToClosest,
            Scaling::GpuIntegerAspectScaling,
            Scaling::Customized,
        ];
        let mut i: usize = 0;
        while i < 9
            invariant
                i <= 9,
                named@ == seq![
                    Scaling::Default,
                    Scaling::GpuScalingToClosest,
                    Scaling::GpuScalingToNative,
                    Scaling::GpuScanoutToNative,
                    Scaling::GpuScalingToAspectScanoutToNative,
                    Scaling::GpuScalingToAspectScanoutToClosest,
                    Scaling::GpuScanoutToClosest,
                    Scaling::GpuIntegerAspectScaling,
                    Scaling::Customized,
                ],
                forall|j: int| 0 <= j < i ==> text@ != scaling_name(#[trigger] named@[j]),
            decreases 9 - i,
        {
            let s = named[i];
            if same_text(text, s.name()) {
                proof {
                    reveal_strlit("default");
                    reveal_strlit("gpu-closest");
                    reveal_strlit("gpu-native");
                    reveal_strlit("scanout-native");
                    reveal_strlit("aspect-native");
                    reveal_strlit("aspect-closest");
                    reveal_strlit("scanout-closest");
                    reveal_strlit("integer-aspect");
                    reveal_strlit("customized");
                }
                return Ok(s);
            }
            i = i + 1;
        }
        Err(ConfigError::InvalidScalingName)
    }
}

} // verus!
