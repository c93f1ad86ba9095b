//! Translation of driver status codes into messages.

use vstd::prelude::*;
use vstd::string::StringExecFns;

verus! {

/// The status a driver call returns when it succeeded.
pub const STATUS_OK: i32 = 0;

/// The character of a decimal digit.
pub open spec fn digit_char(d: nat) -> char {
    if d == 0 { '0' }
    else if d == 1 { '1' }
    else if d == 2 { '2' }
    else if d == 3 { '3' }
    else if d == 4 { '4' }
    else if d == 5 { '5' }
    else if d == 6 { '6' }
    else if d == 7 { '7' }
    else if d == 8 { '8' }
    else { '9' }
}

/// The decimal digits of `n`, most significant first, without leading zeros.
pub open spec fn decimal(n: nat) -> Seq<char>
    decreases n,
{
    if n < 10 {
        seq![digit_char(n)]
    } else {
        decimal(n / 10).push(digit_char(n % 10))
    }
}

/// The decimal text of a signed integer, with a leading minus when negative.
pub open spec fn signed_decimal(v: int) -> Seq<char> {
    if v < 0 {
        seq!['-'] + decimal((-v) as nat)
    } else {
        decimal(v as nat)
    }
}

/// Appends the decimal text of a signed integer to `out`.
pub fn push_signed_decimal(out: &mut String, v: i32)
    ensures
        final(out)@ == old(out)@ + signed_decimal(v as int),
{
    if v < 0 {
        proof { reveal_strlit("-"); }
        out.append("-");
        let magnitude: u64 = (-(v as i64)) as u64;
        push_decimal(out, magnitude);
        assert(final(out)@ =~= old(out)@ + signed_decimal(v as int));
    } else {
        push_decimal(out, v as u64);
    }
}

/// The message of a status that has one of its own.
pub open spec fn known_message(code: int) -> Option<Seq<char>> {
    if code == -1 { Some("generic error"@) }
    else if code == -2 { Some("driver library not found"@) }
    else if code == -3 { Some("not implemented by this driver"@) }
    else if code == -4 { Some("driver interface not initialized"@) }
    else if code == -5 { Some("invalid argument"@) }
    else if code == -6 { Some("no NVIDIA display driver or GPU found"@) }
    else if code == -8 { Some("invalid handle"@) }
    else if code == -9 { Some("incompatible structure version"@) }
    else if code == -14 { Some("invalid pointer"@) }
    else if code == -104 { Some("not supported"@) }
    else if code == -108 { Some("device busy"@) }
    else if code == -130 { Some("out of memory"@) }
    else if code == -150 { Some("mode change failed"@) }
    else { None }
}

/// The message for a status code: its own where it has one, else
/// `unknown status <code>`.
pub open spec fn status_text(code: int) -> Seq<char> {
    match known_message(code) {
        Some(m) => m,
        None => "unknown status "@ + signed_decimal(code),
    }
}

proof fn lemma_decimal_nonempty(n: nat)
    ensures
        decimal(n).len() >= 1,
    decreases n,
{
    if n >= 10 {
        lemma_decimal_nonempty(n / 10);
    }
}

fn digit_str(d: u64) -> (r: &'static str)
    requires
        d < 10,
    ensures
        r@ == seq![digit_char(d as nat)],
{
    proof {
        reveal_strlit("0");
        reveal_strlit("1");
        reveal_strlit("2");
        reveal_strlit("3");
        reveal_strlit("4");
        reveal_strlit("5");
        reveal_strlit("6");
        reveal_strlit("7");
        reveal_strlit("8");
        reveal_strlit("9");
    }
    if d == 0 { "0" }
    else if d == 1 { "1" }
    else if d == 2 { "2" }
    else if d == 3 { "3" }
    else if d == 4 { "4" }
    else if d == 5 { "5" }
    else if d == 6 { "6" }
    else if d == 7 { "7" }
    else if d == 8 { "8" }
    else { "9" }
}

/// Appends the decimal digits of `n` to `out`.
pub fn push_decimal(out: &mut String, n: u64)
    ensures
        final(out)@ == old(out)@ + decimal(n as nat),
    decreases n,
{
    if n < 10 {
        out.append(digit_str(n));
    } else {
        push_decimal(out, n / 10);
        out.append(digit_str(n % 10));
        assert(final(out)@ == old(out)@ + decimal(n as nat));
    }
}

fn known_str(code: i32) -> (r: Option<&'static str>)
    ensures
        match (r, known_message(code as int)) {
            (Some(s), Some(m)) => s@ == m,
            (None, None) => true,
            _ => false,
        },
        r matches Some(s) ==> s@.len() > 0,
{
    if code == -1 {
        proof { reveal_strlit("generic error"); }
        Some("generic error")
    } else if code == -2 {
        proof { reveal_strlit("driver library not found"); }
        Some("driver library not found")
    } else if code == -3 {
        proof { reveal_strlit("not implemented by this driver"); }
        Some("not implemented by this driver")
    } else if code == -4 {
        proof { reveal_strlit("driver interface not initialized"); }
        Some("driver interface not initialized")
    } else if code == -5 {
        proof { reveal_strlit("invalid argument"); }
        Some("invalid argument")
    } else if code == -6 {
        proof { reveal_strlit("no NVIDIA display driver or GPU found"); }
        Some("no NVIDIA display driver or GPU found")
    } else if code == -8 {
        proof { reveal_strlit("invalid handle"); }
        Some("invalid handle")
    } else if code == -9 {
        proof { reveal_strlit("incompatible structure version"); }
        Some("incompatible structure version")
    } else if code == -14 {
        proof { reveal_strlit("invalid pointer"); }
        Some("invalid pointer")
    } else if code == -104 {
        proof { reveal_strlit("not supported"); }
        Some("not supported")
    } else if code == -108 {
        proof { reveal_strlit("device busy"); }
        Some("device busy")
    } else if code == -130 {
        proof { reveal_strlit("out of memory"); }
        Some("out of memory")
    } else if code == -150 {
        proof { reveal_strlit("mode change failed"); }
        Some("mode change failed")
    } else {
        None
    }
}

/// The message for a driver status code. Callers handle `STATUS_OK` before
/// asking; every other code gets a non-empty message.
pub fn status_message(code: i32) -> (r: String)
    ensures
        r@ == status_text(code as int),
        code != STATUS_OK ==> r@.len() > 0,
{
    match known_str(code) {
        Some(s) => String::from_str(s),
        None => {
            proof { reveal_strlit("unknown status "); reveal_strlit("-"); }
            let mut out = String::from_str("unknown status ");
            push_signed_decimal(&mut out, code);
            proof { lemma_decimal_nonempty((if code < 0 { -code } else { code as int }) as nat); }
            out
        }
    }
}


/// What can go wrong while reading, editing or applying a configuration.
#[derive(Debug, Clone, PartialEq, Eq)]
pub enum ConfigError {
    /// A driver call returned a status other than `STATUS_OK`.
    Driver { status: i32, message: String },
    /// No path or target matched the requested selection.
    SelectionNotFound,
    /// A scaling name that names no scaling mode.
    InvalidScalingName,
    /// A rotation (a driver code or a number of degrees) that is no rotation.
    InvalidRotationValue { value: i64 },
    /// A refresh rate whose value in milli-hertz does not fit the driver's
    /// field.
    InvalidRefreshRate { hz: u32 },
    /// The driver reported a different number of targets for a path than
    /// were allocated for it, or than the path's record holds.
    TargetCountChanged,
}

/// The text shown to a user for an error.
pub open spec fn error_text(e: ConfigError) -> Seq<char> {
    match e {
        ConfigError::Driver { message, .. } => message@,
        ConfigError::SelectionNotFound => "display with the requested id not found"@,
        ConfigError::InvalidScalingName => "invalid scaling option"@,
        ConfigError::InvalidRotationValue { .. } => "invalid rotation value"@,
        ConfigError::InvalidRefreshRate { .. } => "refresh rate out of range"@,
        ConfigError::TargetCountChanged => "target count changed during the query"@,
    }
}

impl ConfigError {
    /// The error for a failed driver call, with its translated message.
    pub fn driver(status: i32) -> (r: ConfigError)
        ensures
            r matches ConfigError::Driver { status: s, message: m } && s == status
                && m@ == status_text(status as int),
    {
        ConfigError::Driver { status, message: status_message(status) }
    }

    /// The text shown to a user for this error.
    pub fn message(&self) -> (r: String)
        ensures
            r@ == error_text(*self),
            r@.len() > 0 || self matches ConfigError::Driver { .. },
    {
        match self {
            ConfigError::Driver { message, .. } => message.clone(),
            ConfigError::SelectionNotFound => {
                proof { reveal_strlit("display with the requested id not found"); }
                String::from_str("display with the requested id not found")
            },
            ConfigError::InvalidScalingName => {
                proof { reveal_strlit("invalid scaling option"); }
                String::from_str("invalid scaling option")
            },
            ConfigError::InvalidRotationValue { .. } => {
                proof { reveal_strlit("invalid rotation value"); }
                String::from_str("invalid rotation value")
            },
            ConfigError::InvalidRefreshRate { .. } => {
                proof { reveal_strlit("refresh rate out of range"); }
                String::from_str("refresh rate out of range")
            },
            ConfigError::TargetCountChanged => {
                proof { reveal_strlit("target count changed during the query"); }
                String::from_str("target count changed during the query")
            },
        }
    }
}

} // verus!
