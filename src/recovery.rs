//! The recovery routine: a fixed number of attempts to force a custom
//! display timing, each followed by a pause (but the last) and a read of the
//! resulting resolution for the log.
//!
//! The routine is a state machine: each step takes what the last driver call
//! answered and says what to log, how long to pause, and which call comes
//! next. The caller makes the calls and sleeps.

use vstd::prelude::*;
use vstd::string::StringExecFns;
use crate::model::NvDisplayConfigPathInfo;
use crate::status::{decimal, error_text, push_decimal, status_text, ConfigError, STATUS_OK};

verus! {

/// The display id that the timing calls are made for.
pub const LEGACY_DISPLAY_ID: u32 = 2147881090;
/// The mode whose timing is fetched: width, height and refresh rate in hertz.
pub const FALLBACK_WIDTH: u32 = 640;
pub const FALLBACK_HEIGHT: u32 = 480;
pub const FALLBACK_REFRESH_HZ: u32 = 60;
/// The mode that is forced with that timing.
pub const CUSTOM_WIDTH: u32 = 5120;
pub const CUSTOM_HEIGHT: u32 = 1440;
pub const CUSTOM_DEPTH: u32 = 32;
pub const CUSTOM_COLOR_FORMAT: u32 = 21;
/// How many attempts the routine makes, success or not.
pub const RECOVERY_ATTEMPTS: u32 = 3;
/// The pause after each attempt but the last, in seconds.
pub const RETRY_PAUSE_SECS: u64 = 10;

/// What the routine waits for.
#[derive(Debug, Clone, Copy, PartialEq, Eq)]
pub enum RecoveryStage {
    /// The timing of the fallback mode.
    AwaitTiming,
    /// The outcome of forcing the custom mode.
    AwaitCustom,
    /// The configuration read after the attempt.
    AwaitConfig,
    /// Nothing: the routine is over.
    Finished,
}

/// Where the routine stands: its stage, and the attempt (counted from one).
#[derive(Debug, Clone, Copy, PartialEq, Eq)]
pub struct RecoveryState {
    pub stage: RecoveryStage,
    pub attempt: u32,
}

/// What the last driver call answered.
#[derive(Debug)]
pub enum RecoveryEvent {
    TimingFetched { status: i32 },
    CustomApplied { status: i32 },
    ConfigFetched { result: Result<Vec<NvDisplayConfigPathInfo>, ConfigError> },
}

/// The driver call that comes next.
#[derive(Debug, Clone, Copy, PartialEq, Eq)]
pub enum NextCall {
    GetTiming,
    TryCustomDisplay,
    FetchConfig,
    Stop,
}

/// What the caller does after a step: write the log line, if any, pause,
/// then make the next call.
#[derive(Debug, Clone)]
pub struct RecoveryAction {
    pub log: Option<String>,
    pub sleep_secs: u64,
    pub next: NextCall,
}

/// The shape of an answer, which alone decides the next state.
pub enum Answer {
    Timing { ok: bool },
    Custom,
    Config,
}

pub open spec fn answer_of(e: RecoveryEvent) -> Answer {
    match e {
        RecoveryEvent::TimingFetched { status } => Answer::Timing { ok: status == STATUS_OK },
        RecoveryEvent::CustomApplied { .. } => Answer::Custom,
        RecoveryEvent::ConfigFetched { .. } => Answer::Config,
    }
}

impl RecoveryState {
    /// The attempt is one of the routine's.
    pub open spec fn wf(self) -> bool {
        1 <= self.attempt <= RECOVERY_ATTEMPTS
    }

    /// The state the routine starts in.
    pub fn start() -> (r: RecoveryState)
        ensures
            r == (RecoveryState { stage: RecoveryStage::AwaitTiming, attempt: 1 }),
    {
        RecoveryState { stage: RecoveryStage::AwaitTiming, attempt: 1 }
    }
}

/// The answer is to the question that the stage asked.
pub open spec fn answers(s: RecoveryState, a: Answer) -> bool {
    match (s.stage, a) {
        (RecoveryStage::AwaitTiming, Answer::Timing { .. }) => true,
        (RecoveryStage::AwaitCustom, Answer::Custom) => true,
        (RecoveryStage::AwaitConfig, Answer::Config) => true,
        _ => false,
    }
}

/// The state after an answer: a fetched timing leads to forcing the mode, a
/// failed fetch or a forced mode to reading the configuration, and that read
/// to the next attempt or, after the last, to the end.
pub open spec fn spec_next(s: RecoveryState, a: Answer) -> RecoveryState {
    match a {
        Answer::Timing { ok } => if ok {
            RecoveryState { stage: RecoveryStage::AwaitCustom, attempt: s.attempt }
        } else {
            RecoveryState { stage: RecoveryStage::AwaitConfig, attempt: s.attempt }
        },
        Answer::Custom => RecoveryState { stage: RecoveryStage::AwaitConfig, attempt: s.attempt },
        Answer::Config => if s.attempt < RECOVERY_ATTEMPTS {
            RecoveryState { stage: RecoveryStage::AwaitTiming, attempt: (s.attempt + 1) as u32 }
        } else {
            RecoveryState { stage: RecoveryStage::Finished, attempt: s.attempt }
        },
    }
}

/// The call that a stage asks for.
pub open spec fn call_for(stage: RecoveryStage) -> NextCall {
    match stage {
        RecoveryStage::AwaitTiming => NextCall::GetTiming,
        RecoveryStage::AwaitCustom => NextCall::TryCustomDisplay,
        RecoveryStage::AwaitConfig => NextCall::FetchConfig,
        RecoveryStage::Finished => NextCall::Stop,
    }
}

/// An answer writes a log line unless it is a fetched timing.
pub open spec fn writes_log(a: Answer) -> bool {
    !(a matches Answer::Timing { ok: true })
}

/// The answer ends an attempt's try: the mode was forced, or could not be.
pub open spec fn ends_try(a: Answer) -> bool {
    a matches Answer::Custom || a matches Answer::Timing { ok: false }
}

pub open spec fn attempt_suffix(n: u32) -> Seq<char> {
    ", attempt "@ + decimal(n as nat)
}

/// The log line for a forced mode.
pub open spec fn success_line(n: u32) -> Seq<char> {
    "Successfully fixed the shit"@ + attempt_suffix(n)
}

/// The log line for an attempt that failed with a message.
pub open spec fn failure_line(message: Seq<char>, n: u32) -> Seq<char> {
    "Failed to fix the shit: "@ + message + attempt_suffix(n)
}

/// The message for a failed timing fetch.
pub open spec fn timing_error(status: i32) -> Seq<char> {
    "Error retrieving timing "@ + status_text(status as int)
}

/// The message for a failed forced mode.
pub open spec fn custom_error(status: i32) -> Seq<char> {
    "Error applying resolution "@ + status_text(status as int)
}

/// The log line for the resolution read after an attempt.
pub open spec fn resolution_line(width: u32, height: u32, n: u32) -> Seq<char> {
    "Retrieved resolution: "@ + decimal(width as nat) + "x"@ + decimal(height as nat)
        + attempt_suffix(n)
}

/// The log line for a failed read of the configuration.
pub open spec fn fetch_failure_line(message: Seq<char>) -> Seq<char> {
    "Failed to get current display config "@ + message
}

/// The log line that an event writes in a state, if any.
pub open spec fn log_line(s: RecoveryState, e: RecoveryEvent) -> Option<Seq<char>> {
    let n = s.attempt;
    match e {
        RecoveryEvent::TimingFetched { status } => if status == STATUS_OK {
            None
        } else {
            Some(failure_line(timing_error(status), n))
        },
        RecoveryEvent::CustomApplied { status } => if status == STATUS_OK {
            Some(success_line(n))
        } else {
            Some(failure_line(custom_error(status), n))
        },
        RecoveryEvent::ConfigFetched { result } => match result {
            Ok(paths) => if paths@.len() > 0 {
                Some(resolution_line(
                    paths@[0].source_mode_info.width,
                    paths@[0].source_mode_info.height,
                    n,
                ))
            } else {
                Some(fetch_failure_line("no display paths"@))
            },
            Err(err) => Some(fetch_failure_line(error_text(err))),
        },
    }
}

fn push_attempt(out: &mut String, n: u32)
    ensures
        final(out)@ == old(out)@ + attempt_suffix(n),
{
    proof { reveal_strlit(", attempt "); }
    out.append(", attempt ");
    push_decimal(out, n as u64);
    assert(final(out)@ =~= old(out)@ + attempt_suffix(n));
}

fn failure_text(message: &String, n: u32) -> (r: String)
    ensures
        r@ == failure_line(message@, n),
{
    proof { reveal_strlit("Failed to fix the shit: "); }
    let mut out = String::from_str("Failed to fix the shit: ");
    out.append(message.as_str());
    push_attempt(&mut out, n);
    assert(out@ =~= failure_line(message@, n));
    out
}

fn prefixed(prefix: &str, message: &String) -> (r: String)
    ensures
        r@ == prefix@ + message@,
{
    let mut out = String::from_str(prefix);
    out.append(message.as_str());
    out
}

fn config_line(result: &Result<Vec<NvDisplayConfigPathInfo>, ConfigError>, n: u32) -> (r: String)
    ensures
        Some(r@) == log_line(
            RecoveryState { stage: RecoveryStage::AwaitConfig, attempt: n },
            RecoveryEvent::ConfigFetched { result: *result },
        ),
{
    proof {
        reveal_strlit("Failed to get current display config ");
        reveal_strlit("no display paths");
        reveal_strlit("Retrieved resolution: ");
        reveal_strlit("x");
    }
    match result {
        Ok(paths) => {
            if paths.len() > 0 {
                let mut out = String::from_str("Retrieved resolution: ");
                push_decimal(&mut out, paths[0].source_mode_info.width as u64);
                out.append("x");
                push_decimal(&mut out, paths[0].source_mode_info.height as u64);
                push_attempt(&mut out, n);
                assert(out@ =~= resolution_line(
                    paths@[0].source_mode_info.width,
                    paths@[0].source_mode_info.height,
                    n,
                ));
                out
            } else {
                let mut out = String::from_str("Failed to get current display config ");
                out.append("no display paths");
                out
            }
        },
        Err(err) => prefixed("Failed to get current display config ", &err.message()),
    }
}

/// One step of the routine: from the state and what the driver answered,
/// the next state and what to do. The routine pauses after the try of every
/// attempt but the last, and never ends early, success or not.
pub fn recovery_step(s: RecoveryState, e: RecoveryEvent) -> (r: (RecoveryState, RecoveryAction))
    requires
        s.wf(),
        answers(s, answer_of(e)),
    ensures
        r.0 == spec_next(s, answer_of(e)),
        r.0.stage != RecoveryStage::Finished ==> r.0.wf(),
        r.1.next == call_for(r.0.stage),
        r.1.log is Some <==> writes_log(answer_of(e)),
        r.1.log matches Some(line) ==> log_line(s, e) == Some(line@),
        r.1.sleep_secs == (if ends_try(answer_of(e)) && s.attempt < RECOVERY_ATTEMPTS {
            RETRY_PAUSE_SECS
        } else {
            0
        }),
{
    let n = s.attempt;
    let pause: u64 = if n < RECOVERY_ATTEMPTS { RETRY_PAUSE_SECS } else { 0 };
    match e {
        RecoveryEvent::TimingFetched { status } => {
            if status == STATUS_OK {
                let next = RecoveryState { stage: RecoveryStage::AwaitCustom, attempt: n };
                (next, RecoveryAction { log: None, sleep_secs: 0, next: NextCall::TryCustomDisplay })
            } else {
                proof { reveal_strlit("Error retrieving timing "); }
                let message = prefixed("Error retrieving timing ", &crate::status::status_message(status));
                let line = failure_text(&message, n);
                let next = RecoveryState { stage: RecoveryStage::AwaitConfig, attempt: n };
                (next, RecoveryAction { log: Some(line), sleep_secs: pause, next: NextCall::FetchConfig })
            }
        },
        RecoveryEvent::CustomApplied { status } => {
            let line = if status == STATUS_OK {
                proof { reveal_strlit("Successfully fixed the shit"); }
                let mut out = String::from_str("Successfully fixed the shit");
                push_attempt(&mut out, n);
                out
            } else {
                proof { reveal_strlit("Error applying resolution "); }
                let message = prefixed("Error applying resolution ", &crate::status::status_message(status));
                failure_text(&message, n)
            };
            let next = RecoveryState { stage: RecoveryStage::AwaitConfig, attempt: n };
            (next, RecoveryAction { log: Some(line), sleep_secs: pause, next: NextCall::FetchConfig })
        },
        RecoveryEvent::ConfigFetched { result } => {
            let line = config_line(&result, n);
            if n < RECOVERY_ATTEMPTS {
                let next = RecoveryState { stage: RecoveryStage::AwaitTiming, attempt: n + 1 };
                (next, RecoveryAction { log: Some(line), sleep_secs: 0, next: NextCall::GetTiming })
            } else {
                let next = RecoveryState { stage: RecoveryStage::Finished, attempt: n };
                (next, RecoveryAction { log: Some(line), sleep_secs: 0, next: NextCall::Stop })
            }
        },
    }
}

/// Every answer in the sequence answers the state it reaches.
pub open spec fn valid_run(s: RecoveryState, answers_seq: Seq<Answer>) -> bool
    decreases answers_seq.len(),
{
    answers_seq.len() == 0 || (answers(s, answers_seq[0])
        && valid_run(spec_next(s, answers_seq[0]), answers_seq.drop_first()))
}

/// The state after the answers.
pub open spec fn run_end(s: RecoveryState, answers_seq: Seq<Answer>) -> RecoveryState
    decreases answers_seq.len(),
{
    if answers_seq.len() == 0 {
        s
    } else {
        run_end(spec_next(s, answers_seq[0]), answers_seq.drop_first())
    }
}

/// How many timing calls a run makes: one for each answer given while the
/// routine waits for a timing.
pub open spec fn timing_calls(s: RecoveryState, answers_seq: Seq<Answer>) -> nat
    decreases answers_seq.len(),
{
    if answers_seq.len() == 0 {
        0
    } else {
        (if s.stage == RecoveryStage::AwaitTiming { 1nat } else { 0nat })
            + timing_calls(spec_next(s, answers_seq[0]), answers_seq.drop_first())
    }
}

/// How many attempt outcomes a run logs.
pub open spec fn outcome_logs(answers_seq: Seq<Answer>) -> nat
    decreases answers_seq.len(),
{
    if answers_seq.len() == 0 {
        0
    } else {
        (if ends_try(answers_seq[0]) { 1nat } else { 0nat }) + outcome_logs(answers_seq.drop_first())
    }
}

/// How many resolution reads a run logs.
pub open spec fn diagnostic_logs(answers_seq: Seq<Answer>) -> nat
    decreases answers_seq.len(),
{
    if answers_seq.len() == 0 {
        0
    } else {
        (if answers_seq[0] is Config { 1nat } else { 0nat })
            + diagnostic_logs(answers_seq.drop_first())
    }
}

/// Attempts still to begin, counting the current one while its timing is
/// awaited.
pub open spec fn tries_left(s: RecoveryState) -> nat {
    match s.stage {
        RecoveryStage::AwaitTiming => (RECOVERY_ATTEMPTS - s.attempt + 1) as nat,
        RecoveryStage::Finished => 0,
        _ => (RECOVERY_ATTEMPTS - s.attempt) as nat,
    }
}

/// Outcomes still to be logged.
pub open spec fn outcomes_left(s: RecoveryState) -> nat {
    match s.stage {
        RecoveryStage::AwaitConfig => (RECOVERY_ATTEMPTS - s.attempt) as nat,
        RecoveryStage::Finished => 0,
        _ => (RECOVERY_ATTEMPTS - s.attempt + 1) as nat,
    }
}

/// Configuration reads still to be logged.
pub open spec fn reads_left(s: RecoveryState) -> nat {
    match s.stage {
        RecoveryStage::Finished => 0,
        _ => (RECOVERY_ATTEMPTS - s.attempt + 1) as nat,
    }
}

proof fn lemma_run_counts(s: RecoveryState, answers_seq: Seq<Answer>)
    requires
        s.wf() || s.stage == RecoveryStage::Finished,
        valid_run(s, answers_seq),
        run_end(s, answers_seq).stage == RecoveryStage::Finished,
    ensures
        timing_calls(s, answers_seq) == tries_left(s),
        outcome_logs(answers_seq) == outcomes_left(s),
        diagnostic_logs(answers_seq) == reads_left(s),
    decreases answers_seq.len(),
{
    if answers_seq.len() > 0 {
        let next = spec_next(s, answers_seq[0]);
        lemma_run_counts(next, answers_seq.drop_first());
    }
}

/// Whatever each call answers, a run of the routine from its start that
/// reaches the end has made exactly three timing calls, logged three attempt
/// outcomes and logged three resolution reads: success never cuts it short.
pub proof fn lemma_recovery_always_three_attempts(answers_seq: Seq<Answer>)
    requires
        valid_run(RecoveryState { stage: RecoveryStage::AwaitTiming, attempt: 1 }, answers_seq),
        run_end(RecoveryState { stage: RecoveryStage::AwaitTiming, attempt: 1 }, answers_seq).stage
            == RecoveryStage::Finished,
    ensures
        timing_calls(RecoveryState { stage: RecoveryStage::AwaitTiming, attempt: 1 }, answers_seq) == 3,
        outcome_logs(answers_seq) == 3,
        diagnostic_logs(answers_seq) == 3,
{
    lemma_run_counts(RecoveryState { stage: RecoveryStage::AwaitTiming, attempt: 1 }, answers_seq);
}

/// A run that has not reached the end always asks for one more call.
pub proof fn lemma_unfinished_run_continues(s: RecoveryState)
    requires
        s.stage != RecoveryStage::Finished,
    ensures
        call_for(s.stage) != NextCall::Stop,
{
}

} // verus!
