use vstd::prelude::*;
use vstd::string::StringExecFns;

use crate::constants::YT_DLP_EXECUTABLE;
use crate::error::{AppError, AppErrorText, ExecutionStatus};
use crate::logger::Logger;
use crate::paths::{debug_text, is_present, path_debug_text};
use crate::processes::{
    entry_texts, find_running_copy, has_copy, running_processes, target_name, ProcessEntryText,
};
use crate::text::{
    debug_list, decimal_text, list_debug_text, signed_decimal, texts, unsigned_decimal,
};

verus! {

/// Milliseconds after which a child that still runs is terminated.
pub const EXECUTION_TIMEOUT_MS: u64 = 30_000;

/// Milliseconds between two looks at a child that still runs.
pub const POLL_INTERVAL_MS: u64 = 200;

/// Where a standard stream of the child leads.
#[derive(Debug, Clone, Copy, PartialEq, Eq, Structural)]
pub enum StreamPlan {
    /// Nowhere: the stream is closed.
    Null,
    /// To the stream of the supervising process.
    Inherit,
}

/// How the child is started.
#[derive(Debug, Clone, PartialEq, Eq)]
pub struct SpawnPlan {
    /// Path of the executable.
    pub program: String,
    /// Arguments handed to the executable.
    pub args: Vec<String>,
    /// Working directory of the child.
    pub working_dir: String,
    /// Environment variables that are set for the child, name and value.
    pub env: Vec<(String, String)>,
    /// Standard input of the child.
    pub stdin: StreamPlan,
    /// Standard output of the child.
    pub stdout: StreamPlan,
    /// Standard error of the child.
    pub stderr: StreamPlan,
}

/// A spawn plan over text.
pub struct SpawnPlanText {
    pub program: Seq<char>,
    pub args: Seq<Seq<char>>,
    pub working_dir: Seq<char>,
    pub env: Seq<(Seq<char>, Seq<char>)>,
    pub stdin: StreamPlan,
    pub stdout: StreamPlan,
    pub stderr: StreamPlan,
}

impl View for SpawnPlan {
    type V = SpawnPlanText;

    open spec fn view(&self) -> SpawnPlanText {
        SpawnPlanText {
            program: self.program@,
            args: texts(self.args@),
            working_dir: self.working_dir@,
            env: Seq::new(self.env@.len(), |i: int| (self.env@[i].0@, self.env@[i].1@)),
            stdin: self.stdin,
            stdout: self.stdout,
            stderr: self.stderr,
        }
    }
}

/// Where a supervised run stands. From `Running` to `Reaping` the guard holds
/// a child; `Completed`, `TimedOut` and `ExecutionFailed` end the run.
#[derive(Debug, Clone, PartialEq, Eq)]
pub enum SupervisorState {
    /// Nothing was asked for yet.
    Idle,
    /// The child is being started.
    Spawning,
    /// The child runs and is looked at from time to time.
    Running { pid: u32 },
    /// The child ran out of time: its termination was asked for.
    Expiring { pid: u32 },
    /// Looking at the child failed: the guard checks, before it lets go,
    /// whether the child is alive. `failure` is what will be reported.
    Releasing { pid: u32, failure: String },
    /// The guard found the child alive: its termination was asked for.
    Reaping { pid: u32, failure: String },
    /// The child ended with success, or was not started because there was
    /// nothing to do.
    Completed,
    /// The child ran out of time and was terminated.
    TimedOut,
    /// The child could not be started, could not be waited for, or failed;
    /// `code` is the exit code of a child that ended without success, where
    /// the platform has one.
    ExecutionFailed { code: Option<i32> },
}

/// What came of the action that was asked for last.
#[derive(Debug, Clone, PartialEq, Eq)]
pub enum SupervisorEvent {
    /// The child was started.
    Spawned { pid: u32 },
    /// The child could not be started.
    SpawnFailed { reason: String },
    /// The child was looked at and still runs, `elapsed_ms` milliseconds
    /// after it was started.
    StillRunning { elapsed_ms: u64 },
    /// The child was looked at and has ended; `code` is its exit code where
    /// the platform has one.
    Exited { success: bool, code: Option<i32> },
    /// Looking at the child failed.
    WaitFailed { reason: String },
    /// The child was told to end and was waited for; `kill_failure` says why
    /// telling it failed, if it did.
    Terminated { kill_failure: Option<String> },
}

/// What has to be done next for a supervised run.
#[derive(Debug, PartialEq, Eq)]
pub enum SupervisorAction {
    /// Start the child as the plan says.
    Spawn(SpawnPlan),
    /// Look whether the child has ended, without waiting for it.
    Poll,
    /// Sleep for `millis` milliseconds, then look whether the child has ended.
    SleepThenPoll { millis: u64 },
    /// Force the child to end, then wait for it.
    Terminate,
    /// Nothing more: the run ended with this result.
    Finish(Result<(), AppError>),
}

/// A supervisor state over text.
pub enum SupervisorStateText {
    Idle,
    Spawning,
    Running { pid: u32 },
    Expiring { pid: u32 },
    Releasing { pid: u32, failure: Seq<char> },
    Reaping { pid: u32, failure: Seq<char> },
    Completed,
    TimedOut,
    ExecutionFailed { code: Option<i32> },
}

/// A supervisor event over text.
pub enum SupervisorEventText {
    Spawned { pid: u32 },
    SpawnFailed { reason: Seq<char> },
    StillRunning { elapsed_ms: u64 },
    Exited { success: bool, code: Option<i32> },
    WaitFailed { reason: Seq<char> },
    Terminated { kill_failure: Option<Seq<char>> },
}

/// A supervisor action over text.
pub enum SupervisorActionText {
    Spawn(SpawnPlanText),
    Poll,
    SleepThenPoll { millis: u64 },
    Terminate,
    Finish(Result<(), AppErrorText>),
}

impl View for SupervisorState {
    type V = SupervisorStateText;

    open spec fn view(&self) -> SupervisorStateText {
        match *self {
            SupervisorState::Idle => SupervisorStateText::Idle,
            SupervisorState::Spawning => SupervisorStateText::Spawning,
            SupervisorState::Running { pid } => SupervisorStateText::Running { pid },
            SupervisorState::Expiring { pid } => SupervisorStateText::Expiring { pid },
            SupervisorState::Releasing { pid, failure } => SupervisorStateText::Releasing {
                pid,
                failure: failure@,
            },
            SupervisorState::Reaping { pid, failure } => SupervisorStateText::Reaping {
                pid,
                failure: failure@,
            },
            SupervisorState::Completed => SupervisorStateText::Completed,
            SupervisorState::TimedOut => SupervisorStateText::TimedOut,
            SupervisorState::ExecutionFailed { code } => SupervisorStateText::ExecutionFailed {
                code,
            },
        }
    }
}

impl View for SupervisorEvent {
    type V = SupervisorEventText;

    open spec fn view(&self) -> SupervisorEventText {
        match *self {
            SupervisorEvent::Spawned { pid } => SupervisorEventText::Spawned { pid },
            SupervisorEvent::SpawnFailed { reason } => SupervisorEventText::SpawnFailed {
                reason: reason@,
            },
            SupervisorEvent::StillRunning { elapsed_ms } => SupervisorEventText::StillRunning {
                elapsed_ms,
            },
            SupervisorEvent::Exited { success, code } => SupervisorEventText::Exited {
                success,
                code,
            },
            SupervisorEvent::WaitFailed { reason } => SupervisorEventText::WaitFailed {
                reason: reason@,
            },
            SupervisorEvent::Terminated { kill_failure } => SupervisorEventText::Terminated {
                kill_failure: match kill_failure {
                    Some(reason) => Some(reason@),
                    None => None,
                },
            },
        }
    }
}

impl View for SupervisorAction {
    type V = SupervisorActionText;

    open spec fn view(&self) -> SupervisorActionText {
        match *self {
            SupervisorAction::Spawn(plan) => SupervisorActionText::Spawn(plan@),
            SupervisorAction::Poll => SupervisorActionText::Poll,
            SupervisorAction::SleepThenPoll { millis } => SupervisorActionText::SleepThenPoll {
                millis,
            },
            SupervisorAction::Terminate => SupervisorActionText::Terminate,
            SupervisorAction::Finish(result) => SupervisorActionText::Finish(
                match result {
                    Ok(_) => Ok(()),
                    Err(error) => Err(error@),
                },
            ),
        }
    }
}

impl SupervisorStateText {
    /// Whether the guard holds a child in this state.
    pub open spec fn holds_child(self) -> bool {
        self is Running || self is Expiring || self is Releasing || self is Reaping
    }

    /// Whether the run has ended in this state.
    pub open spec fn is_terminal(self) -> bool {
        self is Completed || self is TimedOut || self is ExecutionFailed
    }
}

/// The message for a child that could not be started.
pub open spec fn spawn_failure_text(name: Seq<char>, reason: Seq<char>) -> Seq<char> {
    "Failed to spawn "@ + name + ": "@ + reason
}

/// The message for a child that could not be waited for.
pub open spec fn wait_failure_text(name: Seq<char>, reason: Seq<char>) -> Seq<char> {
    "Failed while waiting for "@ + name + ": "@ + reason
}

/// The message for a child that ran out of time.
pub open spec fn timeout_text(name: Seq<char>) -> Seq<char> {
    name + " did not respond within 30 seconds and was terminated"@
}

/// The message for a child that ended without success: with its exit code
/// where there is one.
pub open spec fn exit_failure_text(name: Seq<char>, code: Option<i32>) -> Seq<char> {
    match code {
        Some(c) => name + " exited with non-zero status code: "@ + decimal_text(c as int),
        None => name + " terminated by signal/unknown status"@,
    }
}

/// The message for an event that does not answer what the run waits for.
pub open spec fn stray_event_text() -> Seq<char> {
    "Supervisor event out of order"@
}

/// What is known of the end of a child that ended without success: its exit
/// code, or that it has none.
pub open spec fn exit_status(code: Option<i32>) -> ExecutionStatus {
    match code {
        Some(c) => ExecutionStatus::ExitCode(c),
        None => ExecutionStatus::NoExitCode,
    }
}

/// The end of a run in `state` with the execution error that holds `message`
/// and `status`.
pub open spec fn fail(
    state: SupervisorStateText,
    message: Seq<char>,
    status: ExecutionStatus,
) -> (SupervisorStateText, SupervisorActionText) {
    (state, SupervisorActionText::Finish(Err(AppErrorText::Execution(message, status))))
}

/// The end of a run in `state` for an event that does not answer what the run
/// waits for.
pub open spec fn stray(state: SupervisorStateText) -> (
    SupervisorStateText,
    SupervisorActionText,
) {
    fail(state, stray_event_text(), ExecutionStatus::Unobserved)
}

/// One step of a supervised run of the executable called `name`: the state
/// that follows `state` on `event`, and what has to be done next.
///
/// A child that was started is looked at. One that has ended ends the run,
/// with success or with the failure that its exit shows. One that still runs
/// is looked at again after the poll interval, unless the timeout has passed:
/// then it is terminated and the run ends as timed out. Where looking at the
/// child fails, the guard checks once more whether the child is alive and
/// terminates it if it is, and the run ends with the failure. An event that
/// does not answer what the run waits for is treated as a failure, and the
/// child, if there is one, is released in the same way.
pub open spec fn supervise_step(
    name: Seq<char>,
    state: SupervisorStateText,
    event: SupervisorEventText,
) -> (SupervisorStateText, SupervisorActionText) {
    match state {
        SupervisorStateText::Idle => stray(SupervisorStateText::ExecutionFailed { code: None }),
        SupervisorStateText::Spawning => match event {
            SupervisorEventText::Spawned { pid } => (
                SupervisorStateText::Running { pid },
                SupervisorActionText::Poll,
            ),
            SupervisorEventText::SpawnFailed { reason } => fail(
                SupervisorStateText::ExecutionFailed { code: None },
                spawn_failure_text(name, reason),
                ExecutionStatus::Unobserved,
            ),
            _ => stray(SupervisorStateText::ExecutionFailed { code: None }),
        },
        SupervisorStateText::Running { pid } => match event {
            SupervisorEventText::Exited { success, code } => if success {
                (SupervisorStateText::Completed, SupervisorActionText::Finish(Ok(())))
            } else {
                fail(
                    SupervisorStateText::ExecutionFailed { code },
                    exit_failure_text(name, code),
                    exit_status(code),
                )
            },
            SupervisorEventText::StillRunning { elapsed_ms } => if elapsed_ms
                >= EXECUTION_TIMEOUT_MS {
                (SupervisorStateText::Expiring { pid }, SupervisorActionText::Terminate)
            } else {
                (
                    SupervisorStateText::Running { pid },
                    SupervisorActionText::SleepThenPoll { millis: POLL_INTERVAL_MS },
                )
            },
            SupervisorEventText::WaitFailed { reason } => (
                SupervisorStateText::Releasing { pid, failure: wait_failure_text(name, reason) },
                SupervisorActionText::Poll,
            ),
            _ => (
                SupervisorStateText::Releasing { pid, failure: stray_event_text() },
                SupervisorActionText::Poll,
            ),
        },
        SupervisorStateText::Expiring { pid } => fail(
            SupervisorStateText::TimedOut,
            timeout_text(name),
            ExecutionStatus::TimedOut,
        ),
        SupervisorStateText::Releasing { pid, failure } => match event {
            SupervisorEventText::StillRunning { elapsed_ms } => (
                SupervisorStateText::Reaping { pid, failure },
                SupervisorActionText::Terminate,
            ),
            _ => fail(
                SupervisorStateText::ExecutionFailed { code: None },
                failure,
                ExecutionStatus::Unobserved,
            ),
        },
        SupervisorStateText::Reaping { pid, failure } => fail(
            SupervisorStateText::ExecutionFailed { code: None },
            failure,
            ExecutionStatus::Unobserved,
        ),
        SupervisorStateText::Completed => stray(SupervisorStateText::Completed),
        SupervisorStateText::TimedOut => stray(SupervisorStateText::TimedOut),
        SupervisorStateText::ExecutionFailed { code } => stray(
            SupervisorStateText::ExecutionFailed { code },
        ),
    }
}

/// What a step of a supervised run reports to the log.
pub open spec fn supervise_notes(
    name: Seq<char>,
    state: SupervisorStateText,
    event: SupervisorEventText,
) -> Seq<Seq<char>> {
    match state {
        SupervisorStateText::Spawning => match event {
            SupervisorEventText::Spawned { pid } => seq![
                "DEBUG: "@ + ("Spawned with PID: "@ + decimal_text(pid as int)),
            ],
            SupervisorEventText::SpawnFailed { reason } => seq![
                "ERROR: "@ + spawn_failure_text(name, reason),
            ],
            _ => Seq::empty(),
        },
        SupervisorStateText::Running { pid } => match event {
            SupervisorEventText::Exited { success, code } => if success {
                seq!["INFO: "@ + "Process completed successfully"@]
            } else {
                seq!["ERROR: "@ + exit_failure_text(name, code)]
            },
            SupervisorEventText::StillRunning { elapsed_ms } => if elapsed_ms
                >= EXECUTION_TIMEOUT_MS {
                seq!["WARNING: "@ + "Timeout waiting for child; terminating process..."@]
            } else {
                Seq::empty()
            },
            SupervisorEventText::WaitFailed { reason } => seq![
                "ERROR: "@ + wait_failure_text(name, reason),
            ],
            _ => Seq::empty(),
        },
        SupervisorStateText::Expiring { pid } => seq!["ERROR: "@ + timeout_text(name)],
        SupervisorStateText::Releasing { pid, failure } => match event {
            SupervisorEventText::StillRunning { elapsed_ms } => seq![
                "WARNING: "@ + "Child process still running, attempting to terminate..."@,
            ],
            SupervisorEventText::WaitFailed { reason } => seq![
                "WARNING: "@ + ("Failed to query child status: "@ + reason),
            ],
            _ => Seq::empty(),
        },
        SupervisorStateText::Reaping { pid, failure } => match event {
            SupervisorEventText::Terminated { kill_failure: Some(reason) } => seq![
                "WARNING: "@ + ("Failed to terminate child: "@ + reason),
            ],
            _ => Seq::empty(),
        },
        _ => Seq::empty(),
    }
}

/// What the start of a run has to go by.
pub struct LaunchRequest {
    /// Name by which the executable is called in messages.
    pub name: Seq<char>,
    /// The managed directory: working directory and temporary directory of
    /// the child.
    pub directory: Seq<char>,
    /// Path of the executable.
    pub program: Seq<char>,
    /// Arguments for the executable.
    pub args: Seq<Seq<char>>,
}

/// How the child of `request` is started: in the managed directory, with the
/// temporary directory pointed there too, with its input closed and its
/// output and errors led to those of the supervising process.
pub open spec fn spawn_plan(request: LaunchRequest) -> SpawnPlanText {
    SpawnPlanText {
        program: request.program,
        args: request.args,
        working_dir: request.directory,
        env: seq![("TEMP"@, request.directory), ("TMP"@, request.directory)],
        stdin: StreamPlan::Null,
        stdout: StreamPlan::Inherit,
        stderr: StreamPlan::Inherit,
    }
}

/// The start of a run. A copy that already runs ends the run with success and
/// nothing started; so does an empty argument list. A missing executable ends
/// it with the error for a file that is not found. These are looked at in this
/// order, and only where none holds is the child started.
pub open spec fn launch_step(request: LaunchRequest, duplicate: bool, present: bool) -> (
    SupervisorStateText,
    SupervisorActionText,
) {
    if duplicate {
        (SupervisorStateText::Completed, SupervisorActionText::Finish(Ok(())))
    } else if request.args.len() == 0 {
        (SupervisorStateText::Completed, SupervisorActionText::Finish(Ok(())))
    } else if !present {
        (
            SupervisorStateText::ExecutionFailed { code: None },
            SupervisorActionText::Finish(
                Err(
                    AppErrorText::FileNotFound(
                        "Executable not found: "@ + path_debug_text(request.program),
                    ),
                ),
            ),
        )
    } else {
        (SupervisorStateText::Spawning, SupervisorActionText::Spawn(spawn_plan(request)))
    }
}

/// What the start of a run reports to the log.
pub open spec fn launch_notes(request: LaunchRequest, duplicate: bool, present: bool) -> Seq<
    Seq<char>,
> {
    if duplicate {
        seq!["WARNING: "@ + "Detected an existing yt-dlp process. Skipping new invocation."@]
    } else if request.args.len() == 0 {
        seq!["WARNING: "@ + "No arguments provided for yt-dlp"@]
    } else if !present {
        Seq::empty()
    } else {
        seq![
            "INFO: "@ + ("Executing "@ + request.name + " with "@ + decimal_text(
                request.args.len() as int,
            ) + " arguments"@),
            "DEBUG: "@ + ("Arguments: "@ + list_debug_text(request.args)),
            "DEBUG: "@ + ("Spawning process: "@ + path_debug_text(request.program)),
        ]
    }
}

/// Where a copy of the executable already runs, the run ends at once with
/// success and no child is started, whatever else holds.
pub proof fn lemma_duplicate_starts_nothing(request: LaunchRequest, present: bool)
    ensures
        launch_step(request, true, present) == (
            SupervisorStateText::Completed,
            SupervisorActionText::Finish(Ok(())),
        ),
        !(launch_step(request, true, present).1 is Spawn),
{
}

/// A child is started if and only if no copy runs, there are arguments, and
/// the executable is on disk; every other start ends the run at once.
pub proof fn lemma_spawn_needs_admission(request: LaunchRequest, duplicate: bool, present: bool)
    ensures
        launch_step(request, duplicate, present).1 is Spawn <==> !duplicate && request.args.len()
            > 0 && present,
        launch_step(request, duplicate, present).1 is Spawn <==> launch_step(
            request,
            duplicate,
            present,
        ).0 is Spawning,
        !(launch_step(request, duplicate, present).1 is Spawn) ==> launch_step(
            request,
            duplicate,
            present,
        ).1 is Finish && launch_step(request, duplicate, present).0.is_terminal(),
{
}

/// The end of the child decides the end of the run: success completes it, and
/// an end without success fails it with the exit code where the platform has
/// one, and with the mark that there is none where it has not. The code stands
/// in the state, in the message and in the status of the error.
pub proof fn lemma_exit_is_classified(name: Seq<char>, pid: u32, success: bool, code: Option<i32>)
    ensures
        success ==> supervise_step(
            name,
            SupervisorStateText::Running { pid },
            SupervisorEventText::Exited { success, code },
        ) == (SupervisorStateText::Completed, SupervisorActionText::Finish(Ok(()))),
        !success ==> supervise_step(
            name,
            SupervisorStateText::Running { pid },
            SupervisorEventText::Exited { success, code },
        ) == fail(
            SupervisorStateText::ExecutionFailed { code },
            exit_failure_text(name, code),
            exit_status(code),
        ),
        exit_status(code) is ExitCode <==> code is Some,
        exit_status(code) is NoExitCode <==> code is None,
{
}

/// A child that still runs when the timeout has passed is terminated, and
/// once it was terminated and waited for the run ends as timed out, with the
/// error that says so.
pub proof fn lemma_timeout_terminates(
    name: Seq<char>,
    pid: u32,
    elapsed_ms: u64,
    answer: SupervisorEventText,
)
    requires
        elapsed_ms >= EXECUTION_TIMEOUT_MS,
    ensures
        supervise_step(
            name,
            SupervisorStateText::Running { pid },
            SupervisorEventText::StillRunning { elapsed_ms },
        ) == (SupervisorStateText::Expiring { pid }, SupervisorActionText::Terminate),
        supervise_step(name, SupervisorStateText::Expiring { pid }, answer) == fail(
            SupervisorStateText::TimedOut,
            timeout_text(name),
            ExecutionStatus::TimedOut,
        ),
{
}

/// The run sleeps only while it looks at a child before the timeout, and
/// then for one poll interval: no sleep that it asks for ends later than the
/// timeout and one interval after the child was started.
pub proof fn lemma_sleep_stays_within_bound(
    name: Seq<char>,
    state: SupervisorStateText,
    event: SupervisorEventText,
)
    requires
        supervise_step(name, state, event).1 is SleepThenPoll,
    ensures
        state is Running,
        supervise_step(name, state, event).0 == state,
        event is StillRunning,
        supervise_step(name, state, event).1->millis == POLL_INTERVAL_MS,
        event->elapsed_ms + supervise_step(name, state, event).1->millis < EXECUTION_TIMEOUT_MS
            + POLL_INTERVAL_MS,
{
}

/// A run ends exactly when it says so, and it never ends holding a child. A
/// child that is seen alive is not let go: the run looks again or terminates
/// it. So the run of a child ends only on the news that the child has ended,
/// after its termination was asked for, or after the guard's last check.
pub proof fn lemma_run_ends_with_child_released(
    name: Seq<char>,
    state: SupervisorStateText,
    event: SupervisorEventText,
)
    ensures
        supervise_step(name, state, event).1 is Finish <==> supervise_step(
            name,
            state,
            event,
        ).0.is_terminal(),
        supervise_step(name, state, event).0.is_terminal() ==> !supervise_step(
            name,
            state,
            event,
        ).0.holds_child(),
        (state is Running || state is Releasing) && event is StillRunning ==> supervise_step(
            name,
            state,
            event,
        ).0.holds_child() && (supervise_step(name, state, event).1 is SleepThenPoll
            || supervise_step(name, state, event).1 is Terminate),
        state is Running && supervise_step(name, state, event).0.is_terminal() ==> event is Exited,
        state.is_terminal() ==> supervise_step(name, state, event).0 == state,
{
}

/// A failure to clean up never takes the place of what the run has to
/// report: once termination was asked for, the run ends with the outcome that
/// was settled before, whatever is reported of the termination.
pub proof fn lemma_cleanup_does_not_mask_outcome(
    name: Seq<char>,
    pid: u32,
    failure: Seq<char>,
    answer: SupervisorEventText,
)
    ensures
        supervise_step(name, SupervisorStateText::Expiring { pid }, answer) == fail(
            SupervisorStateText::TimedOut,
            timeout_text(name),
            ExecutionStatus::TimedOut,
        ),
        supervise_step(name, SupervisorStateText::Reaping { pid, failure }, answer) == fail(
            SupervisorStateText::ExecutionFailed { code: None },
            failure,
            ExecutionStatus::Unobserved,
        ),
        supervise_step(name, SupervisorStateText::Releasing { pid, failure }, answer).1 is Finish
            ==> supervise_step(name, SupervisorStateText::Releasing { pid, failure }, answer)
            == fail(
            SupervisorStateText::ExecutionFailed { code: None },
            failure,
            ExecutionStatus::Unobserved,
        ),
{
}

/// The state of a run after `events` were answered one by one, from `state`
/// on.
pub open spec fn state_after(
    name: Seq<char>,
    state: SupervisorStateText,
    events: Seq<SupervisorEventText>,
) -> SupervisorStateText
    decreases events.len(),
{
    if events.len() == 0 {
        state
    } else {
        supervise_step(name, state_after(name, state, events.drop_last()), events.last()).0
    }
}

/// The milliseconds of sleep that the run asked for while `events` were
/// answered one by one, from `state` on.
pub open spec fn slept_during(
    name: Seq<char>,
    state: SupervisorStateText,
    events: Seq<SupervisorEventText>,
) -> int
    decreases events.len(),
{
    if events.len() == 0 {
        0
    } else {
        let earlier = events.drop_last();
        slept_during(name, state, earlier) + match supervise_step(
            name,
            state_after(name, state, earlier),
            events.last(),
        ).1 {
            SupervisorActionText::SleepThenPoll { millis } => millis as int,
            _ => 0,
        }
    }
}

/// Whether the clock keeps pace with the run: each look at a child that
/// still runs reports at least the time that the run has slept before it.
pub open spec fn clock_keeps_pace(
    name: Seq<char>,
    state: SupervisorStateText,
    events: Seq<SupervisorEventText>,
) -> bool {
    forall|k: int|
        0 <= k < events.len() && (#[trigger] events[k]) is StillRunning ==> events[k]->elapsed_ms
            >= slept_during(name, state, events.take(k))
}

/// However long the child runs and whatever is reported, a run whose clock
/// keeps pace sleeps for less than the timeout and one poll interval in all:
/// waiting for the child is bounded.
pub proof fn lemma_waiting_is_bounded(
    name: Seq<char>,
    state: SupervisorStateText,
    events: Seq<SupervisorEventText>,
)
    requires
        clock_keeps_pace(name, state, events),
    ensures
        slept_during(name, state, events) < EXECUTION_TIMEOUT_MS + POLL_INTERVAL_MS,
    decreases events.len(),
{
    if events.len() > 0 {
        let earlier = events.drop_last();
        let last: int = events.len() - 1;
        assert forall|k: int| 0 <= k < earlier.len() && (#[trigger] earlier[k]) is StillRunning
        implies earlier[k]->elapsed_ms >= slept_during(name, state, earlier.take(k)) by {
            assert(earlier.take(k) == events.take(k));
        }
        lemma_waiting_is_bounded(name, state, earlier);
        let before = state_after(name, state, earlier);
        if supervise_step(name, before, events.last()).1 is SleepThenPoll {
            lemma_sleep_stays_within_bound(name, before, events.last());
        }
    }
}

/// A run that has ended stays as it ended, whatever is reported afterwards,
/// and holds no child.
pub proof fn lemma_ended_run_stays_ended(
    name: Seq<char>,
    state: SupervisorStateText,
    events: Seq<SupervisorEventText>,
)
    requires
        state.is_terminal(),
    ensures
        state_after(name, state, events) == state,
        !state_after(name, state, events).holds_child(),
        slept_during(name, state, events) == 0,
    decreases events.len(),
{
    if events.len() > 0 {
        lemma_ended_run_stays_ended(name, state, events.drop_last());
    }
}

/// Runs the managed executable under supervision: decides whether it is
/// started at all, how it is started, how long it is waited for, and how its
/// end is reported.
pub struct Executor {
    exe_dir: String,
    executable_name: String,
    /// The logger that the executor reports to.
    pub logger: Logger,
}

impl Executor {
    /// The managed directory.
    pub closed spec fn directory(&self) -> Seq<char> {
        self.exe_dir@
    }

    /// Name by which the executable is called in messages.
    pub closed spec fn name(&self) -> Seq<char> {
        self.executable_name@
    }

    /// The logger that the executor reports to.
    pub closed spec fn log(&self) -> Logger {
        self.logger
    }

    /// What the start of a run of `program` with `args` goes by.
    pub open spec fn request(&self, program: Seq<char>, args: Seq<Seq<char>>) -> LaunchRequest {
        LaunchRequest { name: self.name(), directory: self.directory(), program, args }
    }

    /// Whether `next` is this executor with nothing changed but what its
    /// logger holds, which has grown by the messages `notes`.
    pub open spec fn reported(&self, next: &Executor, notes: Seq<Seq<char>>) -> bool {
        &&& next.directory() == self.directory()
        &&& next.name() == self.name()
        &&& next.log().path() == self.log().path()
        &&& next.log().limits() == self.log().limits()
        &&& next.log().messages() == self.log().messages() + notes
    }

    /// An executor that runs the managed executable in `exe_dir`.
    pub fn new(exe_dir: String, logger: Logger) -> (executor: Self)
        ensures
            executor.directory() == exe_dir@,
            executor.name() == YT_DLP_EXECUTABLE@,
            executor.log() == logger,
    {
        Executor { exe_dir, executable_name: YT_DLP_EXECUTABLE.to_owned(), logger }
    }

    /// The same executor, calling the executable `name` in its messages.
    pub fn with_executable_name(self, name: String) -> (executor: Self)
        ensures
            executor.directory() == self.directory(),
            executor.name() == name@,
            executor.log() == self.log(),
    {
        Executor { exe_dir: self.exe_dir, executable_name: name, logger: self.logger }
    }

    /// Whether a copy of the executable at `target_executable_path` runs on
    /// this machine now, the process `self_pid` left aside. The answer is
    /// that of [`find_running_copy`] for the processes that the machine
    /// showed.
    pub fn is_yt_dlp_running(target_executable_path: &str, self_pid: u32) -> (running: bool)
        ensures
            exists|processes: Seq<ProcessEntryText>|
                running == #[trigger] has_copy(
                    processes,
                    target_name(target_executable_path@),
                    self_pid,
                ),
    {
        let processes = running_processes();
        let running = find_running_copy(&processes, target_executable_path, self_pid);
        running
    }

    /// Begins a supervised run of the executable at `executable_path` with
    /// `args`, on behalf of the process `self_pid`: looks for a running copy,
    /// then at the arguments, then for the executable on disk, and starts as
    /// [`Executor::launch`] does with what it found.
    pub fn execute(&mut self, executable_path: &str, args: &[String], self_pid: u32) -> (next: (
        SupervisorState,
        SupervisorAction,
    ))
        ensures
            exists|duplicate: bool, present: bool|
                {
                    &&& (next.0@, next.1@) == #[trigger] launch_step(
                        old(self).request(executable_path@, texts(args@)),
                        duplicate,
                        present,
                    )
                    &&& old(self).reported(
                        final(self),
                        launch_notes(
                            old(self).request(executable_path@, texts(args@)),
                            duplicate,
                            present,
                        ),
                    )
                },
    {
        let duplicate = Self::is_yt_dlp_running(executable_path, self_pid);
        let present = if !duplicate && args.len() > 0 {
            is_present(executable_path)
        } else {
            false
        };
        self.launch(executable_path, args, duplicate, present)
    }

    /// Begins a supervised run, given whether a copy of the executable runs
    /// already (`duplicate`) and whether the executable is on disk
    /// (`present`).
    pub fn launch(
        &mut self,
        executable_path: &str,
        args: &[String],
        duplicate: bool,
        present: bool,
    ) -> (next: (SupervisorState, SupervisorAction))
        ensures
            (next.0@, next.1@) == launch_step(
                old(self).request(executable_path@, texts(args@)),
                duplicate,
                present,
            ),
            old(self).reported(
                final(self),
                launch_notes(
                    old(self).request(executable_path@, texts(args@)),
                    duplicate,
                    present,
                ),
            ),
    {
        let ghost before = self.logger.messages();
        let ghost request = self.request(executable_path@, texts(args@));
        if duplicate {
            self.logger.log_warning(
                "Detected an existing yt-dlp process. Skipping new invocation.",
            );
            assert(self.logger.messages() == before + launch_notes(request, duplicate, present));
            return (SupervisorState::Completed, SupervisorAction::Finish(Ok(())));
        }
        if args.len() == 0 {
            self.logger.log_warning("No arguments provided for yt-dlp");
            assert(self.logger.messages() == before + launch_notes(request, duplicate, present));
            return (SupervisorState::Completed, SupervisorAction::Finish(Ok(())));
        }
        if !present {
            let mut message = "Executable not found: ".to_owned();
            message.append(debug_text(executable_path).as_str());
            return (
                SupervisorState::ExecutionFailed { code: None },
                SupervisorAction::Finish(Err(AppError::FileNotFound(message))),
            );
        }
        let mut note = "Executing ".to_owned();
        note.append(self.executable_name.as_str());
        note.append(" with ");
        note.append(unsigned_decimal(args.len() as u64).as_str());
        note.append(" arguments");
        self.logger.log_info(note.as_str());
        let mut note = "Arguments: ".to_owned();
        note.append(debug_list(args).as_str());
        self.logger.log_debug(note.as_str());
        let mut note = "Spawning process: ".to_owned();
        note.append(debug_text(executable_path).as_str());
        self.logger.log_debug(note.as_str());
        assert(self.logger.messages() == before + launch_notes(request, duplicate, present));
        let mut env: Vec<(String, String)> = Vec::new();
        env.push(("TEMP".to_owned(), self.exe_dir.clone()));
        env.push(("TMP".to_owned(), self.exe_dir.clone()));
        let plan = SpawnPlan {
            program: executable_path.to_owned(),
            args: clone_all(args),
            working_dir: self.exe_dir.clone(),
            env,
            stdin: StreamPlan::Null,
            stdout: StreamPlan::Inherit,
            stderr: StreamPlan::Inherit,
        };
        assert(plan@.env == spawn_plan(request).env);
        (SupervisorState::Spawning, SupervisorAction::Spawn(plan))
    }

    /// Takes one step of a supervised run: answers `event`, which came of the
    /// action that `state` waits for, with the state that follows and the
    /// action to take next, and reports to the log.
    pub fn advance(&mut self, state: SupervisorState, event: SupervisorEvent) -> (next: (
        SupervisorState,
        SupervisorAction,
    ))
        ensures
            (next.0@, next.1@) == supervise_step(old(self).name(), state@, event@),
            old(self).reported(final(self), supervise_notes(old(self).name(), state@, event@)),
    {
        let ghost before = self.logger.messages();
        let ghost name = self.name();
        match state {
            SupervisorState::Idle => (
                SupervisorState::ExecutionFailed { code: None },
                stray_event(),
            ),
            SupervisorState::Spawning => match event {
                SupervisorEvent::Spawned { pid } => {
                    let mut note = "Spawned with PID: ".to_owned();
                    note.append(unsigned_decimal(pid as u64).as_str());
                    self.logger.log_debug(note.as_str());
                    assert(self.logger.messages() == before + supervise_notes(
                        name,
                        state@,
                        event@,
                    ));
                    (SupervisorState::Running { pid }, SupervisorAction::Poll)
                },
                SupervisorEvent::SpawnFailed { reason } => {
                    let mut message = "Failed to spawn ".to_owned();
                    message.append(self.executable_name.as_str());
                    message.append(": ");
                    message.append(reason.as_str());
                    self.logger.log_error(message.as_str());
                    assert(self.logger.messages() == before + supervise_notes(
                        name,
                        state@,
                        event@,
                    ));
                    (
                        SupervisorState::ExecutionFailed { code: None },
                        SupervisorAction::Finish(
                            Err(AppError::Execution(message, ExecutionStatus::Unobserved)),
                        ),
                    )
                },
                _ => (SupervisorState::ExecutionFailed { code: None }, stray_event()),
            },
            SupervisorState::Running { pid } => match event {
                SupervisorEvent::Exited { success, code } => {
                    if success {
                        self.logger.log_info("Process completed successfully");
                        assert(self.logger.messages() == before + supervise_notes(
                            name,
                            state@,
                            event@,
                        ));
                        (SupervisorState::Completed, SupervisorAction::Finish(Ok(())))
                    } else {
                        let mut message = self.executable_name.clone();
                        let status = match code {
                            Some(c) => {
                                message.append(" exited with non-zero status code: ");
                                message.append(signed_decimal(c as i64).as_str());
                                ExecutionStatus::ExitCode(c)
                            },
                            None => {
                                message.append(" terminated by signal/unknown status");
                                ExecutionStatus::NoExitCode
                            },
                        };
                        self.logger.log_error(message.as_str());
                        assert(self.logger.messages() == before + supervise_notes(
                            name,
                            state@,
                            event@,
                        ));
                        (
                            SupervisorState::ExecutionFailed { code },
                            SupervisorAction::Finish(
                                Err(AppError::Execution(message, status)),
                            ),
                        )
                    }
                },
                SupervisorEvent::StillRunning { elapsed_ms } => {
                    if elapsed_ms >= EXECUTION_TIMEOUT_MS {
                        self.logger.log_warning(
                            "Timeout waiting for child; terminating process...",
                        );
                        assert(self.logger.messages() == before + supervise_notes(
                            name,
                            state@,
                            event@,
                        ));
                        (SupervisorState::Expiring { pid }, SupervisorAction::Terminate)
                    } else {
                        (
                            SupervisorState::Running { pid },
                            SupervisorAction::SleepThenPoll { millis: POLL_INTERVAL_MS },
                        )
                    }
                },
                SupervisorEvent::WaitFailed { reason } => {
                    let mut failure = "Failed while waiting for ".to_owned();
                    failure.append(self.executable_name.as_str());
                    failure.append(": ");
                    failure.append(reason.as_str());
                    self.logger.log_error(failure.as_str());
                    assert(self.logger.messages() == before + supervise_notes(
                        name,
                        state@,
                        event@,
                    ));
                    (SupervisorState::Releasing { pid, failure }, SupervisorAction::Poll)
                },
                _ => (
                    SupervisorState::Releasing {
                        pid,
                        failure: "Supervisor event out of order".to_owned(),
                    },
                    SupervisorAction::Poll,
                ),
            },
            SupervisorState::Expiring { pid } => {
                let mut message = self.executable_name.clone();
                message.append(" did not respond within 30 seconds and was terminated");
                self.logger.log_error(message.as_str());
                assert(self.logger.messages() == before + supervise_notes(name, state@, event@));
                (
                    SupervisorState::TimedOut,
                    SupervisorAction::Finish(
                        Err(AppError::Execution(message, ExecutionStatus::TimedOut)),
                    ),
                )
            },
            SupervisorState::Releasing { pid, failure } => match event {
                SupervisorEvent::StillRunning { elapsed_ms } => {
                    self.logger.log_warning(
                        "Child process still running, attempting to terminate...",
                    );
                    assert(self.logger.messages() == before + supervise_notes(
                        name,
                        state@,
                        event@,
                    ));
                    (SupervisorState::Reaping { pid, failure }, SupervisorAction::Terminate)
                },
                SupervisorEvent::WaitFailed { reason } => {
                    let mut note = "Failed to query child status: ".to_owned();
                    note.append(reason.as_str());
                    self.logger.log_warning(note.as_str());
                    assert(self.logger.messages() == before + supervise_notes(
                        name,
                        state@,
                        event@,
                    ));
                    (
                        SupervisorState::ExecutionFailed { code: None },
                        SupervisorAction::Finish(
                            Err(AppError::Execution(failure, ExecutionStatus::Unobserved)),
                        ),
                    )
                },
                _ => (
                    SupervisorState::ExecutionFailed { code: None },
                    SupervisorAction::Finish(
                        Err(AppError::Execution(failure, ExecutionStatus::Unobserved)),
                    ),
                ),
            },
            SupervisorState::Reaping { pid, failure } => {
                match event {
                    SupervisorEvent::Terminated { kill_failure: Some(reason) } => {
                        let mut note = "Failed to terminate child: ".to_owned();
                        note.append(reason.as_str());
                        self.logger.log_warning(note.as_str());
                        assert(self.logger.messages() == before + supervise_notes(
                            name,
                            state@,
                            event@,
                        ));
                    },
                    _ => {},
                }
                (
                    SupervisorState::ExecutionFailed { code: None },
                    SupervisorAction::Finish(
                        Err(AppError::Execution(failure, ExecutionStatus::Unobserved)),
                    ),
                )
            },
            SupervisorState::Completed => (SupervisorState::Completed, stray_event()),
            SupervisorState::TimedOut => (SupervisorState::TimedOut, stray_event()),
            SupervisorState::ExecutionFailed { code } => (
                SupervisorState::ExecutionFailed { code },
                stray_event(),
            ),
        }
    }
}

/// The end of a run for an event that does not answer what the run waits for.
fn stray_event() -> (action: SupervisorAction)
    ensures
        action@ == SupervisorActionText::Finish(
            Err(AppErrorText::Execution(stray_event_text(), ExecutionStatus::Unobserved)),
        ),
{
    SupervisorAction::Finish(
        Err(
            AppError::Execution(
                "Supervisor event out of order".to_owned(),
                ExecutionStatus::Unobserved,
            ),
        ),
    )
}

/// A copy of each string of `items`, in order.
fn clone_all(items: &[String]) -> (copies: Vec<String>)
    ensures
        texts(copies@) == texts(items@),
{
    let mut copies: Vec<String> = Vec::new();
    let mut i: usize = 0;
    while i < items.len()
        invariant
            i <= items.len(),
            texts(copies@) == texts(items@).take(i as int),
        decreases items.len() - i,
    {
        let ghost before = texts(copies@);
        copies.push(items[i].clone());
        assert(texts(copies@) == before.push(texts(items@)[i as int]));
        i += 1;
    }
    copies
}

} // verus!
