//! The supervisor of the worker process: at most one task at a time.
//!
//! The supervisor decides; its caller acts. A start is two steps, with the
//! launch between them: `begin_start` answers whether and what to launch,
//! `complete_start` takes the outcome of the launch. A stop is two steps as
//! well: `begin_stop` hands out the task to terminate, `complete_stop` takes
//! the outcome of the termination. Each step says in the log what it did.

use vstd::prelude::*;
use crate::config::Invocation;
use crate::config::TaskConfig;
use crate::log_buffer::is_event;
use crate::log_buffer::keep_last;
use crate::log_buffer::law_logged_event_is_last;
use crate::log_buffer::logged;
use crate::log_buffer::LogBuffer;
use crate::log_buffer::LOG_CAPACITY;

verus! {

/// Why a start did not lead to a running task.
#[derive(Debug)]
pub enum SupervisorError {
    /// The worker could not be launched; the text says why.
    LaunchFailed(String),
}

impl SupervisorError {
    /// The error in words, as the log has it.
    pub open spec fn message_text(&self) -> Seq<char> {
        match self {
            SupervisorError::LaunchFailed(reason) => launch_failed_text(reason@),
        }
    }

    /// The error in words.
    pub fn message(&self) -> (text: String)
        ensures
            text@ == self.message_text(),
    {
        match self {
            SupervisorError::LaunchFailed(reason) => {
                let mut text: String = String::from_str("Failed to start miner: ");
                text.append(reason.as_str());
                text
            },
        }
    }
}

/// What the operator can ask of the supervisor next.
#[derive(Clone, Copy, Debug, PartialEq, Eq, Structural)]
pub enum MiningAction {
    Start,
    Stop,
}

/// The notice of a start that found a task active.
pub open spec fn already_running_text() -> Seq<char> {
    "Miner is already running."@
}

/// The notice of a successful start.
pub open spec fn started_text() -> Seq<char> {
    "Mining started."@
}

/// The notice of a launch that failed for `reason`.
pub open spec fn launch_failed_text(reason: Seq<char>) -> Seq<char> {
    "Failed to start miner: "@ + reason
}

/// The notice of a stop that found no task active.
pub open spec fn not_running_text() -> Seq<char> {
    "No miner process running."@
}

/// The notice of a termination that failed for `reason`.
pub open spec fn stop_failed_text(reason: Seq<char>) -> Seq<char> {
    "Failed to stop miner: "@ + reason
}

/// The notice of a completed stop.
pub open spec fn stopped_text() -> Seq<char> {
    "Mining stopped."@
}

/// The first step of a start. With a task active nothing is to be launched,
/// and the log gains the notice that the miner is already running. With none,
/// the command line of `config` is to be launched and the log stays as it is.
/// The task is untouched either way.
pub open spec fn start_requested<H>(
    task: Option<H>,
    log: Seq<Seq<char>>,
    config: TaskConfig,
    log_after: Seq<Seq<char>>,
    launch: Option<(Seq<char>, Seq<Seq<char>>)>,
) -> bool {
    if task is Some {
        &&& launch is None
        &&& logged(log, log_after, already_running_text())
    } else {
        &&& launch == Some((config.program@, config.args_text()))
        &&& log_after == log
    }
}

/// The second step of a start, taken with no task active. A launched process
/// becomes the task and the log gains the notice of the start. A failed
/// launch leaves no task, is reported as `LaunchFailed` with its reason, and
/// the log gains the notice of the failure.
pub open spec fn start_completed<H>(
    outcome: Result<H, Seq<char>>,
    log: Seq<Seq<char>>,
    task_after: Option<H>,
    log_after: Seq<Seq<char>>,
    failure: Option<Seq<char>>,
) -> bool {
    match outcome {
        Ok(handle) => {
            &&& task_after == Some(handle)
            &&& failure is None
            &&& logged(log, log_after, started_text())
        },
        Err(reason) => {
            &&& task_after is None
            &&& failure == Some(reason)
            &&& logged(log, log_after, launch_failed_text(reason))
        },
    }
}

/// The first step of a stop. The task, if there is one, is handed out to be
/// terminated, and none is active afterwards. With none to begin with, the
/// log gains the notice that nothing is running; otherwise it stays as it is.
pub open spec fn stop_requested<H>(
    task: Option<H>,
    log: Seq<Seq<char>>,
    task_after: Option<H>,
    log_after: Seq<Seq<char>>,
    handed_out: Option<H>,
) -> bool {
    &&& task_after is None
    &&& handed_out == task
    &&& if task is Some {
        log_after == log
    } else {
        logged(log, log_after, not_running_text())
    }
}

/// The second step of a stop. A failed termination is noted first; the notice
/// of the stop follows in any case.
pub open spec fn stop_completed(
    outcome: Result<(), Seq<char>>,
    log: Seq<Seq<char>>,
    log_after: Seq<Seq<char>>,
) -> bool {
    match outcome {
        Ok(_) => logged(log, log_after, stopped_text()),
        Err(reason) => exists|between: Seq<Seq<char>>|
            logged(log, between, stop_failed_text(reason)) && logged(
                between,
                log_after,
                stopped_text(),
            ),
    }
}

/// The reason carried by an error, as text.
pub open spec fn failure_text(result: Result<(), SupervisorError>) -> Option<Seq<char>> {
    match result {
        Ok(_) => None,
        Err(SupervisorError::LaunchFailed(reason)) => Some(reason@),
    }
}

/// The outcome of a launch or a termination with its reason as text.
pub open spec fn outcome_text<T>(outcome: Result<T, String>) -> Result<T, Seq<char>> {
    match outcome {
        Ok(value) => Ok(value),
        Err(reason) => Err(reason@),
    }
}

/// The command line of a launch, as text.
pub open spec fn launch_text(launch: Option<Invocation>) -> Option<(Seq<char>, Seq<Seq<char>>)> {
    match launch {
        Some(invocation) => Some(invocation@),
        None => None,
    }
}

/// Owns the handle of the worker process while one is active.
pub struct Supervisor<H> {
    task: Option<H>,
}

impl<H> View for Supervisor<H> {
    type V = Option<H>;

    /// The active task, if there is one.
    closed spec fn view(&self) -> Option<H> {
        self.task
    }
}

impl<H> Supervisor<H> {
    /// A supervisor with no task.
    pub fn new() -> (supervisor: Self)
        ensures
            supervisor@ is None,
    {
        Supervisor { task: None }
    }

    /// Whether a task is active.
    pub fn is_active(&self) -> (active: bool)
        ensures
            active == (self@ is Some),
    {
        self.task.is_some()
    }

    /// What the operator can ask for: a stop while a task is active, a start
    /// otherwise.
    pub fn available_action(&self) -> (action: MiningAction)
        ensures
            action == if self@ is Some {
                MiningAction::Stop
            } else {
                MiningAction::Start
            },
    {
        if self.task.is_some() {
            MiningAction::Stop
        } else {
            MiningAction::Start
        }
    }

    /// The state of the task in a word, for display.
    pub fn status_label(&self) -> (label: &'static str)
        ensures
            label@ == if self@ is Some {
                "Running"@
            } else {
                "Stopped"@
            },
    {
        if self.task.is_some() {
            "Running"
        } else {
            "Stopped"
        }
    }

    /// First step of a start: answers the command line to launch, or `None`
    /// where a task is already active.
    pub fn begin_start(&self, config: &TaskConfig, logs: &mut LogBuffer) -> (launch: Option<
        Invocation,
    >)
        ensures
            start_requested(self@, old(logs)@, *config, final(logs)@, launch_text(launch)),
            final(logs)@.len() <= LOG_CAPACITY,
    {
        proof {
            use_type_invariant(&*logs);
        }
        if self.task.is_some() {
            logs.log_event("Miner is already running.");
            None
        } else {
            Some(config.invocation())
        }
    }

    /// Second step of a start: takes the outcome of the launch.
    pub fn complete_start(&mut self, outcome: Result<H, String>, logs: &mut LogBuffer) -> (result:
        Result<(), SupervisorError>)
        requires
            old(self)@ is None,
        ensures
            start_completed(
                outcome_text(outcome),
                old(logs)@,
                final(self)@,
                final(logs)@,
                failure_text(result),
            ),
            result is Err <==> outcome is Err,
            final(logs)@.len() <= LOG_CAPACITY,
    {
        match outcome {
            Ok(handle) => {
                self.task = Some(handle);
                logs.log_event("Mining started.");
                Ok(())
            },
            Err(reason) => {
                let error = SupervisorError::LaunchFailed(reason);
                let message: String = error.message();
                logs.log_event(message.as_str());
                Err(error)
            },
        }
    }

    /// First step of a stop: hands out the task to terminate, if there is
    /// one. No task is active afterwards.
    pub fn begin_stop(&mut self, logs: &mut LogBuffer) -> (handed_out: Option<H>)
        ensures
            stop_requested(old(self)@, old(logs)@, final(self)@, final(logs)@, handed_out),
            final(logs)@.len() <= LOG_CAPACITY,
    {
        proof {
            use_type_invariant(&*logs);
        }
        let handed_out: Option<H> = self.task.take();
        if handed_out.is_none() {
            logs.log_event("No miner process running.");
        }
        handed_out
    }

    /// Second step of a stop: takes the outcome of the termination.
    pub fn complete_stop(&self, outcome: Result<(), String>, logs: &mut LogBuffer)
        ensures
            stop_completed(outcome_text(outcome), old(logs)@, final(logs)@),
            final(logs)@.len() <= LOG_CAPACITY,
    {
        let ghost told = outcome_text(outcome);
        match &outcome {
            Ok(_) => {},
            Err(reason) => {
                let mut message: String = String::from_str("Failed to stop miner: ");
                message.append(reason.as_str());
                logs.log_event(message.as_str());
            },
        }
        let ghost between = logs@;
        logs.log_event("Mining stopped.");
        proof {
            if let Err(reason) = told {
                assert(logged(old(logs)@, between, stop_failed_text(reason)));
                assert(logged(between, logs@, stopped_text()));
            }
        }
    }
}

/// Mutual exclusion: a start made while the task of an earlier start is
/// active launches nothing, leaves that task in place, and adds to the log
/// the notice that the miner is already running and nothing else.
pub proof fn law_second_start_is_refused<H>(
    handle: H,
    log: Seq<Seq<char>>,
    task: Option<H>,
    log_started: Seq<Seq<char>>,
    failure: Option<Seq<char>>,
    config: TaskConfig,
    log_after: Seq<Seq<char>>,
    launch: Option<(Seq<char>, Seq<Seq<char>>)>,
)
    requires
        start_completed(Ok(handle), log, task, log_started, failure),
        start_requested(task, log_started, config, log_after, launch),
    ensures
        task == Some(handle),
        launch is None,
        logged(log_started, log_after, already_running_text()),
        is_event(log_after.last(), already_running_text()),
        log_after.drop_last() == keep_last(log_started, (log_after.len() - 1) as nat),
{
    law_logged_event_is_last(log_started, log_after, already_running_text());
}

/// Clean stop: a stop after a successful start hands out the task that the
/// start recorded and leaves none active.
pub proof fn law_stop_after_start<H>(
    handle: H,
    log: Seq<Seq<char>>,
    task: Option<H>,
    log_started: Seq<Seq<char>>,
    failure: Option<Seq<char>>,
    task_after: Option<H>,
    log_after: Seq<Seq<char>>,
    handed_out: Option<H>,
)
    requires
        start_completed(Ok(handle), log, task, log_started, failure),
        stop_requested(task, log_started, task_after, log_after, handed_out),
    ensures
        handed_out == Some(handle),
        task_after is None,
        log_after == log_started,
{
}

/// A failed launch leaves no task active and is reported with its reason.
pub proof fn law_failed_launch_leaves_no_task<H>(
    reason: Seq<char>,
    log: Seq<Seq<char>>,
    task_after: Option<H>,
    log_after: Seq<Seq<char>>,
    failure: Option<Seq<char>>,
)
    requires
        start_completed(Err::<H, Seq<char>>(reason), log, task_after, log_after, failure),
    ensures
        task_after is None,
        failure == Some(reason),
        is_event(log_after.last(), launch_failed_text(reason)),
        log_after.len() <= LOG_CAPACITY,
{
    law_logged_event_is_last(log, log_after, launch_failed_text(reason));
}

/// Idempotent stop: a stop with no task active hands out nothing, leaves no
/// task active, and the log stays within its capacity; a second one finds
/// the same.
pub proof fn law_stop_when_idle<H>(
    log: Seq<Seq<char>>,
    task_once: Option<H>,
    log_once: Seq<Seq<char>>,
    handed_once: Option<H>,
    task_twice: Option<H>,
    log_twice: Seq<Seq<char>>,
    handed_twice: Option<H>,
)
    requires
        stop_requested(None::<H>, log, task_once, log_once, handed_once),
        stop_requested(task_once, log_once, task_twice, log_twice, handed_twice),
    ensures
        handed_once is None,
        task_once is None,
        log_once.len() <= LOG_CAPACITY,
        is_event(log_once.last(), not_running_text()),
        handed_twice is None,
        task_twice is None,
        log_twice.len() <= LOG_CAPACITY,
        is_event(log_twice.last(), not_running_text()),
{
    law_logged_event_is_last(log, log_once, not_running_text());
    law_logged_event_is_last(log_once, log_twice, not_running_text());
}

/// Whatever the termination came to, a completed stop leaves the log within
/// its capacity, with the notice of the stop as its last entry.
pub proof fn law_stop_is_noted_last(
    outcome: Result<(), Seq<char>>,
    log: Seq<Seq<char>>,
    log_after: Seq<Seq<char>>,
)
    requires
        stop_completed(outcome, log, log_after),
    ensures
        1 <= log_after.len() <= LOG_CAPACITY,
        is_event(log_after.last(), stopped_text()),
{
    match outcome {
        Ok(_) => {
            law_logged_event_is_last(log, log_after, stopped_text());
        },
        Err(reason) => {
            let between = choose|between: Seq<Seq<char>>|
                logged(log, between, stop_failed_text(reason)) && logged(
                    between,
                    log_after,
                    stopped_text(),
                );
            law_logged_event_is_last(between, log_after, stopped_text());
        },
    }
}

} // verus!
