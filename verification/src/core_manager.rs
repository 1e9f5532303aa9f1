//! The process supervisor: the life cycle of the one kernel process.
//!
//! The supervisor is a state machine over [`CoreState`]. Spawning, probing and
//! killing the process is the caller's business: each function here decides one
//! step and says what the caller has to do next. The caller holds the state
//! under a lock for the whole of a start or a shutdown, so that no two of them
//! see the slot at once.

use crate::config::Config;
use crate::endpoints::{endpoint_text, shutdown_url, SHUTDOWN_PATH};
use crate::scanner::{find_latest_kernel, selected_index, versions_of, KernelBinaryCandidate};
use crate::text::join;
use vstd::prelude::*;

verus! {

/// Whether a kernel process is supervised.
#[derive(Clone, Copy, Debug, PartialEq, Eq, Structural)]
pub enum SupervisorState {
    NotRunning,
    Running,
}

/// What the supervisor keeps of a spawned process: the identifier by which
/// the caller finds the handle again.
#[derive(Clone, Copy, Debug, PartialEq, Eq, Structural)]
pub struct KernelProcess {
    pub pid: u32,
}

/// The process slot: the supervised kernel process, if one is running.
#[derive(Debug)]
pub struct CoreState {
    pub process: Option<KernelProcess>,
}

/// Why the kernel could not be started.
#[derive(Debug)]
pub enum CoreError {
    /// No scanned directory holds a kernel executable that can be run.
    KernelNotFound,
    /// The operating system did not launch the process; the text says why.
    SpawnFailed(String),
}

/// The model of a [`CoreError`].
pub ghost enum CoreErrorModel {
    KernelNotFound,
    SpawnFailed(Seq<char>),
}

impl View for CoreError {
    type V = CoreErrorModel;

    open spec fn view(&self) -> CoreErrorModel {
        match self {
            CoreError::KernelNotFound => CoreErrorModel::KernelNotFound,
            CoreError::SpawnFailed(detail) => CoreErrorModel::SpawnFailed(detail@),
        }
    }
}

impl CoreError {
    /// The text of the error, as shown to the user.
    pub open spec fn message_text(self) -> Seq<char> {
        match self {
            CoreError::KernelNotFound => "Kernel executable not found"@,
            CoreError::SpawnFailed(detail) => "Failed to start kernel: "@ + detail@,
        }
    }

    /// The text of the error, as shown to the user.
    pub fn message(&self) -> (r: String)
        ensures
            r@ == self.message_text(),
    {
        match self {
            CoreError::KernelNotFound => String::from_str("Kernel executable not found"),
            CoreError::SpawnFailed(detail) => join("Failed to start kernel: ", detail.as_str()),
        }
    }
}

/// The state that goes with the content of the slot.
pub open spec fn state_of(process: Option<KernelProcess>) -> SupervisorState {
    match process {
        Some(_) => SupervisorState::Running,
        None => SupervisorState::NotRunning,
    }
}

impl CoreState {
    /// The state of the supervisor.
    pub open spec fn state(self) -> SupervisorState {
        state_of(self.process)
    }

    /// The initial state: no process is supervised.
    pub fn new() -> (state: CoreState)
        ensures
            state.process is None,
            state.state() == SupervisorState::NotRunning,
    {
        CoreState { process: None }
    }

    /// The state of the supervisor.
    pub fn supervisor_state(&self) -> (s: SupervisorState)
        ensures
            s == self.state(),
    {
        match self.process {
            Some(_) => SupervisorState::Running,
            None => SupervisorState::NotRunning,
        }
    }
}

/// The first step of a start.
#[derive(Clone, Copy, Debug, PartialEq, Eq, Structural)]
pub enum StartStep {
    /// A process is supervised already: the start is done and has succeeded.
    AlreadyRunning,
    /// No process is supervised: scan for kernel binaries, then go on with
    /// [`launch_request`].
    FindKernel,
}

/// The first step of a start, given the content of the slot.
pub open spec fn start_step(process: Option<KernelProcess>) -> StartStep {
    match process {
        Some(_) => StartStep::AlreadyRunning,
        None => StartStep::FindKernel,
    }
}

/// Begins a start. While a process is supervised, a start is a no-op that
/// succeeds; it is no error.
pub fn start_core(state: &CoreState) -> (step: StartStep)
    ensures
        step == start_step(state.process),
{
    match state.process {
        Some(_) => StartStep::AlreadyRunning,
        None => StartStep::FindKernel,
    }
}

/// The argument with which the kernel binary is started as a service.
pub const START_ARGUMENT: &'static str = "start";

/// The process to spawn: the kernel binary `program`, started with
/// `argument` in the directory that holds the binary.
#[derive(Debug)]
pub struct SpawnRequest {
    pub program: String,
    pub argument: String,
}

/// The second step of a start: what to spawn, given the kernel binaries found
/// by the scan. Fails with [`CoreError::KernelNotFound`] exactly where the scan
/// selects no binary.
pub fn launch_request(candidates: &Vec<KernelBinaryCandidate>) -> (r: Result<SpawnRequest, CoreError>)
    ensures
        match r {
            Ok(request) => selected_index(versions_of(candidates@)) matches Some(i) && 0 <= i
                < candidates@.len() && request.program@ == candidates@[i].path@
                && request.argument@ == START_ARGUMENT@,
            Err(e) => e is KernelNotFound && selected_index(versions_of(candidates@)) is None,
        },
{
    match find_latest_kernel(candidates) {
        Some(path) => Ok(SpawnRequest { program: path, argument: String::from_str(START_ARGUMENT) }),
        None => Err(CoreError::KernelNotFound),
    }
}

/// The slot after a spawn: the new process where the spawn succeeded, the
/// slot as it was where it failed.
pub open spec fn process_after_spawn(
    before: Option<KernelProcess>,
    outcome: Result<KernelProcess, String>,
) -> Option<KernelProcess> {
    match outcome {
        Ok(process) => Some(process),
        Err(_) => before,
    }
}

/// The last step of a start: records the outcome of the spawn. A spawned
/// process is stored and the supervisor is running; the caller then starts the
/// readiness watcher without waiting for it. A failed spawn is an error and
/// leaves the supervisor as it was.
///
/// The slot is empty when this is called: the caller has seen
/// [`StartStep::FindKernel`] and has held the state since.
pub fn record_spawn(state: &mut CoreState, outcome: Result<KernelProcess, String>) -> (r: Result<
    (),
    CoreError,
>)
    requires
        old(state).process is None,
    ensures
        final(state).process == process_after_spawn(old(state).process, outcome),
        match outcome {
            Ok(_) => r is Ok && final(state).state() == SupervisorState::Running,
            Err(detail) => r matches Err(CoreError::SpawnFailed(text)) && text@ == detail@
                && final(state).state() == SupervisorState::NotRunning,
        },
{
    match outcome {
        Ok(process) => {
            state.process = Some(process);
            Ok(())
        },
        Err(detail) => Err(CoreError::SpawnFailed(detail)),
    }
}

/// What a look at the process tells, without waiting for it.
#[derive(Clone, Copy, Debug, PartialEq, Eq, Structural)]
pub enum ProcessStatus {
    /// The process has exited.
    Exited,
    /// The process is still running.
    StillRunning,
    /// The look failed.
    Unknown,
}

/// How a shutdown ends.
#[derive(Clone, Copy, Debug, PartialEq, Eq, Structural)]
pub enum Termination {
    /// No process was supervised.
    NothingToStop,
    /// The process had exited by itself; nothing is left to do.
    ExitedCleanly(KernelProcess),
    /// The process has to be killed.
    ForceKill(KernelProcess),
}

/// How a shutdown ends, given the content of the slot and what a look at the
/// process told.
pub open spec fn termination(process: Option<KernelProcess>, status: ProcessStatus) -> Termination {
    match process {
        None => Termination::NothingToStop,
        Some(p) => match status {
            ProcessStatus::Exited => Termination::ExitedCleanly(p),
            ProcessStatus::StillRunning => Termination::ForceKill(p),
            ProcessStatus::Unknown => Termination::ForceKill(p),
        },
    }
}

/// The slot after a shutdown: empty, whatever it held.
pub open spec fn process_after_shutdown(before: Option<KernelProcess>) -> Option<KernelProcess> {
    None
}

/// What a stop returns: it succeeds, and says how the shutdown ended.
pub open spec fn stop_outcome(process: Option<KernelProcess>, status: ProcessStatus) -> Result<
    Termination,
    CoreErrorModel,
> {
    Ok(termination(process, status))
}

/// The first part of a shutdown: the notification to send to the kernel and
/// the time to wait after it. Whatever comes of the request (an answer, a
/// failure, a timeout), the wait and the rest of the shutdown follow.
#[derive(Debug)]
pub struct ShutdownNotice {
    /// The address that takes the shutdown request.
    pub url: String,
    /// The timeout of the request, in milliseconds.
    pub timeout_ms: u64,
    /// The grace period after the request, in milliseconds.
    pub wait_ms: u64,
}

/// The notification that opens a shutdown, with the times that the
/// configuration sets for it.
pub fn shutdown_notice(config: &Config) -> (notice: ShutdownNotice)
    ensures
        notice.url@ == endpoint_text(config.api_url@, SHUTDOWN_PATH@),
        notice.timeout_ms == config.core_shutdown_http_timeout_ms,
        notice.wait_ms == config.core_shutdown_wait_ms,
{
    ShutdownNotice {
        url: shutdown_url(config.api_url.as_str()),
        timeout_ms: config.core_shutdown_http_timeout_ms,
        wait_ms: config.core_shutdown_wait_ms,
    }
}

/// The last part of a shutdown, after the notification and the grace period.
/// `status` is what a look at the supervised process told; it is not read
/// where no process is supervised. The slot is cleared whichever way the
/// shutdown ends.
pub fn shutdown_core_gracefully(state: &mut CoreState, status: ProcessStatus) -> (t: Termination)
    ensures
        t == termination(old(state).process, status),
        final(state).process == process_after_shutdown(old(state).process),
        final(state).state() == SupervisorState::NotRunning,
{
    match state.process.take() {
        None => Termination::NothingToStop,
        Some(process) => match status {
            ProcessStatus::Exited => Termination::ExitedCleanly(process),
            ProcessStatus::StillRunning => Termination::ForceKill(process),
            ProcessStatus::Unknown => Termination::ForceKill(process),
        },
    }
}

/// Stops the kernel on the user's request: a graceful shutdown that always
/// succeeds.
pub fn stop_core(state: &mut CoreState, status: ProcessStatus) -> (r: Result<Termination, CoreError>)
    ensures
        r matches Ok(t) && stop_outcome(old(state).process, status) == Ok::<
            Termination,
            CoreErrorModel,
        >(t),
        final(state).process == process_after_shutdown(old(state).process),
        final(state).state() == SupervisorState::NotRunning,
{
    Ok(shutdown_core_gracefully(state, status))
}

/// How many processes a run of starts spawns. `process` is the content of the
/// slot before the run; each entry of `attempts` stands for one start and holds
/// the process that its spawn would give, or nothing where no kernel would be
/// found or the spawn would fail.
pub open spec fn spawned(process: Option<KernelProcess>, attempts: Seq<Option<KernelProcess>>) -> nat
    decreases attempts.len(),
{
    if attempts.len() == 0 {
        0
    } else {
        match start_step(process) {
            StartStep::AlreadyRunning => spawned(process, attempts.drop_first()),
            StartStep::FindKernel => match attempts.first() {
                Some(p) => 1 + spawned(Some(p), attempts.drop_first()),
                None => spawned(None, attempts.drop_first()),
            },
        }
    }
}

/// While a process is supervised, no start spawns another.
pub proof fn law_running_supervisor_spawns_nothing(
    process: KernelProcess,
    attempts: Seq<Option<KernelProcess>>,
)
    ensures
        spawned(Some(process), attempts) == 0,
    decreases attempts.len(),
{
    if attempts.len() > 0 {
        law_running_supervisor_spawns_nothing(process, attempts.drop_first());
    }
}

/// Starts that follow one another without a stop spawn at most one process.
pub proof fn law_at_most_one_process(
    process: Option<KernelProcess>,
    attempts: Seq<Option<KernelProcess>>,
)
    ensures
        spawned(process, attempts) <= 1,
    decreases attempts.len(),
{
    if attempts.len() > 0 {
        match process {
            Some(p) => law_running_supervisor_spawns_nothing(p, attempts),
            None => match attempts.first() {
                Some(p) => law_running_supervisor_spawns_nothing(p, attempts.drop_first()),
                None => law_at_most_one_process(None, attempts.drop_first()),
            },
        }
    }
}

/// Two starts in a row, each of which could spawn, spawn exactly one process:
/// the second finds the supervisor running and does nothing.
pub proof fn law_start_twice_spawns_once(first: KernelProcess, second: KernelProcess)
    ensures
        start_step(process_after_spawn(None, Ok(first))) == StartStep::AlreadyRunning,
        spawned(None, seq![Some(first), Some(second)]) == 1,
{
    let attempts = seq![Some(first), Some(second)];
    law_running_supervisor_spawns_nothing(first, attempts.drop_first());
}

/// A shutdown never fails and leaves no process supervised, whatever the slot
/// held and whatever the look at the process told. A shutdown without a
/// supervised process, such as the second of two in a row, has nothing to
/// stop and leaves none supervised either.
pub proof fn law_shutdown_is_idempotent(
    process: Option<KernelProcess>,
    first: ProcessStatus,
    second: ProcessStatus,
)
    ensures
        stop_outcome(process, first) is Ok,
        state_of(process_after_shutdown(process)) == SupervisorState::NotRunning,
        stop_outcome(process_after_shutdown(process), second) == Ok::<Termination, CoreErrorModel>(
            Termination::NothingToStop,
        ),
        state_of(process_after_shutdown(process_after_shutdown(process)))
            == SupervisorState::NotRunning,
        stop_outcome(None, first) == Ok::<Termination, CoreErrorModel>(Termination::NothingToStop),
{
}

} // verus!
