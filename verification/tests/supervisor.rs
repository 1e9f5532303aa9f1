use kernel_supervisor::config::{Config, RawConfig};
use kernel_supervisor::core_manager::{
    launch_request, record_spawn, shutdown_core_gracefully, shutdown_notice, start_core, stop_core,
    CoreError, CoreState, KernelProcess, ProcessStatus, StartStep, SupervisorState, Termination,
};
use kernel_supervisor::scanner::KernelBinaryCandidate;
use kernel_supervisor::version::KernelVersion;

fn one_candidate() -> Vec<KernelBinaryCandidate> {
    vec![KernelBinaryCandidate {
        path: "/data/core/1.2.0/yuHai.exe".to_string(),
        parsed_version: Some(KernelVersion::new(1, 2, 0)),
    }]
}

/// Runs one start against an environment in which every spawn succeeds, and
/// says how many processes it spawned.
fn start_once(state: &mut CoreState, next_pid: u32) -> Result<u32, CoreError> {
    match start_core(state) {
        StartStep::AlreadyRunning => Ok(0),
        StartStep::FindKernel => {
            let request = launch_request(&one_candidate())?;
            assert_eq!(request.program, "/data/core/1.2.0/yuHai.exe");
            assert_eq!(request.argument, "start");
            record_spawn(state, Ok(KernelProcess { pid: next_pid }))?;
            Ok(1)
        }
    }
}

#[test]
fn new_state_is_not_running() {
    let state = CoreState::new();
    assert!(state.process.is_none());
    assert_eq!(state.supervisor_state(), SupervisorState::NotRunning);
}

#[test]
fn start_twice_spawns_one_process() {
    let mut state = CoreState::new();
    let first = start_once(&mut state, 41).unwrap();
    let second = start_once(&mut state, 42).unwrap();
    assert_eq!(first + second, 1);
    assert_eq!(state.process, Some(KernelProcess { pid: 41 }));
    assert_eq!(state.supervisor_state(), SupervisorState::Running);
}

#[test]
fn start_after_stop_spawns_again() {
    let mut state = CoreState::new();
    assert_eq!(start_once(&mut state, 1).unwrap(), 1);
    stop_core(&mut state, ProcessStatus::Exited).unwrap();
    assert_eq!(start_once(&mut state, 2).unwrap(), 1);
    assert_eq!(state.process, Some(KernelProcess { pid: 2 }));
}

#[test]
fn start_without_kernel_is_a_discovery_error() {
    let state = CoreState::new();
    assert_eq!(start_core(&state), StartStep::FindKernel);
    let err = launch_request(&Vec::new()).unwrap_err();
    assert!(matches!(err, CoreError::KernelNotFound));
    assert_eq!(err.message(), "Kernel executable not found");
    assert_eq!(state.supervisor_state(), SupervisorState::NotRunning);
}

#[test]
fn failed_spawn_is_an_error_and_leaves_not_running() {
    let mut state = CoreState::new();
    let err = record_spawn(&mut state, Err("permission denied".to_string())).unwrap_err();
    assert!(matches!(&err, CoreError::SpawnFailed(detail) if detail == "permission denied"));
    assert_eq!(err.message(), "Failed to start kernel: permission denied");
    assert!(state.process.is_none());
    assert_eq!(start_core(&state), StartStep::FindKernel);
}

#[test]
fn stop_without_process_is_a_no_op() {
    let mut state = CoreState::new();
    assert_eq!(stop_core(&mut state, ProcessStatus::Unknown).unwrap(), Termination::NothingToStop);
    assert_eq!(state.supervisor_state(), SupervisorState::NotRunning);
    assert_eq!(
        shutdown_core_gracefully(&mut state, ProcessStatus::StillRunning),
        Termination::NothingToStop
    );
    assert!(state.process.is_none());
}

#[test]
fn stop_twice_never_errors() {
    let mut state = CoreState::new();
    record_spawn(&mut state, Ok(KernelProcess { pid: 7 })).unwrap();
    assert_eq!(
        stop_core(&mut state, ProcessStatus::StillRunning).unwrap(),
        Termination::ForceKill(KernelProcess { pid: 7 })
    );
    assert_eq!(state.supervisor_state(), SupervisorState::NotRunning);
    assert_eq!(
        stop_core(&mut state, ProcessStatus::StillRunning).unwrap(),
        Termination::NothingToStop
    );
    assert_eq!(state.supervisor_state(), SupervisorState::NotRunning);
}

#[test]
fn exited_process_is_not_killed() {
    let mut state = CoreState::new();
    record_spawn(&mut state, Ok(KernelProcess { pid: 9 })).unwrap();
    assert_eq!(
        shutdown_core_gracefully(&mut state, ProcessStatus::Exited),
        Termination::ExitedCleanly(KernelProcess { pid: 9 })
    );
    assert!(state.process.is_none());
}

#[test]
fn process_of_unknown_status_is_killed() {
    let mut state = CoreState::new();
    record_spawn(&mut state, Ok(KernelProcess { pid: 3 })).unwrap();
    assert_eq!(
        shutdown_core_gracefully(&mut state, ProcessStatus::Unknown),
        Termination::ForceKill(KernelProcess { pid: 3 })
    );
    assert!(state.process.is_none());
}

#[test]
fn shutdown_notice_names_endpoint_and_times() {
    let notice = shutdown_notice(&Config::resolve(RawConfig::empty()));
    assert_eq!(notice.url, "http://127.0.0.1:8000/api/v1/system/shutdown");
    assert_eq!(notice.timeout_ms, 2000);
    assert_eq!(notice.wait_ms, 500);

    let mut raw = RawConfig::empty();
    raw.api_url = Some("http://kernel:9000/".to_string());
    raw.core_shutdown_http_timeout_ms = Some("750".to_string());
    raw.core_shutdown_wait_ms = Some("20".to_string());
    let notice = shutdown_notice(&Config::resolve(raw));
    assert_eq!(notice.url, "http://kernel:9000/api/v1/system/shutdown");
    assert_eq!(notice.timeout_ms, 750);
    assert_eq!(notice.wait_ms, 20);
}
