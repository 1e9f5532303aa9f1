use kernel_supervisor::config::{Config, RawConfig};
use kernel_supervisor::readiness::{
    navigate_request, probe_request, wait_for_core_and_navigate, ReadinessAction, ReadinessEvent,
    ReadinessWatcher, WatcherPhase,
};

fn watch(max_retries: usize) -> (ReadinessWatcher, ReadinessAction) {
    let mut config = Config::resolve(RawConfig::empty());
    config.core_ready_retry_count = max_retries;
    wait_for_core_and_navigate(&config)
}

/// Runs a whole watch in which probe number `i` is answered exactly if
/// `answers[i]` holds, and counts what it did.
fn run(max_retries: usize, answers: &[bool]) -> (usize, usize, usize, bool) {
    let (mut watcher, mut action) = watch(max_retries);
    let (mut probes, mut waits, mut navigations, mut timed_out) = (0, 0, 0, false);
    loop {
        match action {
            ReadinessAction::Probe => {
                let answered = answers.get(probes).copied().unwrap_or(false);
                probes += 1;
                action = watcher.on_event(if answered {
                    ReadinessEvent::ProbeAnswered
                } else {
                    ReadinessEvent::ProbeFailed
                });
            }
            ReadinessAction::Wait(ms) => {
                assert_eq!(ms, 2000);
                waits += 1;
                action = watcher.on_event(ReadinessEvent::WaitElapsed);
            }
            ReadinessAction::Navigate => {
                navigations += 1;
                assert_eq!(watcher.phase(), WatcherPhase::Ready);
                break;
            }
            ReadinessAction::ReportTimeout => {
                timed_out = true;
                assert_eq!(watcher.phase(), WatcherPhase::TimedOut);
                break;
            }
            ReadinessAction::Nothing => panic!("the watch ran into an event out of turn"),
        }
    }
    (probes, waits, navigations, timed_out)
}

#[test]
fn first_answer_ends_the_watch_with_one_navigation() {
    assert_eq!(run(30, &[true]), (1, 0, 1, false));
    assert_eq!(run(30, &[false, false, true, true]), (3, 2, 1, false));
}

#[test]
fn answer_on_the_last_allowed_probe_still_counts() {
    assert_eq!(run(3, &[false, false, true]), (3, 2, 1, false));
}

#[test]
fn unanswered_probes_time_out_after_the_retry_count() {
    assert_eq!(run(30, &[]), (30, 30, 0, true));
    assert_eq!(run(3, &[false, false, false, true]), (3, 3, 0, true));
}

#[test]
fn watch_without_probes_times_out_at_once() {
    let (watcher, action) = watch(0);
    assert_eq!(action, ReadinessAction::ReportTimeout);
    assert_eq!(watcher.phase(), WatcherPhase::TimedOut);
}

#[test]
fn finished_watch_ignores_further_events() {
    let (mut watcher, _) = watch(2);
    assert_eq!(watcher.on_event(ReadinessEvent::ProbeAnswered), ReadinessAction::Navigate);
    assert_eq!(watcher.on_event(ReadinessEvent::ProbeAnswered), ReadinessAction::Nothing);
    assert_eq!(watcher.on_event(ReadinessEvent::ProbeFailed), ReadinessAction::Nothing);
    assert_eq!(watcher.on_event(ReadinessEvent::WaitElapsed), ReadinessAction::Nothing);
    assert_eq!(watcher.phase(), WatcherPhase::Ready);
    assert_eq!(watcher.failed_probes(), 0);
}

#[test]
fn event_out_of_turn_changes_nothing() {
    let (mut watcher, action) = watch(2);
    assert_eq!(action, ReadinessAction::Probe);
    assert_eq!(watcher.on_event(ReadinessEvent::WaitElapsed), ReadinessAction::Nothing);
    assert_eq!(watcher.phase(), WatcherPhase::Probing);
    assert_eq!(watcher.on_event(ReadinessEvent::ProbeFailed), ReadinessAction::Wait(2000));
    assert_eq!(watcher.on_event(ReadinessEvent::ProbeAnswered), ReadinessAction::Nothing);
    assert_eq!(watcher.phase(), WatcherPhase::Waiting);
    assert_eq!(watcher.failed_probes(), 1);
}

#[test]
fn probe_and_navigate_requests_name_their_endpoints() {
    let config = Config::resolve(RawConfig::empty());
    let probe = probe_request(&config);
    assert_eq!(probe.url, "http://127.0.0.1:8000/docs");
    assert_eq!(probe.timeout_ms, 2000);
    let order = navigate_request(&config);
    assert_eq!(order.url, "http://127.0.0.1:8000/api/v1/browser/navigate");
    assert_eq!(order.target, "https://www.xiaohongshu.com");

    let mut raw = RawConfig::empty();
    raw.api_url = Some("http://kernel:9000//".to_string());
    raw.startup_url = Some("https://example.org/start".to_string());
    raw.core_ready_http_timeout_ms = Some("150".to_string());
    raw.core_ready_retry_interval_ms = Some("25".to_string());
    let config = Config::resolve(raw);
    assert_eq!(probe_request(&config).url, "http://kernel:9000/docs");
    assert_eq!(probe_request(&config).timeout_ms, 150);
    let (mut watcher, _) = wait_for_core_and_navigate(&config);
    assert_eq!(watcher.on_event(ReadinessEvent::ProbeFailed), ReadinessAction::Wait(25));
    assert_eq!(navigate_request(&config).url, "http://kernel:9000/api/v1/browser/navigate");
    assert_eq!(navigate_request(&config).target, "https://example.org/start");
}

#[test]
fn default_watch_allows_thirty_probes() {
    let (mut watcher, mut action) = wait_for_core_and_navigate(&Config::resolve(RawConfig::empty()));
    let mut probes = 0;
    while action != ReadinessAction::ReportTimeout {
        action = match action {
            ReadinessAction::Probe => {
                probes += 1;
                watcher.on_event(ReadinessEvent::ProbeFailed)
            }
            ReadinessAction::Wait(_) => watcher.on_event(ReadinessEvent::WaitElapsed),
            other => panic!("unexpected action {:?}", other),
        };
    }
    assert_eq!(probes, 30);
    assert_eq!(watcher.failed_probes(), 30);
}
