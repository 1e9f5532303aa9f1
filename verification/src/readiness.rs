//! The readiness watcher: after a start, the kernel is probed until it
//! answers, and is then told once to load the startup page.
//!
//! The watcher is a state machine. The caller runs it apart from the start
//! that launched it: it performs the action that the watcher names and hands
//! back what came of it. Failures are the caller's to log; none is retried
//! beyond the bounded number of probes, and none reaches whoever asked for the
//! start.

use crate::config::Config;
use crate::endpoints::{endpoint_text, health_url, navigate_url, HEALTH_PATH, NAVIGATE_PATH};
use vstd::prelude::*;

verus! {

/// Where a watch stands.
#[derive(Clone, Copy, Debug, PartialEq, Eq, Structural)]
pub enum WatcherPhase {
    /// A probe is under way.
    Probing,
    /// The pause after a failed probe is under way.
    Waiting,
    /// The kernel has answered; the watch is over.
    Ready,
    /// Every probe has failed; the watch is over.
    TimedOut,
}

/// What comes back from the action that the watcher named last.
#[derive(Clone, Copy, Debug, PartialEq, Eq, Structural)]
pub enum ReadinessEvent {
    /// The probe got an answer, whatever it says.
    ProbeAnswered,
    /// The probe failed or ran into its timeout.
    ProbeFailed,
    /// The pause is over.
    WaitElapsed,
}

/// What the caller does next.
#[derive(Clone, Copy, Debug, PartialEq, Eq, Structural)]
pub enum ReadinessAction {
    /// Probe the health endpoint.
    Probe,
    /// Pause for so many milliseconds, the retry interval.
    Wait(u64),
    /// Tell the kernel to load the startup page. This is named once at most.
    Navigate,
    /// Report that the kernel did not get ready in time.
    ReportTimeout,
    /// Nothing: the event does not belong to where the watch stands.
    Nothing,
}

/// The model of a watch: the bound on the probes, the pause between two
/// probes in milliseconds, how many probes have failed, and where the watch
/// stands.
pub ghost struct WatchModel {
    pub max_retries: nat,
    pub retry_interval_ms: u64,
    pub failed: nat,
    pub phase: WatcherPhase,
}

/// A watch at its start, and the first action: a probe, or the report of a
/// timeout where not a single probe is allowed.
pub open spec fn watch_start(max_retries: nat, retry_interval_ms: u64) -> (
    WatchModel,
    ReadinessAction,
) {
    if max_retries == 0 {
        (
            WatchModel { max_retries, retry_interval_ms, failed: 0, phase: WatcherPhase::TimedOut },
            ReadinessAction::ReportTimeout,
        )
    } else {
        (
            WatchModel { max_retries, retry_interval_ms, failed: 0, phase: WatcherPhase::Probing },
            ReadinessAction::Probe,
        )
    }
}

/// One step of a watch: the watch after `event`, and the next action.
///
/// The first probe that is answered ends the watch with the order to
/// navigate. A failed probe is followed by a pause of the retry interval, and
/// the pause by the next probe, or by the report of a timeout once
/// `max_retries` probes have failed.
pub open spec fn watch_step(watch: WatchModel, event: ReadinessEvent) -> (WatchModel, ReadinessAction) {
    match (watch.phase, event) {
        (WatcherPhase::Probing, ReadinessEvent::ProbeAnswered) => (
            WatchModel { phase: WatcherPhase::Ready, ..watch },
            ReadinessAction::Navigate,
        ),
        (WatcherPhase::Probing, ReadinessEvent::ProbeFailed) => (
            WatchModel { phase: WatcherPhase::Waiting, failed: watch.failed + 1, ..watch },
            ReadinessAction::Wait(watch.retry_interval_ms),
        ),
        (WatcherPhase::Waiting, ReadinessEvent::WaitElapsed) => if watch.failed < watch.max_retries {
            (WatchModel { phase: WatcherPhase::Probing, ..watch }, ReadinessAction::Probe)
        } else {
            (WatchModel { phase: WatcherPhase::TimedOut, ..watch }, ReadinessAction::ReportTimeout)
        },
        _ => (watch, ReadinessAction::Nothing),
    }
}

/// The readiness watcher.
#[derive(Debug)]
pub struct ReadinessWatcher {
    max_retries: usize,
    retry_interval_ms: u64,
    failed: usize,
    phase: WatcherPhase,
}

impl View for ReadinessWatcher {
    type V = WatchModel;

    closed spec fn view(&self) -> WatchModel {
        WatchModel {
            max_retries: self.max_retries as nat,
            retry_interval_ms: self.retry_interval_ms,
            failed: self.failed as nat,
            phase: self.phase,
        }
    }
}

impl ReadinessWatcher {
    #[verifier::type_invariant]
    spec fn well_formed(self) -> bool {
        &&& self.failed <= self.max_retries
        &&& self.phase == WatcherPhase::Probing ==> self.failed < self.max_retries
    }

    /// Where the watch stands.
    pub fn phase(&self) -> (phase: WatcherPhase)
        ensures
            phase == self@.phase,
    {
        self.phase
    }

    /// How many probes have failed so far.
    pub fn failed_probes(&self) -> (failed: usize)
        ensures
            failed == self@.failed,
    {
        self.failed
    }

    /// Takes what came of the last action and names the next one; see
    /// [`watch_step`].
    pub fn on_event(&mut self, event: ReadinessEvent) -> (action: ReadinessAction)
        ensures
            (final(self)@, action) == watch_step(old(self)@, event),
    {
        proof {
            use_type_invariant(&*self);
        }
        match (self.phase, event) {
            (WatcherPhase::Probing, ReadinessEvent::ProbeAnswered) => {
                self.phase = WatcherPhase::Ready;
                ReadinessAction::Navigate
            },
            (WatcherPhase::Probing, ReadinessEvent::ProbeFailed) => {
                *self = ReadinessWatcher {
                    max_retries: self.max_retries,
                    retry_interval_ms: self.retry_interval_ms,
                    failed: self.failed + 1,
                    phase: WatcherPhase::Waiting,
                };
                ReadinessAction::Wait(self.retry_interval_ms)
            },
            (WatcherPhase::Waiting, ReadinessEvent::WaitElapsed) => {
                if self.failed < self.max_retries {
                    self.phase = WatcherPhase::Probing;
                    ReadinessAction::Probe
                } else {
                    self.phase = WatcherPhase::TimedOut;
                    ReadinessAction::ReportTimeout
                }
            },
            _ => ReadinessAction::Nothing,
        }
    }
}

/// Starts a watch with the retry count and the retry interval of the
/// configuration, and names its first action; see [`watch_start`].
pub fn wait_for_core_and_navigate(config: &Config) -> (r: (ReadinessWatcher, ReadinessAction))
    ensures
        (r.0@, r.1) == watch_start(
            config.core_ready_retry_count as nat,
            config.core_ready_retry_interval_ms,
        ),
{
    let max_retries = config.core_ready_retry_count;
    let retry_interval_ms = config.core_ready_retry_interval_ms;
    if max_retries == 0 {
        (
            ReadinessWatcher {
                max_retries,
                retry_interval_ms,
                failed: 0,
                phase: WatcherPhase::TimedOut,
            },
            ReadinessAction::ReportTimeout,
        )
    } else {
        (
            ReadinessWatcher {
                max_retries,
                retry_interval_ms,
                failed: 0,
                phase: WatcherPhase::Probing,
            },
            ReadinessAction::Probe,
        )
    }
}

/// One readiness probe: a request to `url` that is given up after
/// `timeout_ms` milliseconds.
#[derive(Debug)]
pub struct ProbeRequest {
    pub url: String,
    pub timeout_ms: u64,
}

/// The readiness probe for the configured kernel.
pub fn probe_request(config: &Config) -> (request: ProbeRequest)
    ensures
        request.url@ == endpoint_text(config.api_url@, HEALTH_PATH@),
        request.timeout_ms == config.core_ready_http_timeout_ms,
{
    ProbeRequest {
        url: health_url(config.api_url.as_str()),
        timeout_ms: config.core_ready_http_timeout_ms,
    }
}

/// The order to load a page: posted to `url`, it names the page `target`.
#[derive(Debug)]
pub struct NavigateRequest {
    pub url: String,
    pub target: String,
}

/// The order that follows readiness: the configured kernel is to load the
/// configured startup page.
pub fn navigate_request(config: &Config) -> (request: NavigateRequest)
    ensures
        request.url@ == endpoint_text(config.api_url@, NAVIGATE_PATH@),
        request.target@ == config.startup_url@,
{
    NavigateRequest {
        url: navigate_url(config.api_url.as_str()),
        target: config.startup_url.clone(),
    }
}

/// What a whole watch did.
pub ghost struct WatchSummary {
    /// How many probes were made.
    pub probes: nat,
    /// How many orders to navigate were given.
    pub navigations: nat,
    /// Whether the watch ended with the report of a timeout.
    pub timed_out: bool,
}

/// What a watch does from `watch` on, where probe number `i` from here on is
/// answered exactly if `answers[i]` holds; a probe beyond `answers` counts as
/// failed. A watch that is over does nothing more.
pub open spec fn watch_run(watch: WatchModel, answers: Seq<bool>) -> WatchSummary
    decreases watch.max_retries - watch.failed, (if watch.phase == WatcherPhase::Waiting {
        1nat
    } else {
        0nat
    }),
{
    match watch.phase {
        WatcherPhase::Ready => WatchSummary { probes: 0, navigations: 0, timed_out: false },
        WatcherPhase::TimedOut => WatchSummary { probes: 0, navigations: 0, timed_out: false },
        WatcherPhase::Waiting => {
            let (next, action) = watch_step(watch, ReadinessEvent::WaitElapsed);
            if action == ReadinessAction::ReportTimeout {
                WatchSummary { probes: 0, navigations: 0, timed_out: true }
            } else {
                watch_run(next, answers)
            }
        },
        WatcherPhase::Probing => {
            if watch.failed >= watch.max_retries {
                WatchSummary { probes: 0, navigations: 0, timed_out: false }
            } else if answers.len() > 0 && answers.first() {
                let (next, action) = watch_step(watch, ReadinessEvent::ProbeAnswered);
                WatchSummary {
                    probes: 1,
                    navigations: if action == ReadinessAction::Navigate {
                        1
                    } else {
                        0
                    },
                    timed_out: false,
                }
            } else {
                let (next, action) = watch_step(watch, ReadinessEvent::ProbeFailed);
                let rest = watch_run(
                    next,
                    if answers.len() > 0 {
                        answers.drop_first()
                    } else {
                        answers
                    },
                );
                WatchSummary { probes: 1 + rest.probes, ..rest }
            }
        },
    }
}

/// What a watch that allows `max_retries` probes does from its start.
pub open spec fn watch_from_start(
    max_retries: nat,
    retry_interval_ms: u64,
    answers: Seq<bool>,
) -> WatchSummary {
    let (watch, action) = watch_start(max_retries, retry_interval_ms);
    if action == ReadinessAction::ReportTimeout {
        WatchSummary { probes: 0, navigations: 0, timed_out: true }
    } else {
        watch_run(watch, answers)
    }
}

proof fn lemma_run_until_answer(watch: WatchModel, answers: Seq<bool>, k: int)
    requires
        watch.phase == WatcherPhase::Probing,
        0 <= k < answers.len(),
        watch.failed + k < watch.max_retries,
        answers[k],
        forall|i: int| 0 <= i < k ==> !answers[i],
    ensures
        watch_run(watch, answers) == (WatchSummary {
            probes: (k + 1) as nat,
            navigations: 1,
            timed_out: false,
        }),
    decreases k,
{
    if k > 0 {
        let (waiting, _) = watch_step(watch, ReadinessEvent::ProbeFailed);
        let (next, _) = watch_step(waiting, ReadinessEvent::WaitElapsed);
        let rest = answers.drop_first();
        assert(rest[k - 1] == answers[k]);
        assert forall|i: int| 0 <= i < k - 1 implies !rest[i] by {
            assert(rest[i] == answers[i + 1]);
        }
        assert(!answers[0]);
        lemma_run_until_answer(next, rest, k - 1);
        assert(watch_run(waiting, rest) == watch_run(next, rest));
    }
}

proof fn lemma_run_without_answer(watch: WatchModel, answers: Seq<bool>)
    requires
        watch.phase == WatcherPhase::Probing,
        watch.failed < watch.max_retries,
        forall|i: int| 0 <= i < answers.len() && i < watch.max_retries - watch.failed ==> !answers[i],
    ensures
        watch_run(watch, answers) == (WatchSummary {
            probes: (watch.max_retries - watch.failed) as nat,
            navigations: 0,
            timed_out: true,
        }),
    decreases watch.max_retries - watch.failed,
{
    let (waiting, _) = watch_step(watch, ReadinessEvent::ProbeFailed);
    let (next, action) = watch_step(waiting, ReadinessEvent::WaitElapsed);
    let rest = if answers.len() > 0 {
        answers.drop_first()
    } else {
        answers
    };
    if answers.len() > 0 {
        assert(!answers[0]);
    }
    if waiting.failed < waiting.max_retries {
        assert forall|i: int|
            0 <= i < rest.len() && i < next.max_retries - next.failed implies !rest[i] by {
            if answers.len() > 0 {
                assert(rest[i] == answers[i + 1]);
            }
        }
        lemma_run_without_answer(next, rest);
        assert(watch_run(waiting, rest) == watch_run(next, rest));
    } else {
        assert(watch_run(waiting, rest) == (WatchSummary {
            probes: 0,
            navigations: 0,
            timed_out: true,
        }));
    }
    assert(watch_run(watch, answers) == (WatchSummary {
        probes: 1 + watch_run(waiting, rest).probes,
        ..watch_run(waiting, rest)
    }));
}

/// The first probe that is answered, if it is among the `max_retries` allowed,
/// ends the watch: that many probes are made and no more, and the order to
/// navigate is given exactly once.
pub proof fn law_first_answer_navigates_once(
    max_retries: nat,
    retry_interval_ms: u64,
    answers: Seq<bool>,
    k: int,
)
    requires
        0 <= k < answers.len(),
        k < max_retries,
        answers[k],
        forall|i: int| 0 <= i < k ==> !answers[i],
    ensures
        watch_from_start(max_retries, retry_interval_ms, answers) == (WatchSummary {
            probes: (k + 1) as nat,
            navigations: 1,
            timed_out: false,
        }),
{
    lemma_run_until_answer(watch_start(max_retries, retry_interval_ms).0, answers, k);
}

/// Where none of the `max_retries` probes is answered, exactly that many
/// probes are made, no order to navigate is given and the watch ends with the
/// report of a timeout.
pub proof fn law_unanswered_probes_time_out(
    max_retries: nat,
    retry_interval_ms: u64,
    answers: Seq<bool>,
)
    requires
        forall|i: int| 0 <= i < answers.len() && i < max_retries ==> !answers[i],
    ensures
        watch_from_start(max_retries, retry_interval_ms, answers) == (WatchSummary {
            probes: max_retries,
            navigations: 0,
            timed_out: true,
        }),
{
    if max_retries > 0 {
        lemma_run_without_answer(watch_start(max_retries, retry_interval_ms).0, answers);
    }
}

} // verus!
