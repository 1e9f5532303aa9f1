//! The position sync: the companion window follows the primary window.
//!
//! Every move or resize of the primary window schedules a sync for a little
//! later and cancels the sync that was scheduled before, so that a burst of
//! events ends in one sync. The [`Debouncer`] keeps the one task that is
//! scheduled; timers, window queries and the HTTP call are the caller's
//! business.

use crate::config::Config;
use crate::endpoints::{endpoint_text, position_url, POSITION_PATH};
use vstd::prelude::*;

verus! {

/// A scheduled sync: when it is to fire, and the token by which it is
/// cancelled and recognised.
#[derive(Clone, Copy, Debug, PartialEq, Eq, Structural)]
pub struct DebounceTask {
    pub scheduled_fire_time: u64,
    pub cancellation_token: u64,
}

/// What happened to the primary window.
#[derive(Clone, Copy, Debug, PartialEq, Eq, Structural)]
pub enum WindowEvent {
    Moved,
    Resized,
    /// Any other event; it schedules nothing.
    Other,
}

/// What the caller does on a move or a resize: cancel `cancel`, if there is
/// one, so that it never runs, and start a timer for `schedule`.
#[derive(Clone, Copy, Debug, PartialEq, Eq, Structural)]
pub struct Reschedule {
    pub cancel: Option<DebounceTask>,
    pub schedule: DebounceTask,
}

/// The model of a debouncer: the task that is scheduled, if any, and how many
/// tasks have been scheduled so far.
pub ghost struct DebouncerModel {
    pub handle: Option<DebounceTask>,
    pub issued: nat,
}

/// Whether an event schedules a sync.
pub open spec fn triggers_sync(event: WindowEvent) -> bool {
    event == WindowEvent::Moved || event == WindowEvent::Resized
}

/// The task that an event at `now_ms` schedules on `d`.
pub open spec fn next_task(d: DebouncerModel, now_ms: u64, debounce_ms: u64) -> DebounceTask {
    DebounceTask {
        scheduled_fire_time: (now_ms + debounce_ms) as u64,
        cancellation_token: d.issued as u64,
    }
}

/// The debouncer after an event, and what the caller is to do. A move or a
/// resize replaces the scheduled task by a new one, which fires `debounce_ms`
/// after `now_ms`; the task replaced is handed out to be cancelled. Any other
/// event changes nothing.
pub open spec fn after_event(d: DebouncerModel, event: WindowEvent, now_ms: u64, debounce_ms: u64) -> (
    DebouncerModel,
    Option<Reschedule>,
) {
    if triggers_sync(event) {
        let task = next_task(d, now_ms, debounce_ms);
        (
            DebouncerModel { handle: Some(task), issued: d.issued + 1 },
            Some(Reschedule { cancel: d.handle, schedule: task }),
        )
    } else {
        (d, None)
    }
}

/// The debouncer after the timer of the task with `token` has run down, and
/// whether the sync is to run: it runs exactly if that task is the one
/// scheduled, and then no task is scheduled any more.
pub open spec fn after_timer(d: DebouncerModel, token: u64) -> (DebouncerModel, bool) {
    if d.handle is Some && d.handle->0.cancellation_token == token {
        (DebouncerModel { handle: None, ..d }, true)
    } else {
        (d, false)
    }
}

/// The debouncer of one monitored window.
#[derive(Debug)]
pub struct Debouncer {
    handle: Option<DebounceTask>,
    issued: u64,
}

impl View for Debouncer {
    type V = DebouncerModel;

    closed spec fn view(&self) -> DebouncerModel {
        DebouncerModel { handle: self.handle, issued: self.issued as nat }
    }
}

/// A debouncer with nothing scheduled.
pub fn init() -> (d: Debouncer)
    ensures
        d@ == (DebouncerModel { handle: None, issued: 0 }),
{
    Debouncer { handle: None, issued: 0 }
}

impl Debouncer {
    /// The task that is scheduled, if any.
    pub fn pending(&self) -> (task: Option<DebounceTask>)
        ensures
            task == self@.handle,
    {
        self.handle
    }

    /// How many tasks have been scheduled so far.
    pub fn issued(&self) -> (n: u64)
        ensures
            n == self@.issued,
    {
        self.issued
    }

    /// Takes an event of the primary window at the time `now_ms`, in
    /// milliseconds; see [`after_event`]. The debounce interval is the
    /// configured one. The fire time and the count of tasks have to fit a
    /// `u64`.
    pub fn on_window_event(&mut self, event: WindowEvent, now_ms: u64, config: &Config) -> (r:
        Option<Reschedule>)
        requires
            triggers_sync(event) ==> now_ms + config.debounce_ms <= u64::MAX && old(self)@.issued
                < u64::MAX,
        ensures
            (final(self)@, r) == after_event(old(self)@, event, now_ms, config.debounce_ms),
    {
        match event {
            WindowEvent::Moved | WindowEvent::Resized => {
                let task = DebounceTask {
                    scheduled_fire_time: now_ms + config.debounce_ms,
                    cancellation_token: self.issued,
                };
                let cancel = self.handle;
                self.handle = Some(task);
                self.issued = self.issued + 1;
                Some(Reschedule { cancel, schedule: task })
            },
            WindowEvent::Other => None,
        }
    }

    /// Takes the end of the timer of the task with `token` and says whether
    /// the sync is to run; see [`after_timer`].
    pub fn on_timer(&mut self, token: u64) -> (run: bool)
        ensures
            (final(self)@, run) == after_timer(old(self)@, token),
    {
        match self.handle {
            Some(task) => {
                if task.cancellation_token == token {
                    self.handle = None;
                    true
                } else {
                    false
                }
            },
            None => false,
        }
    }
}

/// A position in logical pixels.
#[derive(Clone, Copy, Debug, PartialEq, Eq, Structural)]
pub struct LogicalPosition {
    pub x: i32,
    pub y: i32,
}

/// A size in logical pixels.
#[derive(Clone, Copy, Debug, PartialEq, Eq, Structural)]
pub struct LogicalSize {
    pub width: i32,
    pub height: i32,
}

/// The geometry that is pushed to the kernel for the companion window.
#[derive(Debug)]
pub struct BrowserPositionSchema {
    pub left: i32,
    pub top: i32,
    pub width: i32,
    pub height: i32,
    pub window_state: String,
}

/// The window state that is reported with every geometry.
pub const WINDOW_STATE_NORMAL: &'static str = "normal";

/// One position sync: `payload` is posted to `url`.
#[derive(Debug)]
pub struct PositionSync {
    pub url: String,
    pub payload: BrowserPositionSchema,
}

/// Whether a companion window of width `browser_width` can stand to the left
/// of a window at `position`: its left edge has to fit an `i32`.
pub open spec fn fits_left_of(position: LogicalPosition, browser_width: i32) -> bool {
    i32::MIN <= position.x - browser_width <= i32::MAX
}

/// The sync that a fired task performs. `position` and `size` are the outer
/// position and size of the primary window in logical pixels, or none where
/// the window did not tell them; without both there is no sync.
///
/// The companion window stands to the left of the primary window: its right
/// edge on the primary's left edge, its top and height those of the primary,
/// its width the configured one. It is not kept inside any monitor.
pub fn sync_browser_position(
    position: Option<LogicalPosition>,
    size: Option<LogicalSize>,
    config: &Config,
) -> (sync: Option<PositionSync>)
    requires
        position is Some && size is Some ==> fits_left_of(position->0, config.browser_width),
    ensures
        position is None || size is None ==> sync is None,
        position is Some && size is Some ==> sync is Some && ({
            let payload = sync->0.payload;
            &&& sync->0.url@ == endpoint_text(config.api_url@, POSITION_PATH@)
            &&& payload.left == position->0.x - config.browser_width
            &&& payload.top == position->0.y
            &&& payload.width == config.browser_width
            &&& payload.height == size->0.height
            &&& payload.window_state@ == WINDOW_STATE_NORMAL@
        }),
{
    let pos = match position {
        Some(p) => p,
        None => {
            return None;
        },
    };
    let size = match size {
        Some(s) => s,
        None => {
            return None;
        },
    };
    let payload = BrowserPositionSchema {
        left: pos.x - config.browser_width,
        top: pos.y,
        width: config.browser_width,
        height: size.height,
        window_state: String::from_str(WINDOW_STATE_NORMAL),
    };
    Some(PositionSync { url: position_url(config.api_url.as_str()), payload })
}

/// The debouncer after a burst: moves of the primary window at the times
/// `times`, one after the other, with no timer running down in between.
pub open spec fn after_burst(d: DebouncerModel, times: Seq<u64>, debounce_ms: u64) -> DebouncerModel
    decreases times.len(),
{
    if times.len() == 0 {
        d
    } else {
        after_event(
            after_burst(d, times.drop_last(), debounce_ms),
            WindowEvent::Moved,
            times.last(),
            debounce_ms,
        ).0
    }
}

/// How many syncs run when the timers of the tasks with `tokens` run down on
/// `d`, one after the other.
pub open spec fn syncs_run(d: DebouncerModel, tokens: Seq<u64>) -> nat
    decreases tokens.len(),
{
    if tokens.len() == 0 {
        0
    } else {
        let (next, run) = after_timer(d, tokens.first());
        (if run {
            1nat
        } else {
            0nat
        }) + syncs_run(next, tokens.drop_first())
    }
}

/// A burst adds one task per event.
pub proof fn lemma_burst_counts(d: DebouncerModel, times: Seq<u64>, debounce_ms: u64)
    ensures
        after_burst(d, times, debounce_ms).issued == d.issued + times.len(),
    decreases times.len(),
{
    if times.len() > 0 {
        lemma_burst_counts(d, times.drop_last(), debounce_ms);
    }
}

/// With nothing scheduled, no timer makes a sync run.
pub proof fn lemma_idle_debouncer_runs_nothing(d: DebouncerModel, tokens: Seq<u64>)
    requires
        d.handle is None,
    ensures
        syncs_run(d, tokens) == 0,
    decreases tokens.len(),
{
    if tokens.len() > 0 {
        lemma_idle_debouncer_runs_nothing(d, tokens.drop_first());
    }
}

/// However many timers run down and in whatever order, the scheduled task
/// runs once if its timer is among them, and nothing else runs.
pub proof fn lemma_only_scheduled_task_runs(d: DebouncerModel, tokens: Seq<u64>)
    requires
        d.handle is Some,
    ensures
        syncs_run(d, tokens) == (if tokens.contains(d.handle->0.cancellation_token) {
            1nat
        } else {
            0nat
        }),
    decreases tokens.len(),
{
    let token = d.handle->0.cancellation_token;
    if tokens.len() > 0 {
        let rest = tokens.drop_first();
        let (next, run) = after_timer(d, tokens.first());
        if run {
            lemma_idle_debouncer_runs_nothing(next, rest);
            assert(tokens[0] == token);
        } else {
            lemma_only_scheduled_task_runs(d, rest);
            if rest.contains(token) {
                let i = choose|i: int| 0 <= i < rest.len() && rest[i] == token;
                assert(tokens[i + 1] == token);
            }
            if tokens.contains(token) {
                let i = choose|i: int| 0 <= i < tokens.len() && tokens[i] == token;
                assert(rest[i - 1] == token);
            }
        }
    }
}

/// After a burst the one task scheduled is that of the last move.
pub proof fn lemma_burst_schedules_last(d: DebouncerModel, times: Seq<u64>, debounce_ms: u64)
    requires
        times.len() > 0,
    ensures
        after_burst(d, times, debounce_ms).handle == Some(
            DebounceTask {
                scheduled_fire_time: (times.last() + debounce_ms) as u64,
                cancellation_token: (d.issued + times.len() - 1) as u64,
            },
        ),
{
    lemma_burst_counts(d, times.drop_last(), debounce_ms);
}

/// A burst of moves, each less than the debounce interval after the one
/// before, ends in exactly one sync, that of the last move.
///
/// The task of move `i` is the one with the token `d.issued + i`. After the
/// burst the one task scheduled is that of the last move. The task of every
/// earlier move is replaced before its fire time, and from then on the end of
/// its timer changes nothing and runs nothing, at whatever point of the burst
/// it comes. When the timers run down after the burst, in whatever order and
/// however often, exactly one sync runs if the timer of the last task is among
/// them.
pub proof fn law_burst_ends_in_one_sync(
    d: DebouncerModel,
    times: Seq<u64>,
    debounce_ms: u64,
    timers: Seq<u64>,
)
    requires
        times.len() > 0,
        d.issued + times.len() <= u64::MAX,
        forall|i: int| 0 <= i < times.len() ==> #[trigger] times[i] + debounce_ms <= u64::MAX,
        forall|i: int|
            0 <= i < times.len() - 1 ==> times[i] <= #[trigger] times[i + 1] < times[i]
                + debounce_ms,
        timers.contains((d.issued + times.len() - 1) as u64),
    ensures
        after_burst(d, times, debounce_ms).handle == Some(
            DebounceTask {
                scheduled_fire_time: (times.last() + debounce_ms) as u64,
                cancellation_token: (d.issued + times.len() - 1) as u64,
            },
        ),
        forall|i: int|
            0 <= i < times.len() - 1 ==> (#[trigger] next_task(
                after_burst(d, times.take(i), debounce_ms),
                times[i],
                debounce_ms,
            )).scheduled_fire_time > times[i + 1],
        forall|i: int, seen: int|
            0 <= i && i + 2 <= seen <= times.len() ==> #[trigger] after_timer(
                after_burst(d, times.take(seen), debounce_ms),
                (d.issued + i) as u64,
            ) == (after_burst(d, times.take(seen), debounce_ms), false),
        syncs_run(after_burst(d, times, debounce_ms), timers) == 1,
{
    lemma_burst_schedules_last(d, times, debounce_ms);
    assert forall|i: int, seen: int|
        0 <= i && i + 2 <= seen <= times.len() implies #[trigger] after_timer(
        after_burst(d, times.take(seen), debounce_ms),
        (d.issued + i) as u64,
    ) == (after_burst(d, times.take(seen), debounce_ms), false) by {
        lemma_burst_schedules_last(d, times.take(seen), debounce_ms);
    }
    lemma_only_scheduled_task_runs(after_burst(d, times, debounce_ms), timers);
}

} // verus!
