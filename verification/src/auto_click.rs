//! Settings and run state of the automatic clicker, and the decision taken on
//! each round of its background loop.

use vstd::prelude::*;

use crate::geometry::Point;
use crate::text::{append_decimal, decimal};

verus! {

/// Safety cap on the number of automatic clicks in one run.
pub const MAX_CAPTURE_COUNT: u32 = 999;

/// Default pause between two automatic clicks, in milliseconds.
pub const DEFAULT_INTERVAL_MS: u64 = 1000;

/// The settings and run state of the automatic clicker.
///
/// The background work itself (sleeping, sending clicks) is done by the caller; this type
/// records what the clicker was asked to do and whether a run is under way.
#[derive(Debug)]
pub struct AutoClicker {
    /// Whether automatic clicking is switched on in the dialog.
    pub enabled: bool,
    /// Pause between two clicks, in milliseconds.
    pub interval_ms: u64,
    /// Number of clicks performed in the current run, as last reported.
    pub progress_count: u32,
    /// Number of clicks asked for.
    pub max_count: u32,
    /// Whether a run has been started and not stopped.
    pub running: bool,
}

/// What a started run has to do: where to click, how often, and how many times.
#[derive(Clone, Copy, Debug, PartialEq, Eq, Structural)]
pub struct AutoClickJob {
    pub position: Point,
    pub interval_ms: u64,
    pub max_count: u32,
}

/// What the background loop does after a pause.
#[derive(Clone, Copy, Debug, PartialEq, Eq, Structural)]
pub enum ClickStep {
    /// A stop was requested, or the requested number of clicks is done: end the run.
    Finish,
    /// The safety cap is reached: warn the user and end the run.
    LimitReached,
    /// Click once more; the run then counts `progress` clicks.
    Click { progress: u32 },
}

impl AutoClicker {
    /// The clicker after `start` succeeded.
    pub open spec fn spec_started(self) -> AutoClicker {
        AutoClicker { running: true, progress_count: 0, ..self }
    }

    /// A clicker that is switched off, idle, with a one-second interval and no count.
    pub fn new() -> (r: AutoClicker)
        ensures
            r == (AutoClicker {
                enabled: false,
                interval_ms: DEFAULT_INTERVAL_MS,
                progress_count: 0,
                max_count: 0,
                running: false,
            }),
    {
        AutoClicker {
            enabled: false,
            interval_ms: DEFAULT_INTERVAL_MS,
            progress_count: 0,
            max_count: 0,
            running: false,
        }
    }

    /// Whether automatic clicking is switched on.
    pub fn is_enabled(&self) -> (r: bool)
        ensures
            r == self.enabled,
    {
        self.enabled
    }

    /// Switches automatic clicking on or off.
    pub fn set_enabled(&mut self, enabled: bool)
        ensures
            *final(self) == (AutoClicker { enabled, ..*old(self) }),
    {
        self.enabled = enabled;
    }

    /// Whether a run is under way: set by `start`, cleared by `stop` and, when the run ends
    /// by itself, by `AppState::on_auto_click_complete`.
    pub fn is_running(&self) -> (r: bool)
        ensures
            r == self.running,
    {
        self.running
    }

    /// Sets the pause between clicks, in milliseconds.
    pub fn set_interval(&mut self, interval_ms: u64)
        ensures
            *final(self) == (AutoClicker { interval_ms, ..*old(self) }),
    {
        self.interval_ms = interval_ms;
    }

    /// The number of clicks performed in the current run.
    pub fn get_progress_count(&self) -> (r: u32)
        ensures
            r == self.progress_count,
    {
        self.progress_count
    }

    /// Records the number of clicks the background loop reports.
    pub fn set_progress_count(&mut self, count: u32)
        ensures
            *final(self) == (AutoClicker { progress_count: count, ..*old(self) }),
    {
        self.progress_count = count;
    }

    /// Sets the number of clicks to perform.
    pub fn set_max_count(&mut self, count: u32)
        ensures
            *final(self) == (AutoClicker { max_count: count, ..*old(self) }),
    {
        self.max_count = count;
    }

    /// The number of clicks to perform.
    pub fn get_max_count(&self) -> (r: u32)
        ensures
            r == self.max_count,
    {
        self.max_count
    }

    /// Starts a run that clicks at `position`: refused while a run is under way, otherwise
    /// the progress is reset and the job to carry out is returned.
    pub fn start(&mut self, position: Point) -> (r: Result<AutoClickJob, String>)
        ensures
            old(self).running ==> (r matches Err(e) && e@ == "連続クリックは既に開始されています"@)
                && *final(self) == *old(self),
            !old(self).running ==> r == Ok::<AutoClickJob, String>(
                AutoClickJob {
                    position,
                    interval_ms: old(self).interval_ms,
                    max_count: old(self).max_count,
                },
            ) && *final(self) == old(self).spec_started(),
    {
        if self.running {
            return Err(String::from_str("連続クリックは既に開始されています"));
        }
        self.progress_count = 0;
        self.running = true;
        Ok(AutoClickJob { position, interval_ms: self.interval_ms, max_count: self.max_count })
    }

    /// Stops the run under way, if any. Returns whether there was one, which the caller
    /// must then signal and wait for.
    pub fn stop(&mut self) -> (r: bool)
        ensures
            r == old(self).running,
            *final(self) == (AutoClicker { running: false, ..*old(self) }),
    {
        let was_running = self.running;
        self.running = false;
        was_running
    }
}

/// The decision of the background loop after each pause, given the clicks done so far,
/// the clicks asked for, and whether a stop was requested.
pub open spec fn spec_click_step(progress: u32, max_count: u32, stop_requested: bool) -> ClickStep {
    if stop_requested {
        ClickStep::Finish
    } else if progress >= MAX_CAPTURE_COUNT {
        ClickStep::LimitReached
    } else if progress >= max_count {
        ClickStep::Finish
    } else {
        ClickStep::Click { progress: (progress + 1) as u32 }
    }
}

/// Decides what the background loop does after a pause.
pub fn auto_click_step(progress: u32, max_count: u32, stop_requested: bool) -> (r: ClickStep)
    ensures
        r == spec_click_step(progress, max_count, stop_requested),
{
    if stop_requested {
        ClickStep::Finish
    } else if progress >= MAX_CAPTURE_COUNT {
        ClickStep::LimitReached
    } else if progress >= max_count {
        ClickStep::Finish
    } else {
        ClickStep::Click { progress: progress + 1 }
    }
}

/// The number of clicks a run performs when no stop is requested: starting from
/// `progress`, it clicks until it reaches the requested count or the cap.
pub open spec fn clicks_of_run(progress: nat, max_count: nat) -> nat
    decreases MAX_CAPTURE_COUNT - progress,
{
    if progress >= MAX_CAPTURE_COUNT || progress >= max_count {
        0
    } else {
        1 + clicks_of_run(progress + 1, max_count)
    }
}

/// What the background loop does after a pause, for every count and request: a requested
/// stop ends the run at once, whatever the counts; otherwise the loop clicks exactly when
/// fewer clicks than requested and than the cap were made, and each click adds one; at the
/// cap it warns and ends; with the requested clicks done it ends.
pub proof fn lemma_click_step_decides(progress: u32, max_count: u32, stop_requested: bool)
    ensures
        stop_requested ==> spec_click_step(progress, max_count, stop_requested) == ClickStep::Finish,
        !stop_requested ==> ((spec_click_step(progress, max_count, stop_requested) is Click) <==> (
        progress < max_count && progress < MAX_CAPTURE_COUNT)),
        spec_click_step(progress, max_count, stop_requested) matches ClickStep::Click { progress: p }
            ==> p == progress + 1,
        (spec_click_step(progress, max_count, stop_requested) is LimitReached) <==> (
        !stop_requested && progress >= MAX_CAPTURE_COUNT),
{
}

/// Each click advances the count by one, never beyond the requested count nor the cap;
/// and a run from zero without a stop performs exactly the smaller of the two.
pub proof fn lemma_click_step_bounded(progress: u32, max_count: u32, stop_requested: bool)
    ensures
        spec_click_step(progress, max_count, stop_requested) matches ClickStep::Click { progress: p }
            ==> p == progress + 1 && p <= max_count && p <= MAX_CAPTURE_COUNT,
        clicks_of_run(0, max_count as nat) == (if max_count <= MAX_CAPTURE_COUNT {
            max_count as nat
        } else {
            MAX_CAPTURE_COUNT as nat
        }),
{
    lemma_clicks_of_run(0, max_count as nat);
}

proof fn lemma_clicks_of_run(progress: nat, max_count: nat)
    requires
        progress <= MAX_CAPTURE_COUNT,
    ensures
        clicks_of_run(progress, max_count) == (if progress >= max_count {
            0
        } else if max_count <= MAX_CAPTURE_COUNT {
            (max_count - progress) as nat
        } else {
            (MAX_CAPTURE_COUNT - progress) as nat
        }),
    decreases MAX_CAPTURE_COUNT - progress,
{
    if progress < MAX_CAPTURE_COUNT && progress < max_count {
        lemma_clicks_of_run(progress + 1, max_count);
    }
}

/// The text of the progress label: `自動クリック中 ...(progress/max)`.
pub open spec fn progress_label_text(progress: nat, max_count: nat) -> Seq<char> {
    "自動クリック中 ...("@ + decimal(progress) + "/"@ + decimal(max_count) + ")"@
}

/// Builds the progress label shown in the capture-mode overlay during a run.
pub fn progress_label(progress: u32, max_count: u32) -> (r: String)
    ensures
        r@ == progress_label_text(progress as nat, max_count as nat),
{
    let mut s = String::from_str("自動クリック中 ...(");
    append_decimal(&mut s, progress as u64);
    s.append("/");
    append_decimal(&mut s, max_count as u64);
    s.append(")");
    s
}


/// The longest single pause of the background loop, in milliseconds: a long interval is
/// slept in slices of this length so that a stop request is noticed quickly.
pub const SLEEP_SLICE_MS: u64 = 100;

/// The next pause of the background loop, given the part of the interval still to wait.
pub fn next_sleep_ms(remaining_ms: u64) -> (r: u64)
    ensures
        r == (if remaining_ms < SLEEP_SLICE_MS {
            remaining_ms
        } else {
            SLEEP_SLICE_MS
        }),
{
    if remaining_ms < SLEEP_SLICE_MS {
        remaining_ms
    } else {
        SLEEP_SLICE_MS
    }
}

/// The warning shown when a run reaches the safety cap.
pub open spec fn limit_warning_text() -> Seq<char> {
    "⚠️ 連続クリックが最大クリック数("@ + decimal(MAX_CAPTURE_COUNT as nat)
        + ")に達しました。連続クリックを停止します。"@
}

/// Builds the warning shown when a run reaches the safety cap.
pub fn limit_warning() -> (r: String)
    ensures
        r@ == limit_warning_text(),
{
    let mut s = String::from_str("⚠️ 連続クリックが最大クリック数(");
    append_decimal(&mut s, MAX_CAPTURE_COUNT as u64);
    s.append(")に達しました。連続クリックを停止します。");
    s
}

} // verus!
