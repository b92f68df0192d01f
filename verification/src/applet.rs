use vstd::prelude::*;
use vstd::string::StringExecFns;

use crate::clock::{duration_text, epoch_nanos, format_duration};
use crate::models::Timestamp;

verus! {

broadcast use vstd::string::group_string_axioms;

/// The pages of the applet's popup.
#[derive(Clone, Copy, Debug, PartialEq, Eq, Structural)]
pub enum Page {
    Timer,
    Log,
    Settings,
}

/// What the applet subscribes to besides the clock.
#[derive(Clone, Copy, Debug, PartialEq, Eq, Structural, Hash)]
pub enum SubscriptionId {
    StateWatch,
}

/// The applet's stored configuration.
#[derive(Debug)]
pub struct TrackerConfig {
    pub demo: String,
}

/// A project as the stand-alone timer knows it.
#[derive(Debug)]
pub struct Project {
    pub id: String,
    pub name: String,
}

/// A tag as the stand-alone timer knows it.
#[derive(Debug)]
pub struct Tag {
    pub id: String,
    pub name: String,
}

/// A span of time the stand-alone timer recorded.
#[derive(Debug)]
pub struct TrackingEntry {
    pub id: String,
    pub duration_nanos: u128,
    pub start_time: Timestamp,
    pub stop_time: Timestamp,
    pub project_id: String,
    pub tag_ids: Vec<String>,
}

/// The longest span a stopwatch holds, in nanoseconds (`Duration::MAX`).
pub const MAX_ELAPSED_NANOS: u128 = 18_446_744_073_709_551_615_999_999_999;

/// The state of a stopwatch: whether it runs, the clock reading it last
/// counted from, and the nanoseconds it has counted.
pub struct StopwatchState {
    pub running: bool,
    pub counter: Timestamp,
    pub elapsed: int,
}

/// The nanoseconds from `counter` to `now`; none when the clock reads
/// earlier than `counter` (as `SystemTime::elapsed` fails then).
pub open spec fn time_since(now: Timestamp, counter: Timestamp) -> int {
    if epoch_nanos(now) >= epoch_nanos(counter) {
        epoch_nanos(now) - epoch_nanos(counter)
    } else {
        0
    }
}

/// A clock tick: a running stopwatch adds the time since its counter (read
/// at `measured`) and counts on from `restarted`; a stopped one is unchanged.
pub open spec fn tick_step(s: StopwatchState, measured: Timestamp, restarted: Timestamp) -> StopwatchState {
    if s.running {
        StopwatchState { running: true, counter: restarted, elapsed: s.elapsed + time_since(measured, s.counter) }
    } else {
        s
    }
}

/// Toggling: a running stopwatch stops; a stopped one runs, counting from `now`.
pub open spec fn toggle_step(s: StopwatchState, now: Timestamp) -> StopwatchState {
    if s.running {
        StopwatchState { running: false, ..s }
    } else {
        StopwatchState { running: true, counter: now, elapsed: s.elapsed }
    }
}

/// Resetting: nothing counted, counting from `now`; running or not as before.
pub open spec fn reset_step(s: StopwatchState, now: Timestamp) -> StopwatchState {
    StopwatchState { running: s.running, counter: now, elapsed: 0 }
}

/// The applet's stopwatch.
pub struct Stopwatch {
    running: bool,
    counter: Timestamp,
    elapsed_nanos: u128,
}

impl View for Stopwatch {
    type V = StopwatchState;

    closed spec fn view(&self) -> StopwatchState {
        StopwatchState { running: self.running, counter: self.counter, elapsed: self.elapsed_nanos as int }
    }
}

impl Stopwatch {
    #[verifier::type_invariant]
    spec fn bounded(self) -> bool {
        self.elapsed_nanos <= MAX_ELAPSED_NANOS
    }

    /// Whether a stopwatch state can take a tick without counting past `Duration::MAX`.
    pub open spec fn can_tick(s: StopwatchState, measured: Timestamp) -> bool {
        tick_step(s, measured, measured).elapsed <= MAX_ELAPSED_NANOS
    }

    /// A running stopwatch that has counted nothing, counting from `now`.
    pub fn new(now: Timestamp) -> (w: Stopwatch)
        ensures
            w@ == (StopwatchState { running: true, counter: now, elapsed: 0 }),
    {
        Stopwatch { running: true, counter: now, elapsed_nanos: 0 }
    }

    /// Whether the stopwatch runs.
    pub fn is_running(&self) -> (b: bool)
        ensures
            b == self@.running,
    {
        self.running
    }

    /// The whole seconds counted (`Duration::as_secs`).
    pub fn whole_seconds(&self) -> (s: u64)
        ensures
            s == self@.elapsed / 1_000_000_000,
    {
        proof {
            use_type_invariant(self);
        }
        (self.elapsed_nanos / 1_000_000_000) as u64
    }

    /// The reading shown on the panel button and the timer page.
    pub fn display(&self) -> (s: String)
        ensures
            s@ == duration_text((self@.elapsed / 1_000_000_000) as nat),
    {
        format_duration(self.whole_seconds())
    }

    /// A clock tick; see [`tick_step`]. A `Duration` cannot count past
    /// `Duration::MAX`, so a tick must not take the count beyond it.
    pub fn tick(&mut self, measured: Timestamp, restarted: Timestamp)
        requires
            Self::can_tick(old(self)@, measured),
        ensures
            final(self)@ == tick_step(old(self)@, measured, restarted),
    {
        if self.running {
            let now_secs = measured.secs() as i128;
            let counter_secs = self.counter.secs() as i128;
            let diff: i128 = (now_secs - counter_secs) * 1_000_000_000
                + (measured.nanos() as i128 - self.counter.nanos() as i128);
            if diff >= 0 {
                proof {
                    assert(diff == epoch_nanos(measured) - epoch_nanos(self.counter));
                }
                self.elapsed_nanos = self.elapsed_nanos + diff as u128;
            } else {
                proof {
                    assert(epoch_nanos(measured) < epoch_nanos(self.counter));
                }
            }
            self.counter = restarted;
        }
    }

    /// Starts a stopped stopwatch from `now`, or stops a running one.
    pub fn toggle(&mut self, now: Timestamp)
        ensures
            final(self)@ == toggle_step(old(self)@, now),
    {
        proof {
            use_type_invariant(&*self);
        }
        if self.running {
            self.running = false;
        } else {
            self.running = true;
            self.counter = now;
        }
    }

    /// Forgets what was counted and counts from `now`.
    pub fn reset(&mut self, now: Timestamp)
        ensures
            final(self)@ == reset_step(old(self)@, now),
    {
        self.elapsed_nanos = 0;
        self.counter = now;
    }
}

/// A stopped stopwatch ignores clock ticks.
pub proof fn stopped_stopwatch_ignores_ticks(s: StopwatchState, measured: Timestamp, restarted: Timestamp)
    requires
        !s.running,
    ensures
        tick_step(s, measured, restarted) == s,
{
}

/// Ticks never take counted time away: only a reset lowers it.
pub proof fn ticks_never_lower_elapsed(s: StopwatchState, measured: Timestamp, restarted: Timestamp)
    ensures
        tick_step(s, measured, restarted).elapsed >= s.elapsed,
{
}

/// A tick adds exactly the clock time since the last counted reading, when
/// the clock has not gone back.
pub proof fn tick_adds_time_since_counter(s: StopwatchState, measured: Timestamp, restarted: Timestamp)
    requires
        s.running,
        epoch_nanos(measured) >= epoch_nanos(s.counter),
    ensures
        tick_step(s, measured, restarted).elapsed == s.elapsed + (epoch_nanos(measured) - epoch_nanos(s.counter)),
        tick_step(s, measured, restarted).counter == restarted,
{
}

/// Pausing and resuming keeps what was counted, and counting resumes from
/// the moment of resuming: time while stopped is not counted.
pub proof fn pause_resume_keeps_elapsed(s: StopwatchState, paused: Timestamp, resumed: Timestamp)
    requires
        s.running,
    ensures
        toggle_step(toggle_step(s, paused), resumed) == (StopwatchState { running: true, counter: resumed, elapsed: s.elapsed }),
{
}

/// After a reset nothing is counted, and a stopped stopwatch keeps showing zero whatever the clock does.
pub proof fn reset_then_stopped_stays_zero(s: StopwatchState, now: Timestamp, measured: Timestamp, restarted: Timestamp)
    requires
        !s.running,
    ensures
        reset_step(s, now).elapsed == 0,
        tick_step(reset_step(s, now), measured, restarted).elapsed == 0,
{
}

/// The popup window's work that a message asks for: none, open a popup
/// under a new window identifier, or close the one open.
#[derive(Debug, PartialEq, Eq, Structural)]
pub enum PopupTask {
    Nothing,
    Open(u64),
    Close(u64),
}

/// Whether `popup` and `task` are what toggling the popup gives: the open
/// popup closes, or else a popup opens under `new_id`.
pub open spec fn popup_toggled(before: Option<u64>, new_id: u64, after: Option<u64>, task: PopupTask) -> bool {
    match before {
        Some(p) => after is None && task == PopupTask::Close(p),
        None => after == Some(new_id) && task == PopupTask::Open(new_id),
    }
}

/// The popup after its window asked to close: closed if it was that window.
pub open spec fn popup_after_close(before: Option<u64>, id: u64) -> Option<u64> {
    if before == Some(id) { None } else { before }
}

/// The icon of the timer page's start/stop button: stop while the
/// stopwatch runs, start while it is stopped.
pub open spec fn toggle_icon(running: bool) -> Seq<char> {
    if running { "media-playback-stop-symbolic"@ } else { "media-playback-start-symbolic"@ }
}

/// A tab of a popup's tab bar: its label and the page it shows.
#[derive(Debug)]
pub struct Tab {
    pub label: String,
    pub page: Page,
}

/// The position of a page's tab in the tab bar.
pub open spec fn tab_index(p: Page) -> usize {
    match p {
        Page::Timer => 0,
        Page::Log => 1,
        Page::Settings => 2,
    }
}

/// Whether `tabs` is the tab bar of the applets: "Timer", "Log" and
/// "Settings", in this order, each showing its page.
pub open spec fn is_tab_bar(tabs: Seq<Tab>) -> bool {
    &&& tabs.len() == 3
    &&& tabs[0].label@ == "Timer"@ && tabs[0].page == Page::Timer
    &&& tabs[1].label@ == "Log"@ && tabs[1].page == Page::Log
    &&& tabs[2].label@ == "Settings"@ && tabs[2].page == Page::Settings
}

/// The tab bar of the applets.
pub fn tab_bar() -> (tabs: Vec<Tab>)
    ensures
        is_tab_bar(tabs@),
{
    vec![
        Tab { label: String::from_str("Timer"), page: Page::Timer },
        Tab { label: String::from_str("Log"), page: Page::Log },
        Tab { label: String::from_str("Settings"), page: Page::Settings },
    ]
}

/// The labels of a tab bar, in order.
pub fn tab_labels(tabs: &Vec<Tab>) -> (labels: Vec<String>)
    ensures
        labels@.len() == tabs@.len(),
        forall|i: int| 0 <= i < labels@.len() ==> #[trigger] labels@[i]@ == tabs@[i].label@,
{
    let mut labels: Vec<String> = Vec::new();
    let mut i: usize = 0;
    while i < tabs.len()
        invariant
            i <= tabs@.len(),
            labels@.len() == i,
            forall|j: int| 0 <= j < i ==> #[trigger] labels@[j]@ == tabs@[j].label@,
        decreases tabs@.len() - i,
    {
        labels.push(tabs[i].label.clone());
        i = i + 1;
    }
    labels
}

/// The stand-alone applet: the locale it was started in, its stopwatch, the
/// open popup, the tab bar and its active tab, the page shown, and the task
/// and tag typed in.
pub struct AppletModel {
    pub locale: String,
    pub stopwatch: Stopwatch,
    pub popup: Option<u64>,
    pub tabs: Vec<Tab>,
    pub active_tab: usize,
    pub popup_page: Page,
    pub current_task: String,
    pub current_tag: Option<usize>,
    pub tag_selections: Vec<String>,
}

/// The kind of message a control of the stand-alone timer page sends: a
/// tab's activation sends `TabChanged` with the tab's page, the task input
/// `TaskTextChanged` with its text, the tag dropdown `TagChanged` with the
/// position picked, and the buttons `ToggleTimer` and `ResetTimer` at the
/// time of the press.
#[derive(Clone, Copy, Debug, PartialEq, Eq, Structural)]
pub enum Sends {
    TabChanged,
    TaskTextChanged,
    TagChanged,
    ToggleTimer,
    ResetTimer,
}

/// What the stand-alone timer page shows, top to bottom: the tab bar (its
/// labels and active tab), the task input (placeholder and text), the tag
/// dropdown (options and the one picked), then in one row the stopwatch
/// reading, the start/stop button and the reset button (their icon names);
/// each control with what it sends.
#[derive(Debug)]
pub struct AppletTimerPage {
    pub tab_labels: Vec<String>,
    pub active_tab: usize,
    pub tab_sends: Sends,
    pub task_placeholder: String,
    pub task_text: String,
    pub task_sends: Sends,
    pub tag_options: Vec<String>,
    pub selected_tag: Option<usize>,
    pub tag_sends: Sends,
    pub timer_text: String,
    pub toggle_icon: String,
    pub toggle_sends: Sends,
    pub reset_icon: String,
    pub reset_sends: Sends,
}

/// What the stand-alone applet is told.
pub enum Message {
    TogglePopup { new_id: u64 },
    CloseRequested(u64),
    ToggleTimer { now: Timestamp },
    Tick { measured: Timestamp, restarted: Timestamp },
    ResetTimer { now: Timestamp },
    TaskTextChanged(String),
    TagChanged(usize),
    TabChanged(Page),
}

impl AppletModel {
    /// The applet as it starts in `locale`: a running stopwatch from `now`,
    /// the tab bar with "Timer" active, the timer page, no task, no tag, and
    /// the three tags offered.
    pub fn init(now: Timestamp, locale: String) -> (a: AppletModel)
        ensures
            a.locale@ == locale@,
            is_tab_bar(a.tabs@),
            a.active_tab == tab_index(Page::Timer),
            a.stopwatch@ == (StopwatchState { running: true, counter: now, elapsed: 0 }),
            a.popup is None,
            a.popup_page == Page::Timer,
            a.current_task@.len() == 0,
            a.current_tag is None,
            a.tag_selections@.len() == 3,
            a.tag_selections@[0]@ == "Systemudvikling"@,
            a.tag_selections@[1]@ == "Programmering"@,
            a.tag_selections@[2]@ == "Teknologi"@,
    {
        AppletModel {
            locale,
            stopwatch: Stopwatch::new(now),
            popup: None,
            tabs: tab_bar(),
            active_tab: 0,
            popup_page: Page::Timer,
            current_task: String::new(),
            current_tag: None,
            tag_selections: vec![
                String::from_str("Systemudvikling"),
                String::from_str("Programmering"),
                String::from_str("Teknologi"),
            ],
        }
    }

    /// The icon name of the timer page's start/stop button.
    pub fn toggle_icon_name(&self) -> (s: &'static str)
        ensures
            s@ == toggle_icon(self.stopwatch@.running),
    {
        if self.stopwatch.is_running() { "media-playback-stop-symbolic" } else { "media-playback-start-symbolic" }
    }

    /// What the timer page shows, top to bottom: the tab bar, the task
    /// input, the tag dropdown, and a row of the stopwatch reading, the
    /// start/stop button and the reset button; with the message each control
    /// sends.
    pub fn timer_page(&self) -> (p: AppletTimerPage)
        ensures
            p.tab_labels@.len() == self.tabs@.len(),
            forall|i: int| 0 <= i < p.tab_labels@.len() ==> #[trigger] p.tab_labels@[i]@ == self.tabs@[i].label@,
            p.active_tab == self.active_tab,
            p.tab_sends == Sends::TabChanged,
            p.task_placeholder@ == "Task"@,
            p.task_text@ == self.current_task@,
            p.task_sends == Sends::TaskTextChanged,
            p.tag_options@.len() == self.tag_selections@.len(),
            forall|i: int| 0 <= i < p.tag_options@.len() ==> #[trigger] p.tag_options@[i]@ == self.tag_selections@[i]@,
            p.selected_tag == self.current_tag,
            p.tag_sends == Sends::TagChanged,
            p.timer_text@ == duration_text((self.stopwatch@.elapsed / 1_000_000_000) as nat),
            p.toggle_icon@ == toggle_icon(self.stopwatch@.running),
            p.toggle_sends == Sends::ToggleTimer,
            p.reset_icon@ == "object-rotate-left-symbolic"@,
            p.reset_sends == Sends::ResetTimer,
    {
        let mut tag_options: Vec<String> = Vec::new();
        let mut i: usize = 0;
        while i < self.tag_selections.len()
            invariant
                i <= self.tag_selections@.len(),
                tag_options@.len() == i,
                forall|j: int| 0 <= j < i ==> #[trigger] tag_options@[j]@ == self.tag_selections@[j]@,
            decreases self.tag_selections@.len() - i,
        {
            tag_options.push(self.tag_selections[i].clone());
            i = i + 1;
        }
        AppletTimerPage {
            tab_labels: tab_labels(&self.tabs),
            active_tab: self.active_tab,
            tab_sends: Sends::TabChanged,
            task_placeholder: String::from_str("Task"),
            task_text: self.current_task.clone(),
            task_sends: Sends::TaskTextChanged,
            tag_options,
            selected_tag: self.current_tag,
            tag_sends: Sends::TagChanged,
            timer_text: self.stopwatch.display(),
            toggle_icon: String::from_str(self.toggle_icon_name()),
            toggle_sends: Sends::ToggleTimer,
            reset_icon: String::from_str("object-rotate-left-symbolic"),
            reset_sends: Sends::ResetTimer,
        }
    }

    /// Applies one event.
    pub fn update(&mut self, event: Message) -> (t: PopupTask)
        requires
            event matches Message::Tick { measured, restarted } ==> Stopwatch::can_tick(old(self).stopwatch@, measured),
        ensures
            match event {
                Message::ToggleTimer { now } => final(self).stopwatch@ == toggle_step(old(self).stopwatch@, now),
                Message::Tick { measured, restarted } => final(self).stopwatch@ == tick_step(old(self).stopwatch@, measured, restarted),
                Message::ResetTimer { now } => final(self).stopwatch@ == reset_step(old(self).stopwatch@, now),
                _ => final(self).stopwatch@ == old(self).stopwatch@,
            },
            match event {
                Message::TaskTextChanged(t) => final(self).current_task@ == t@,
                _ => final(self).current_task@ == old(self).current_task@,
            },
            match event {
                Message::TagChanged(i) => final(self).current_tag == Some(i),
                _ => final(self).current_tag == old(self).current_tag,
            },
            match event {
                Message::TabChanged(p) => final(self).popup_page == p && final(self).active_tab == tab_index(p),
                _ => final(self).popup_page == old(self).popup_page && final(self).active_tab == old(self).active_tab,
            },
            final(self).tabs@ == old(self).tabs@,
            final(self).locale@ == old(self).locale@,
            match event {
                Message::TogglePopup { new_id } => popup_toggled(old(self).popup, new_id, final(self).popup, t),
                Message::CloseRequested(id) => final(self).popup == popup_after_close(old(self).popup, id)
                    && t == PopupTask::Nothing,
                _ => final(self).popup == old(self).popup && t == PopupTask::Nothing,
            },
            final(self).tag_selections@ == old(self).tag_selections@,
    {
        match event {
            Message::TogglePopup { new_id } => {
                match self.popup.take() {
                    Some(p) => PopupTask::Close(p),
                    None => {
                        self.popup = Some(new_id);
                        PopupTask::Open(new_id)
                    },
                }
            },
            Message::CloseRequested(id) => {
                if self.popup == Some(id) {
                    self.popup = None;
                }
                PopupTask::Nothing
            },
            Message::ToggleTimer { now } => {
                self.stopwatch.toggle(now);
                PopupTask::Nothing
            },
            Message::Tick { measured, restarted } => {
                self.stopwatch.tick(measured, restarted);
                PopupTask::Nothing
            },
            Message::ResetTimer { now } => {
                self.stopwatch.reset(now);
                PopupTask::Nothing
            },
            Message::TaskTextChanged(t) => {
                self.current_task = t;
                PopupTask::Nothing
            },
            Message::TagChanged(i) => {
                self.current_tag = Some(i);
                PopupTask::Nothing
            },
            Message::TabChanged(p) => {
                self.active_tab = match p {
                    Page::Timer => 0,
                    Page::Log => 1,
                    Page::Settings => 2,
                };
                self.popup_page = p;
                PopupTask::Nothing
            },
        }
    }
}

} // verus!
