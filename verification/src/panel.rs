use vstd::prelude::*;

use crate::applet::{is_tab_bar, popup_after_close, tab_bar, tab_index, tab_labels, Page, Tab};
use crate::clock::{elapsed_seconds, elapsed_whole_seconds, format_signed_duration, signed_duration_text};
use crate::models::{duplicate_text, opt_text_view, ApiId, ApiIdView, Integration, TimeEntry, TimeEntryView, Timestamp};
use crate::settings_page;
use crate::settings_page::{fresh_settings_page, settings_page_next, settings_page_task, SettingsPage, SettingsPageView};
use crate::state::{duplicate_projects, duplicate_scopes, opt_entry_view, GlobalState, GlobalStateView};
use crate::time_entries_page;
use crate::time_entries_page::TimeEntriesPage;
use crate::timer_page;
use crate::timer_page::{fresh_timer_page, timer_message_fits, timer_page_next, timer_page_task, TimerPage, TimerPageView};

verus! {

/// The panel applet over a time-tracking service: the locale it was
/// started in, the stored state, the open popup and the page it shows, the
/// three pages, and whether a service session exists. What a page changes
/// in the stored state is written to the store and reaches the applet and
/// the other page at once (see [`timer_page_writes`], [`settings_page_writes`]).
/// The runner keeps the session itself, writes `state` back to the store
/// after each message, and reports a change made elsewhere as `StateChanged`.
#[derive(Debug)]
pub struct AppletModel {
    pub locale: String,
    pub state: GlobalState,
    pub popup: Option<u64>,
    pub tabs: Vec<Tab>,
    pub active_tab: usize,
    pub popup_page: Page,
    pub settings_page: SettingsPage,
    pub timer_page: TimerPage,
    pub time_entries_page: TimeEntriesPage,
    pub has_client: bool,
}

/// The value of an [`AppletModel`].
pub struct AppletModelView {
    pub locale: Seq<char>,
    pub state: GlobalStateView,
    pub popup: Option<u64>,
    pub tabs: Seq<Tab>,
    pub active_tab: usize,
    pub popup_page: Page,
    pub settings_page: SettingsPageView,
    pub timer_page: TimerPageView,
    pub time_entries: Seq<TimeEntryView>,
    pub has_client: bool,
}

impl View for AppletModel {
    type V = AppletModelView;

    open spec fn view(&self) -> AppletModelView {
        AppletModelView {
            locale: self.locale@,
            state: self.state@,
            popup: self.popup,
            tabs: self.tabs@,
            active_tab: self.active_tab,
            popup_page: self.popup_page,
            settings_page: self.settings_page@,
            timer_page: self.timer_page@,
            time_entries: self.time_entries_page.time_entries@.map_values(|e: TimeEntry| e@),
            has_client: self.has_client,
        }
    }
}

/// What the panel applet is told.
#[derive(Debug)]
pub enum Message {
    TogglePopup { new_id: u64 },
    TabChanged(Page),
    Tick,
    CloseRequested(u64),
    TimerPage(timer_page::Message),
    TimeEntriesPage(time_entries_page::Message),
    SettingsPage(settings_page::Message),
    GetExistingTimeEntry,
    ExistingTimeEntryGotten(Option<TimeEntry>),
    StartTimer { now: Timestamp },
    TimerStarted(TimeEntry),
    StopTimer,
    TimerStopped,
    StateChanged(GlobalState),
    CreateIntegration,
    IntegrationCreated(bool),
}

/// The work a message asks for, and the message its outcome comes back as.
#[derive(Debug)]
pub enum Task {
    Nothing,
    /// Open a popup under this window identifier.
    OpenPopup(u64),
    /// Close the popup of this window.
    ClosePopup(u64),
    /// The timer page's work; its answers come back wrapped in `Message::TimerPage`.
    TimerPage(timer_page::Task),
    /// The settings page's work; its answers come back wrapped in `Message::SettingsPage`.
    SettingsPage(settings_page::Task),
    /// Ask the session for the running entry: `ExistingTimeEntryGotten`, with `None` on failure.
    FetchCurrentTimeEntry,
    /// Start an entry in the context of `entry`: `TimerStarted` on success, `Tick` on failure.
    StartTimeEntry { entry: TimeEntry, description: Option<String> },
    /// Stop the entry: `TimerStopped`, whatever the outcome.
    StopTimeEntry(TimeEntry),
    /// Open a session with the integration: `IntegrationCreated`, telling whether one opened.
    CreateClient(Integration),
    /// Deliver these messages to the applet.
    Deliver(Vec<Message>),
}

/// The stored state once the integration changed: what belonged to the
/// old service (scopes, projects, the choices among them, the running
/// entry) is gone.
pub open spec fn cleared_for_new_integration(s: GlobalStateView) -> GlobalStateView {
    GlobalStateView {
        running_time_entry: None,
        selected_scope: None,
        selected_project: None,
        scopes: Seq::empty(),
        projects: Seq::empty(),
        ..s
    }
}

/// The scope and project a new entry is started in, if the stored choices
/// allow a start: Toggl needs a workspace (the project is optional), Kimai
/// needs both its project and its activity.
pub open spec fn start_context(s: GlobalStateView) -> Option<(ApiIdView, Option<ApiIdView>)> {
    match s.selected_integration {
        Some(Integration::TogglIntegration) => match s.selected_scope {
            Some(scope) => Some((scope.id, match s.selected_project {
                Some(p) => Some(p.id),
                None => None,
            })),
            None => None,
        },
        Some(Integration::KimaiIntegration) => match (s.selected_scope, s.selected_project) {
            (Some(scope), Some(p)) => Some((scope.id, Some(p.id))),
            _ => None,
        },
        None => None,
    }
}

/// The entry handed to the service when a timer starts at `now`: the
/// default identifier, the chosen scope and project, not billable, the
/// description typed in, started at `now`, still running.
pub open spec fn start_template(s: GlobalStateView, now: Timestamp) -> TimeEntryView {
    TimeEntryView {
        id: ApiIdView::Int(0),
        scope_id: Some(start_context(s).unwrap().0),
        project_id: start_context(s).unwrap().1,
        billable: false,
        description: s.current_description,
        start_time: now,
        stop_time: None,
    }
}

/// The applet once the store it watches holds `s`: the pages take `s`;
/// the applet takes it too, except that when `s` names another integration,
/// what belonged to the old service is cleared (and a session with the new
/// one is asked for).
pub open spec fn on_store_change(p: AppletModelView, s: GlobalStateView) -> AppletModelView {
    AppletModelView {
        state: if p.state.selected_integration != s.selected_integration {
            cleared_for_new_integration(s)
        } else {
            s
        },
        settings_page: SettingsPageView { state: s, ..p.settings_page },
        timer_page: TimerPageView { state: s, ..p.timer_page },
        ..p
    }
}

/// What the store holds once a timer-page message has written the fields
/// it changed on the page (`page`, the page's state afterwards) over the
/// stored state `s`; `None` for a message that writes nothing.
pub open spec fn timer_page_writes(s: GlobalStateView, page: GlobalStateView, m: &timer_page::Message) -> Option<GlobalStateView> {
    match m {
        timer_page::Message::ScopesGotten(Some(_)) => Some(GlobalStateView { scopes: page.scopes, ..s }),
        timer_page::Message::ProjectsGotten(Some(_)) => Some(GlobalStateView { projects: page.projects, ..s }),
        timer_page::Message::ScopeChanged(_) => Some(GlobalStateView {
            selected_scope: page.selected_scope,
            selected_project: page.selected_project,
            ..s
        }),
        timer_page::Message::ProjectChanged(_) => Some(GlobalStateView { selected_project: page.selected_project, ..s }),
        timer_page::Message::DescriptionChanged(_) =>
            Some(GlobalStateView { current_description: page.current_description, ..s }),
        timer_page::Message::ExistingTimeEntryGotten(_) =>
            Some(GlobalStateView { running_time_entry: page.running_time_entry, ..s }),
        _ => None,
    }
}

/// What the store holds once a settings-page message has written what it
/// changed: a picked integration; `None` for a message that writes nothing.
pub open spec fn settings_page_writes(s: GlobalStateView, page: GlobalStateView, m: &settings_page::Message) -> Option<GlobalStateView> {
    match m {
        settings_page::Message::IntegrationSelected(_) =>
            Some(GlobalStateView { selected_integration: page.selected_integration, ..s }),
        _ => None,
    }
}

/// Whether a settings-page message picks an integration other than the stored one.
pub open spec fn switches_integration(p: AppletModelView, m: &settings_page::Message) -> bool {
    m matches settings_page::Message::IntegrationSelected(i) && p.state.selected_integration != Some(*i)
}

/// The panel applet after a message.
pub open spec fn applet_next(p: AppletModelView, m: &Message) -> AppletModelView {
    match m {
        Message::TogglePopup { new_id } =>
            AppletModelView { popup: if p.popup is Some { None } else { Some(*new_id) }, ..p },
        Message::TabChanged(page) => AppletModelView { popup_page: *page, active_tab: tab_index(*page), ..p },
        Message::CloseRequested(id) => AppletModelView { popup: popup_after_close(p.popup, *id), ..p },
        Message::TimerPage(tm) => {
            let q = AppletModelView { timer_page: timer_page_next(p.timer_page, tm), ..p };
            match timer_page_writes(p.state, q.timer_page.state, tm) {
                Some(stored) => on_store_change(q, stored),
                None => q,
            }
        },
        Message::SettingsPage(sm) => {
            let q = AppletModelView { settings_page: settings_page_next(p.settings_page, sm), ..p };
            match settings_page_writes(p.state, q.settings_page.state, sm) {
                Some(stored) => on_store_change(q, stored),
                None => q,
            }
        },
        Message::ExistingTimeEntryGotten(e) =>
            AppletModelView { state: GlobalStateView { running_time_entry: opt_entry_view(e), ..p.state }, ..p },
        Message::TimerStarted(e) =>
            AppletModelView { state: GlobalStateView { running_time_entry: Some(e@), ..p.state }, ..p },
        Message::TimerStopped =>
            AppletModelView { state: GlobalStateView { running_time_entry: None, ..p.state }, ..p },
        Message::StateChanged(s) => on_store_change(p, s@),
        Message::IntegrationCreated(b) => AppletModelView {
            has_client: *b,
            settings_page: SettingsPageView { has_client: *b, ..p.settings_page },
            timer_page: TimerPageView { has_client: *b, ..p.timer_page },
            ..p
        },
        _ => p,
    }
}

/// The timer-page messages a fresh session asks for: the running entry,
/// then the scopes (and, for Kimai, the projects too).
pub open spec fn session_fetches(i: Integration, batch: Seq<Message>) -> bool {
    &&& batch.len() == (if i == Integration::KimaiIntegration { 3int } else { 2int })
    &&& batch[0] matches Message::TimerPage(m) && m is GetExistingTimeEntry
    &&& batch[1] matches Message::TimerPage(m) && m is GetScopes
    &&& i == Integration::KimaiIntegration ==> (batch[2] matches Message::TimerPage(m) && m is GetProjects)
}

/// The work a message asks for.
pub open spec fn applet_task(p: AppletModelView, m: &Message, t: &Task) -> bool {
    match m {
        Message::TogglePopup { new_id } => match p.popup {
            Some(open) => t matches Task::ClosePopup(x) && x == open,
            None => t matches Task::OpenPopup(x) && x == *new_id,
        },
        Message::TimerPage(tm) => t matches Task::TimerPage(tt) && timer_page_task(p.timer_page, tm, &tt),
        Message::SettingsPage(sm) => if switches_integration(p, sm) {
            t matches Task::Deliver(v) && v@.len() == 1 && v@[0] is CreateIntegration
        } else {
            t matches Task::SettingsPage(st) && settings_page_task(p.settings_page, sm, &st)
        },
        Message::GetExistingTimeEntry => if p.has_client { t is FetchCurrentTimeEntry } else { t is Nothing },
        Message::StartTimer { now } => if p.has_client && start_context(p.state) is Some {
            t matches Task::StartTimeEntry { entry, description }
                && entry@ == start_template(p.state, *now)
                && opt_text_view(&description) == p.state.current_description
        } else {
            t is Nothing
        },
        Message::StopTimer => match (p.has_client, p.state.running_time_entry) {
            (true, Some(e)) => t matches Task::StopTimeEntry(x) && x@ == e,
            _ => t is Nothing,
        },
        Message::StateChanged(s) => if p.state.selected_integration != s@.selected_integration {
            t matches Task::Deliver(v) && v@.len() == 1 && v@[0] is CreateIntegration
        } else {
            t is Nothing
        },
        Message::CreateIntegration => match p.state.selected_integration {
            Some(i) => t matches Task::CreateClient(x) && x == i,
            None => t is Nothing,
        },
        Message::IntegrationCreated(_) => match p.state.selected_integration {
            Some(i) => t matches Task::Deliver(v) && session_fetches(i, v@),
            None => t is Nothing,
        },
        _ => t is Nothing,
    }
}

/// Whether a message can be applied: a timer-page message must fit the timer
/// page, and the log page handles no message yet.
pub open spec fn applet_message_fits(p: AppletModelView, m: &Message) -> bool {
    match m {
        Message::TimerPage(tm) => timer_message_fits(p.timer_page, tm),
        Message::TimeEntriesPage(_) => false,
        _ => true,
    }
}

/// What the panel shows. The button row: with a session, a dot in the
/// chosen project's color (`None`: white), and a counter (the time since the
/// running entry started, or `00:00`) whose press stops or starts the timer;
/// the popup button is always there. Atop the popup: the tab bar's labels
/// and its active tab.
#[derive(Debug)]
pub struct PanelDisplay {
    pub tab_labels: Vec<String>,
    pub active_tab: usize,
    pub show_counter: bool,
    pub indicator_color: Option<String>,
    pub counter_text: String,
    pub counter_stops_timer: bool,
}

/// The color of the dot: the chosen project's, once an integration is chosen.
pub open spec fn indicator_color(s: GlobalStateView) -> Option<Seq<char>> {
    match (s.selected_integration, s.selected_project) {
        (Some(_), Some(p)) => Some(p.color),
        _ => None,
    }
}

/// The counter text at `now`.
pub open spec fn counter_text(s: GlobalStateView, now: Timestamp) -> Seq<char> {
    match s.running_time_entry {
        Some(e) => signed_duration_text(elapsed_whole_seconds(now, e.start_time)),
        None => signed_duration_text(0),
    }
}

/// The fields of the stored state a timer-page message writes.
#[derive(Clone, Copy, Debug, PartialEq, Eq, Structural)]
enum StoreWrite {
    Nothing,
    Scopes,
    Projects,
    ScopeChoice,
    ProjectChoice,
    Description,
    RunningEntry,
}

/// The fields a timer-page message writes.
spec fn store_write_of(m: &timer_page::Message) -> StoreWrite {
    match m {
        timer_page::Message::ScopesGotten(Some(_)) => StoreWrite::Scopes,
        timer_page::Message::ProjectsGotten(Some(_)) => StoreWrite::Projects,
        timer_page::Message::ScopeChanged(_) => StoreWrite::ScopeChoice,
        timer_page::Message::ProjectChanged(_) => StoreWrite::ProjectChoice,
        timer_page::Message::DescriptionChanged(_) => StoreWrite::Description,
        timer_page::Message::ExistingTimeEntryGotten(_) => StoreWrite::RunningEntry,
        _ => StoreWrite::Nothing,
    }
}

/// The stored state `s` with the fields `w` names taken from the page's state `page`.
spec fn stored_by(s: GlobalStateView, page: GlobalStateView, w: StoreWrite) -> GlobalStateView {
    match w {
        StoreWrite::Nothing => s,
        StoreWrite::Scopes => GlobalStateView { scopes: page.scopes, ..s },
        StoreWrite::Projects => GlobalStateView { projects: page.projects, ..s },
        StoreWrite::ScopeChoice => GlobalStateView {
            selected_scope: page.selected_scope,
            selected_project: page.selected_project,
            ..s
        },
        StoreWrite::ProjectChoice => GlobalStateView { selected_project: page.selected_project, ..s },
        StoreWrite::Description => GlobalStateView { current_description: page.current_description, ..s },
        StoreWrite::RunningEntry => GlobalStateView { running_time_entry: page.running_time_entry, ..s },
    }
}

fn timer_store_write(m: &timer_page::Message) -> (w: StoreWrite)
    ensures
        w == store_write_of(m),
{
    match m {
        timer_page::Message::ScopesGotten(Some(_)) => StoreWrite::Scopes,
        timer_page::Message::ProjectsGotten(Some(_)) => StoreWrite::Projects,
        timer_page::Message::ScopeChanged(_) => StoreWrite::ScopeChoice,
        timer_page::Message::ProjectChanged(_) => StoreWrite::ProjectChoice,
        timer_page::Message::DescriptionChanged(_) => StoreWrite::Description,
        timer_page::Message::ExistingTimeEntryGotten(_) => StoreWrite::RunningEntry,
        _ => StoreWrite::Nothing,
    }
}

impl AppletModel {
    /// The applet as it starts over the stored state, with no session yet:
    /// no popup, the tab bar with "Timer" active, the settings page shown,
    /// and the pages over the same state.
    /// It first asks for the running entry, then for a session.
    pub fn init(state: GlobalState, locale: String, stored_url: Option<String>) -> (r: (AppletModel, Task))
        ensures
            r.0@.locale == locale@,
            r.0@.state == state@,
            r.0@.popup is None,
            is_tab_bar(r.0@.tabs),
            r.0@.active_tab == tab_index(Page::Timer),
            r.0@.popup_page == Page::Settings,
            r.0@.has_client == false,
            fresh_timer_page(r.0@.timer_page, state@, false),
            fresh_settings_page(r.0@.settings_page, state@, false, opt_text_view(&stored_url)),
            r.0@.time_entries.len() == 0,
            r.1 matches Task::Deliver(v) && v@.len() == 2 && v@[0] is GetExistingTimeEntry && v@[1] is CreateIntegration,
    {
        let timer_page = TimerPage::new(state.duplicate(), false);
        let settings_page = SettingsPage::new(state.duplicate(), false, stored_url);
        let model = AppletModel {
            locale,
            state,
            popup: None,
            tabs: tab_bar(),
            active_tab: 0,
            popup_page: Page::Settings,
            settings_page,
            timer_page,
            time_entries_page: TimeEntriesPage::new(),
            has_client: false,
        };
        proof {
            assert(model@.time_entries =~= Seq::empty());
        }
        (model, Task::Deliver(vec![Message::GetExistingTimeEntry, Message::CreateIntegration]))
    }

    /// The page the popup shows: the settings page until a session exists,
    /// the page of the chosen tab after that.
    pub fn visible_page(&self) -> (page: Page)
        ensures
            page == (if self.has_client { self.popup_page } else { Page::Settings }),
    {
        if self.has_client { self.popup_page } else { Page::Settings }
    }

    /// The entry a timer started at `now` is created from, if the stored
    /// choices allow a start.
    fn start_entry(&self, now: Timestamp) -> (r: Option<TimeEntry>)
        ensures
            r is Some <==> start_context(self@.state) is Some,
            r matches Some(e) ==> e@ == start_template(self@.state, now),
    {
        let (scope_id, project_id): (ApiId, Option<ApiId>) = match self.state.selected_integration {
            Some(Integration::TogglIntegration) => match &self.state.selected_scope {
                Some(scope) => (scope.id.duplicate(), match &self.state.selected_project {
                    Some(p) => Some(p.id.duplicate()),
                    None => None,
                }),
                None => {
                    return None;
                },
            },
            Some(Integration::KimaiIntegration) => match (&self.state.selected_scope, &self.state.selected_project) {
                (Some(scope), Some(p)) => (scope.id.duplicate(), Some(p.id.duplicate())),
                _ => {
                    return None;
                },
            },
            None => {
                return None;
            },
        };
        Some(TimeEntry {
            id: ApiId::Int(0),
            scope_id: Some(scope_id),
            project_id,
            billable: false,
            description: duplicate_text(&self.state.current_description),
            start_time: now,
            stop_time: None,
        })
    }

    /// Takes the state the store now holds; see [`on_store_change`]. Tells
    /// whether the integration changed.
    fn take_stored_state(&mut self, stored: GlobalState) -> (switched: bool)
        ensures
            final(self)@ == on_store_change(old(self)@, stored@),
            switched == (old(self)@.state.selected_integration != stored@.selected_integration),
    {
        let previous = self.state.selected_integration;
        self.settings_page.state = stored.duplicate();
        self.timer_page.state = stored.duplicate();
        self.state = stored;
        if previous != self.state.selected_integration {
            self.state.scopes = Vec::new();
            self.state.projects = Vec::new();
            self.state.selected_scope = None;
            self.state.selected_project = None;
            self.state.running_time_entry = None;
            proof {
                assert(self@.state.scopes =~= Seq::empty());
                assert(self@.state.projects =~= Seq::empty());
            }
            true
        } else {
            false
        }
    }

    /// What the store holds after the timer page wrote what `write` names
    /// from its own state over the applet's state.
    fn stored_after_timer_page(&self, write: StoreWrite) -> (r: Option<GlobalState>)
        ensures
            write is Nothing <==> r is None,
            r matches Some(s) ==> s@ == stored_by(self@.state, self@.timer_page.state, write),
    {
        let page = &self.timer_page.state;
        let mut stored = self.state.duplicate();
        match write {
            StoreWrite::Nothing => {
                return None;
            },
            StoreWrite::Scopes => {
                stored.scopes = duplicate_scopes(&page.scopes);
            },
            StoreWrite::Projects => {
                stored.projects = duplicate_projects(&page.projects);
            },
            StoreWrite::ScopeChoice => {
                stored.selected_scope = match &page.selected_scope {
                    Some(x) => Some(x.duplicate()),
                    None => None,
                };
                stored.selected_project = match &page.selected_project {
                    Some(x) => Some(x.duplicate()),
                    None => None,
                };
            },
            StoreWrite::ProjectChoice => {
                stored.selected_project = match &page.selected_project {
                    Some(x) => Some(x.duplicate()),
                    None => None,
                };
            },
            StoreWrite::Description => {
                stored.current_description = duplicate_text(&page.current_description);
            },
            StoreWrite::RunningEntry => {
                stored.running_time_entry = match &page.running_time_entry {
                    Some(e) => Some(e.duplicate()),
                    None => None,
                };
            },
        }
        Some(stored)
    }

    /// Applies one message, and gives the work it asks for. When the stored
    /// state changes its integration (reported by the store, or picked on the
    /// settings page), what belonged to the old service is cleared and a new
    /// session is asked for.
    pub fn update(&mut self, message: Message) -> (t: Task)
        requires
            applet_message_fits(old(self)@, &message),
        ensures
            final(self)@ == applet_next(old(self)@, &message),
            applet_task(old(self)@, &message, &t),
            message is StartTimer ==> (t is StartTimeEntry <==> (old(self).has_client && ({
                let s = old(self)@.state;
                ||| s.selected_integration == Some(Integration::TogglIntegration) && s.selected_scope is Some
                ||| s.selected_integration == Some(Integration::KimaiIntegration) && s.selected_scope is Some
                    && s.selected_project is Some
            }))),
            t matches Task::StartTimeEntry { entry, description } ==> ({
                let s = old(self)@.state;
                &&& s.selected_scope matches Some(sc) && entry@.scope_id == Some(sc.id)
                &&& match s.selected_project {
                    Some(pr) => entry@.project_id == Some(pr.id),
                    None => entry@.project_id is None,
                }
                &&& message matches Message::StartTimer { now } && entry@.start_time == now
                &&& entry@.stop_time is None
                &&& entry@.description == s.current_description
                &&& opt_text_view(&description) == s.current_description
            }),
    {
        match message {
            Message::TogglePopup { new_id } => match self.popup.take() {
                Some(open) => Task::ClosePopup(open),
                None => {
                    self.popup = Some(new_id);
                    Task::OpenPopup(new_id)
                },
            },
            Message::TabChanged(page) => {
                self.active_tab = match page {
                    Page::Timer => 0,
                    Page::Log => 1,
                    Page::Settings => 2,
                };
                self.popup_page = page;
                Task::Nothing
            },
            Message::Tick => Task::Nothing,
            Message::CloseRequested(id) => {
                if self.popup == Some(id) {
                    self.popup = None;
                }
                Task::Nothing
            },
            Message::TimerPage(m) => {
                let write = timer_store_write(&m);
                let task = self.timer_page.update(m);
                match self.stored_after_timer_page(write) {
                    Some(stored) => {
                        self.take_stored_state(stored);
                    },
                    None => {},
                }
                Task::TimerPage(task)
            },
            Message::TimeEntriesPage(_) => Task::Nothing,
            Message::SettingsPage(m) => {
                let picked = match &m {
                    settings_page::Message::IntegrationSelected(i) => Some(*i),
                    _ => None,
                };
                let task = self.settings_page.update(m);
                match picked {
                    Some(_) => {
                        let mut stored = self.state.duplicate();
                        stored.selected_integration = self.settings_page.state.selected_integration;
                        if self.take_stored_state(stored) {
                            return Task::Deliver(vec![Message::CreateIntegration]);
                        }
                        Task::SettingsPage(task)
                    },
                    None => Task::SettingsPage(task),
                }
            },
            Message::GetExistingTimeEntry => {
                if self.has_client { Task::FetchCurrentTimeEntry } else { Task::Nothing }
            },
            Message::ExistingTimeEntryGotten(entry) => {
                self.state.running_time_entry = entry;
                Task::Nothing
            },
            Message::StartTimer { now } => {
                if !self.has_client {
                    return Task::Nothing;
                }
                match self.start_entry(now) {
                    Some(entry) => Task::StartTimeEntry {
                        entry,
                        description: duplicate_text(&self.state.current_description),
                    },
                    None => Task::Nothing,
                }
            },
            Message::TimerStarted(entry) => {
                self.state.running_time_entry = Some(entry);
                Task::Nothing
            },
            Message::StopTimer => {
                if !self.has_client {
                    return Task::Nothing;
                }
                match &self.state.running_time_entry {
                    Some(entry) => Task::StopTimeEntry(entry.duplicate()),
                    None => Task::Nothing,
                }
            },
            Message::TimerStopped => {
                self.state.running_time_entry = None;
                Task::Nothing
            },
            Message::StateChanged(state) => {
                if self.take_stored_state(state) {
                    Task::Deliver(vec![Message::CreateIntegration])
                } else {
                    Task::Nothing
                }
            },
            Message::CreateIntegration => match self.state.selected_integration {
                Some(integration) => Task::CreateClient(integration),
                None => Task::Nothing,
            },
            Message::IntegrationCreated(has_client) => {
                self.has_client = has_client;
                self.timer_page.has_client = has_client;
                self.settings_page.has_client = has_client;
                match self.state.selected_integration {
                    Some(Integration::TogglIntegration) => Task::Deliver(vec![
                        Message::TimerPage(timer_page::Message::GetExistingTimeEntry),
                        Message::TimerPage(timer_page::Message::GetScopes),
                    ]),
                    Some(Integration::KimaiIntegration) => Task::Deliver(vec![
                        Message::TimerPage(timer_page::Message::GetExistingTimeEntry),
                        Message::TimerPage(timer_page::Message::GetScopes),
                        Message::TimerPage(timer_page::Message::GetProjects),
                    ]),
                    None => Task::Nothing,
                }
            },
        }
    }

    /// What the panel button row shows at `now`.
    pub fn display(&self, now: &Timestamp) -> (d: PanelDisplay)
        ensures
            d.tab_labels@.len() == self@.tabs.len(),
            forall|i: int| 0 <= i < d.tab_labels@.len() ==> #[trigger] d.tab_labels@[i]@ == self@.tabs[i].label@,
            d.active_tab == self.active_tab,
            d.show_counter == self.has_client,
            opt_text_view(&d.indicator_color) == indicator_color(self@.state),
            d.counter_text@ == counter_text(self@.state, *now),
            d.counter_stops_timer == self.state.running_time_entry is Some,
    {
        let indicator = match (self.state.selected_integration, &self.state.selected_project) {
            (Some(_), Some(p)) => Some(p.color.clone()),
            _ => None,
        };
        let (counter, stops) = match &self.state.running_time_entry {
            Some(entry) => (format_signed_duration(elapsed_seconds(now, &entry.start_time)), true),
            None => (format_signed_duration(0), false),
        };
        PanelDisplay {
            tab_labels: tab_labels(&self.tabs),
            active_tab: self.active_tab,
            show_counter: self.has_client,
            indicator_color: indicator,
            counter_text: counter,
            counter_stops_timer: stops,
        }
    }
}

/// Once the stored state names another integration, nothing of the old
/// service is kept: no scopes, no projects, no choice among them, no running
/// entry; the new state's integration and description are kept, and a
/// session with the new integration is asked for.
pub proof fn switching_integration_clears_service_data(p: AppletModelView, s: GlobalState, t: Task)
    requires
        p.state.selected_integration != s@.selected_integration,
        applet_task(p, &Message::StateChanged(s), &t),
    ensures
        applet_next(p, &Message::StateChanged(s)).state == cleared_for_new_integration(s@),
        applet_next(p, &Message::StateChanged(s)).state.selected_integration == s@.selected_integration,
        applet_next(p, &Message::StateChanged(s)).state.current_description == s@.current_description,
        applet_next(p, &Message::StateChanged(s)).state.scopes.len() == 0,
        applet_next(p, &Message::StateChanged(s)).state.projects.len() == 0,
        applet_next(p, &Message::StateChanged(s)).state.running_time_entry is None,
        t matches Task::Deliver(v) && v@.len() == 1 && v@[0] is CreateIntegration,
{
}

/// A timer that was started and then stopped leaves no running entry, and
/// a stop is asked of the service only while an entry runs.
pub proof fn started_then_stopped_runs_nothing(p: AppletModelView, e: TimeEntry, t: Task)
    requires
        applet_task(applet_next(p, &Message::TimerStarted(e)), &Message::StopTimer, &t),
    ensures
        applet_next(applet_next(p, &Message::TimerStarted(e)), &Message::TimerStopped).state.running_time_entry is None,
        p.has_client ==> (t matches Task::StopTimeEntry(x) && x@ == e@),
{
}

/// A scope chosen on the timer page is at once the applet's chosen scope,
/// with no project chosen, and both pages hold that state.
pub proof fn timer_page_scope_reaches_the_applet(p: AppletModelView, i: usize)
    requires
        i < p.timer_page.state.scopes.len(),
    ensures ({
        let q = applet_next(p, &Message::TimerPage(timer_page::Message::ScopeChanged(i)));
        &&& q.state.selected_scope == Some(p.timer_page.state.scopes[i as int])
        &&& q.state.selected_project is None
        &&& q.state.selected_integration == p.state.selected_integration
        &&& q.state.running_time_entry == p.state.running_time_entry
        &&& q.timer_page.state == q.state
        &&& q.settings_page.state == q.state
    }),
{
}

/// An integration picked on the settings page is at once the applet's
/// integration. Picking another one than the stored one clears what
/// belonged to the old service and asks for a session with the new one.
pub proof fn settings_page_integration_reaches_the_applet(p: AppletModelView, i: Integration, t: Task)
    requires
        applet_task(p, &Message::SettingsPage(settings_page::Message::IntegrationSelected(i)), &t),
    ensures ({
        let q = applet_next(p, &Message::SettingsPage(settings_page::Message::IntegrationSelected(i)));
        &&& q.state.selected_integration == Some(i)
        &&& q.timer_page.state.selected_integration == Some(i)
        &&& p.state.selected_integration != Some(i) ==> {
            &&& q.state == cleared_for_new_integration(GlobalStateView { selected_integration: Some(i), ..p.state })
            &&& t matches Task::Deliver(v) && v@.len() == 1 && v@[0] is CreateIntegration
        }
    }),
{
}

/// A started timer runs in the chosen context: a start is asked exactly when
/// a session exists and the choices allow one (a workspace for Toggl, a
/// project and an activity for Kimai), and the entry handed to the service
/// carries the chosen scope, the chosen project whenever one is chosen (and
/// none otherwise), the description typed in, and the time of the press.
pub proof fn started_entry_is_in_the_chosen_context(p: AppletModelView, now: Timestamp, t: Task)
    requires
        applet_task(p, &Message::StartTimer { now }, &t),
    ensures
        t is StartTimeEntry <==> (p.has_client && ({
            ||| p.state.selected_integration == Some(Integration::TogglIntegration) && p.state.selected_scope is Some
            ||| p.state.selected_integration == Some(Integration::KimaiIntegration) && p.state.selected_scope is Some
                && p.state.selected_project is Some
        })),
        t matches Task::StartTimeEntry { entry, description } ==> ({
            &&& p.state.selected_scope matches Some(sc) && entry@.scope_id == Some(sc.id)
            &&& match p.state.selected_project {
                Some(pr) => entry@.project_id == Some(pr.id),
                None => entry@.project_id is None,
            }
            &&& entry@.start_time == now
            &&& entry@.stop_time is None
            &&& entry@.description == p.state.current_description
            &&& opt_text_view(&description) == p.state.current_description
        }),
{
}

} // verus!
