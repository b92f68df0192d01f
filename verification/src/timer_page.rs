use vstd::prelude::*;
use vstd::string::StringExecFns;

use crate::text::decimal_pad2;

use crate::clock::{at_clock_time, clock_text, clock_time_round_trip, format_clock_time, parse_clock_time, parsed_clock_time, with_clock_time};
use crate::models::{
    SECONDS_PER_DAY, Integration, duplicate_text, opt_text_view, ApiIdView, Project, ProjectView, Scope, ScopeView, TimeEntry,
    TimeEntryUpdate, TimeEntryView,
};
use crate::state::{projects_view, scopes_view, opt_entry_view, GlobalState, GlobalStateView};

verus! {

broadcast use vstd::string::group_string_axioms;

/// The timer page: the stored state, whether a service session exists,
/// the dropdown choices, the description typed in, and the start-time field.
#[derive(Debug)]
pub struct TimerPage {
    pub state: GlobalState,
    pub has_client: bool,
    pub current_scope: Option<usize>,
    pub current_project: Option<usize>,
    pub current_description: Option<String>,
    pub start_time_field_text: String,
    pub start_time_field_editable: bool,
}

/// The value of a [`TimerPage`].
pub struct TimerPageView {
    pub state: GlobalStateView,
    pub has_client: bool,
    pub current_scope: Option<usize>,
    pub current_project: Option<usize>,
    pub current_description: Option<Seq<char>>,
    pub start_time_field_text: Seq<char>,
    pub start_time_field_editable: bool,
}

impl View for TimerPage {
    type V = TimerPageView;

    open spec fn view(&self) -> TimerPageView {
        TimerPageView {
            state: self.state@,
            has_client: self.has_client,
            current_scope: self.current_scope,
            current_project: self.current_project,
            current_description: opt_text_view(&self.current_description),
            start_time_field_text: self.start_time_field_text@,
            start_time_field_editable: self.start_time_field_editable,
        }
    }
}

/// What the timer page is told.
#[derive(Debug)]
pub enum Message {
    GetScopes,
    ScopesGotten(Option<Vec<Scope>>),
    GetProjects,
    ProjectsGotten(Option<Vec<Project>>),
    ScopeChanged(usize),
    ProjectChanged(usize),
    DescriptionChanged(String),
    GetExistingTimeEntry,
    ExistingTimeEntryGotten(Option<TimeEntry>),
    StartTimeFieldTextChanged(String),
    StartTimeFieldSubmitted(String),
    ToggleStartTimeEditing(bool),
    StartTimeFieldUnfocused,
}

/// The work the timer page asks of the service session; its answer comes
/// back as a message: the scopes or projects (`None` on failure), or the
/// running entry (`None` on failure).
#[derive(Debug)]
pub enum Task {
    Nothing,
    FetchScopes,
    FetchProjects,
    FetchCurrentTimeEntry,
    UpdateTimeEntry { entry: TimeEntry, update: TimeEntryUpdate },
}

/// A description as stored: an empty text is no description.
pub open spec fn description_value(text: Seq<char>) -> Option<Seq<char>> {
    if text.len() == 0 { None } else { Some(text) }
}

/// The timer page after a message.
pub open spec fn timer_page_next(p: TimerPageView, m: &Message) -> TimerPageView {
    match m {
        Message::ScopesGotten(Some(v)) =>
            TimerPageView { state: GlobalStateView { scopes: scopes_view(v@), ..p.state }, ..p },
        Message::ProjectsGotten(Some(v)) =>
            TimerPageView { state: GlobalStateView { projects: projects_view(v@), ..p.state }, ..p },
        Message::ScopeChanged(i) => TimerPageView {
            current_scope: Some(*i),
            state: GlobalStateView {
                selected_scope: Some(p.state.scopes[*i as int]),
                selected_project: None,
                ..p.state
            },
            ..p
        },
        Message::ProjectChanged(i) => TimerPageView {
            current_project: Some(*i),
            state: GlobalStateView { selected_project: Some(p.state.projects[*i as int]), ..p.state },
            ..p
        },
        Message::DescriptionChanged(d) => TimerPageView {
            current_description: description_value(d@),
            state: GlobalStateView { current_description: description_value(d@), ..p.state },
            ..p
        },
        Message::ExistingTimeEntryGotten(e) => TimerPageView {
            state: GlobalStateView { running_time_entry: opt_entry_view(e), ..p.state },
            ..p
        },
        Message::StartTimeFieldTextChanged(t) => TimerPageView { start_time_field_text: t@, ..p },
        Message::ToggleStartTimeEditing(editable) => if *editable {
            match p.state.running_time_entry {
                Some(e) => TimerPageView {
                    start_time_field_text: clock_text(e.start_time),
                    start_time_field_editable: true,
                    ..p
                },
                None => TimerPageView { start_time_field_text: Seq::empty(), start_time_field_editable: false, ..p },
            }
        } else {
            p
        },
        Message::StartTimeFieldUnfocused =>
            TimerPageView { start_time_field_text: Seq::empty(), start_time_field_editable: false, ..p },
        _ => p,
    }
}

/// The change a submitted start time makes to the running entry: the same
/// UTC day at the time read, whole minute; every other field kept.
pub open spec fn start_time_update_ok(update: &TimeEntryUpdate, e: TimeEntryView, hour: u32, minute: u32) -> bool {
    &&& update.billable == e.billable
    &&& opt_text_view(&update.description) == e.description
    &&& update.stop_time == e.stop_time
    &&& update.start_time.unix_seconds() == at_clock_time(e.start_time, hour as int, minute as int)
    &&& update.start_time.subsec_nanos() == 0
}

/// The work a message asks of the service session.
pub open spec fn timer_page_task(p: TimerPageView, m: &Message, t: &Task) -> bool {
    match m {
        Message::GetScopes => if p.has_client { t is FetchScopes } else { t is Nothing },
        Message::GetProjects => if p.has_client { t is FetchProjects } else { t is Nothing },
        Message::GetExistingTimeEntry => if p.has_client { t is FetchCurrentTimeEntry } else { t is Nothing },
        Message::StartTimeFieldSubmitted(text) => {
            if p.has_client && parsed_clock_time(text@) is Some && p.state.running_time_entry is Some {
                let (h, mi) = parsed_clock_time(text@).unwrap();
                let e = p.state.running_time_entry.unwrap();
                &&& h < 24
                &&& mi < 60
                &&& t matches Task::UpdateTimeEntry { entry, update } && entry@ == e
                    && start_time_update_ok(&update, e, h, mi)
            } else {
                t is Nothing
            }
        },
        _ => t is Nothing,
    }
}

/// Whether a message can be applied: a dropdown choice must be in its list.
pub open spec fn timer_message_fits(p: TimerPageView, m: &Message) -> bool {
    match m {
        Message::ScopeChanged(i) => *i < p.state.scopes.len(),
        Message::ProjectChanged(i) => *i < p.state.projects.len(),
        _ => true,
    }
}

/// The first position in `scopes` of a scope with the identifier `id`.
pub open spec fn is_first_scope_with_id(scopes: Seq<ScopeView>, id: ApiIdView, r: Option<usize>) -> bool {
    match r {
        Some(k) => k < scopes.len() && scopes[k as int].id == id
            && forall|j: int| 0 <= j < k ==> #[trigger] scopes[j].id != id,
        None => forall|j: int| 0 <= j < scopes.len() ==> #[trigger] scopes[j].id != id,
    }
}

/// The first position in `projects` of a project with the identifier `id`.
pub open spec fn is_first_project_with_id(projects: Seq<ProjectView>, id: ApiIdView, r: Option<usize>) -> bool {
    match r {
        Some(k) => k < projects.len() && projects[k as int].id == id
            && forall|j: int| 0 <= j < k ==> #[trigger] projects[j].id != id,
        None => forall|j: int| 0 <= j < projects.len() ==> #[trigger] projects[j].id != id,
    }
}

fn position_of_scope(scopes: &Vec<Scope>, selected: &Scope) -> (r: Option<usize>)
    ensures
        is_first_scope_with_id(scopes_view(scopes@), selected@.id, r),
{
    let mut i: usize = 0;
    while i < scopes.len()
        invariant
            i <= scopes@.len(),
            forall|j: int| 0 <= j < i ==> #[trigger] scopes@[j]@.id != selected@.id,
        decreases scopes@.len() - i,
    {
        if scopes[i].id.same_as(&selected.id) {
            return Some(i);
        }
        i = i + 1;
    }
    None
}

fn position_of_project(projects: &Vec<Project>, selected: &Project) -> (r: Option<usize>)
    ensures
        is_first_project_with_id(projects_view(projects@), selected@.id, r),
{
    let mut i: usize = 0;
    while i < projects.len()
        invariant
            i <= projects@.len(),
            forall|j: int| 0 <= j < i ==> #[trigger] projects@[j]@.id != selected@.id,
        decreases projects@.len() - i,
    {
        if projects[i].id.same_as(&selected.id) {
            return Some(i);
        }
        i = i + 1;
    }
    None
}

/// A row of the timer page.
#[derive(Clone, Copy, Debug, PartialEq, Eq, Structural)]
pub enum TimerRow {
    /// The start time of the running entry.
    Start,
    /// The scope dropdown (Toggl's workspaces, Kimai's projects).
    Scope,
    /// The project dropdown (Toggl's projects, Kimai's activities).
    Project,
    /// The description field.
    Description,
    /// The button that fetches the running entry again.
    Refetch,
}

/// The rows the timer page shows: the start time and the refetch button
/// alone until an integration is chosen, the dropdowns and the description
/// between them once one is.
pub open spec fn timer_rows(i: Option<Integration>) -> Seq<TimerRow> {
    match i {
        None => seq![TimerRow::Start, TimerRow::Refetch],
        Some(_) => seq![TimerRow::Start, TimerRow::Scope, TimerRow::Project, TimerRow::Description, TimerRow::Refetch],
    }
}

/// The label of the scope dropdown: Toggl calls it a workspace, Kimai a project.
pub open spec fn scope_label(i: Option<Integration>) -> Seq<char> {
    match i {
        Some(Integration::TogglIntegration) => "workspace"@,
        Some(Integration::KimaiIntegration) => "Project"@,
        None => "Scope"@,
    }
}

/// The label of the project dropdown: Toggl calls it a project, Kimai an activity.
pub open spec fn project_label(i: Option<Integration>) -> Seq<char> {
    match i {
        Some(Integration::KimaiIntegration) => "Activity"@,
        _ => "Project"@,
    }
}

/// What the timer page shows: its rows and the labels of its dropdowns,
/// the start-time field (its placeholder, text and whether it is being
/// edited), the scope dropdown, the project dropdown (only projects of the
/// chosen scope), and the description field.
#[derive(Debug)]
pub struct TimerPageDisplay {
    pub rows: Vec<TimerRow>,
    pub scope_label: String,
    pub project_label: String,
    pub start_time_placeholder: String,
    pub start_time_text: String,
    pub start_time_editable: bool,
    pub scope_names: Vec<String>,
    pub current_scope: Option<usize>,
    pub project_names: Vec<String>,
    pub current_project: Option<usize>,
    pub description: String,
}

/// The placeholder of the start-time field: the running entry's start as `%H:%M`.
pub open spec fn start_time_placeholder(running: Option<TimeEntryView>) -> Seq<char> {
    match running {
        Some(e) => clock_text(e.start_time),
        None => "No running timer."@,
    }
}

/// Whether a project belongs to the chosen scope (none belongs when no scope is chosen).
pub open spec fn in_selected_scope(p: ProjectView, selected: Option<ScopeView>) -> bool {
    match selected {
        Some(s) => p.scope_id == s.id,
        None => false,
    }
}

/// The names of the projects of the chosen scope, in list order.
pub open spec fn project_names_in_scope(projects: Seq<ProjectView>, selected: Option<ScopeView>) -> Seq<Seq<char>>
    decreases projects.len(),
{
    if projects.len() == 0 {
        Seq::empty()
    } else {
        let rest = project_names_in_scope(projects.drop_last(), selected);
        if in_selected_scope(projects.last(), selected) {
            rest.push(projects.last().name)
        } else {
            rest
        }
    }
}

/// The text of an optional description: empty when there is none.
pub open spec fn text_or_empty(t: Option<Seq<char>>) -> Seq<char> {
    match t {
        Some(s) => s,
        None => Seq::empty(),
    }
}

/// A timer page just opened over `state`: the dropdowns point at the stored
/// choices (the first scope and project with their identifiers), the
/// description is the stored one, the start-time field is empty and closed.
pub open spec fn fresh_timer_page(p: TimerPageView, state: GlobalStateView, has_client: bool) -> bool {
    &&& p.state == state
    &&& p.has_client == has_client
    &&& match state.selected_scope {
        Some(s) => is_first_scope_with_id(state.scopes, s.id, p.current_scope),
        None => p.current_scope is None,
    }
    &&& match state.selected_project {
        Some(s) => is_first_project_with_id(state.projects, s.id, p.current_project),
        None => p.current_project is None,
    }
    &&& p.current_description == state.current_description
    &&& p.start_time_field_text.len() == 0
    &&& !p.start_time_field_editable
}

impl TimerPage {
    /// What the page shows.
    pub fn display(&self) -> (d: TimerPageDisplay)
        ensures
            d.rows@ == timer_rows(self@.state.selected_integration),
            d.scope_label@ == scope_label(self@.state.selected_integration),
            d.project_label@ == project_label(self@.state.selected_integration),
            d.start_time_placeholder@ == start_time_placeholder(self@.state.running_time_entry),
            d.start_time_text@ == self@.start_time_field_text,
            d.start_time_editable == self.start_time_field_editable,
            d.scope_names@.len() == self@.state.scopes.len(),
            forall|i: int| 0 <= i < d.scope_names@.len() ==> #[trigger] d.scope_names@[i]@ == self@.state.scopes[i].name,
            d.current_scope == self.current_scope,
            d.project_names@.map_values(|n: String| n@) == project_names_in_scope(self@.state.projects, self@.state.selected_scope),
            d.current_project == self.current_project,
            d.description@ == text_or_empty(self@.current_description),
            match self.current_description {
                Some(typed) => d.description@ == typed@,
                None => d.description@.len() == 0,
            },
    {
        let start_time_placeholder = match &self.state.running_time_entry {
            Some(e) => format_clock_time(&e.start_time),
            None => String::from_str("No running timer."),
        };
        let mut scope_names: Vec<String> = Vec::new();
        let mut i: usize = 0;
        while i < self.state.scopes.len()
            invariant
                i <= self.state.scopes@.len(),
                scope_names@.len() == i,
                forall|j: int| 0 <= j < i ==> #[trigger] scope_names@[j]@ == self.state.scopes@[j].name@,
            decreases self.state.scopes@.len() - i,
        {
            scope_names.push(self.state.scopes[i].name.clone());
            i = i + 1;
        }
        let ghost projects = projects_view(self.state.projects@);
        let ghost selected = self@.state.selected_scope;
        let mut project_names: Vec<String> = Vec::new();
        let mut k: usize = 0;
        while k < self.state.projects.len()
            invariant
                k <= self.state.projects@.len(),
                projects == projects_view(self.state.projects@),
                selected == self@.state.selected_scope,
                project_names@.map_values(|n: String| n@) == project_names_in_scope(projects.take(k as int), selected),
            decreases self.state.projects@.len() - k,
        {
            let project = &self.state.projects[k];
            let belongs = match &self.state.selected_scope {
                Some(scope) => project.scope_id.same_as(&scope.id),
                None => false,
            };
            proof {
                assert(projects.take(k + 1).drop_last() == projects.take(k as int));
                assert(projects.take(k + 1).last() == project@);
            }
            if belongs {
                project_names.push(project.name.clone());
                proof {
                    assert(project_names@.map_values(|n: String| n@) =~=
                        project_names_in_scope(projects.take(k as int), selected).push(project.name@));
                }
            }
            k = k + 1;
        }
        proof {
            assert(projects.take(projects.len() as int) == projects);
        }
        let description = match &self.current_description {
            Some(d) => d.clone(),
            None => String::new(),
        };
        let (rows, scope_label, project_label) = match self.state.selected_integration {
            None => (vec![TimerRow::Start, TimerRow::Refetch], String::from_str("Scope"), String::from_str("Project")),
            Some(Integration::TogglIntegration) => (
                vec![TimerRow::Start, TimerRow::Scope, TimerRow::Project, TimerRow::Description, TimerRow::Refetch],
                String::from_str("workspace"),
                String::from_str("Project"),
            ),
            Some(Integration::KimaiIntegration) => (
                vec![TimerRow::Start, TimerRow::Scope, TimerRow::Project, TimerRow::Description, TimerRow::Refetch],
                String::from_str("Project"),
                String::from_str("Activity"),
            ),
        };
        TimerPageDisplay {
            rows,
            scope_label,
            project_label,
            start_time_placeholder,
            start_time_text: self.start_time_field_text.clone(),
            start_time_editable: self.start_time_field_editable,
            scope_names,
            current_scope: self.current_scope,
            project_names,
            current_project: self.current_project,
            description,
        }
    }

    /// The page over the stored state (see [`fresh_timer_page`]).
    pub fn new(state: GlobalState, has_client: bool) -> (p: TimerPage)
        ensures
            fresh_timer_page(p@, state@, has_client),
    {
        let current_scope = match &state.selected_scope {
            Some(selected) => position_of_scope(&state.scopes, selected),
            None => None,
        };
        let current_project = match &state.selected_project {
            Some(selected) => position_of_project(&state.projects, selected),
            None => None,
        };
        let current_description = duplicate_text(&state.current_description);
        TimerPage {
            state,
            has_client,
            current_scope,
            current_project,
            current_description,
            start_time_field_text: String::new(),
            start_time_field_editable: false,
        }
    }

    /// Applies one message, and gives the work it asks of the service session.
    pub fn update(&mut self, message: Message) -> (t: Task)
        requires
            timer_message_fits(old(self)@, &message),
        ensures
            final(self)@ == timer_page_next(old(self)@, &message),
            timer_page_task(old(self)@, &message, &t),
    {
        let ghost before = self@;
        match message {
            Message::GetScopes => {
                if self.has_client { Task::FetchScopes } else { Task::Nothing }
            },
            Message::ScopesGotten(scopes) => {
                if let Some(scopes) = scopes {
                    self.state.scopes = scopes;
                }
                Task::Nothing
            },
            Message::GetProjects => {
                if self.has_client { Task::FetchProjects } else { Task::Nothing }
            },
            Message::ProjectsGotten(projects) => {
                if let Some(projects) = projects {
                    self.state.projects = projects;
                }
                Task::Nothing
            },
            Message::ScopeChanged(index) => {
                self.current_scope = Some(index);
                let scope = self.state.scopes[index].duplicate();
                self.state.selected_scope = Some(scope);
                self.state.selected_project = None;
                Task::Nothing
            },
            Message::ProjectChanged(index) => {
                self.current_project = Some(index);
                let project = self.state.projects[index].duplicate();
                self.state.selected_project = Some(project);
                Task::Nothing
            },
            Message::DescriptionChanged(description) => {
                let desc = if description.as_str().is_empty() { None } else { Some(description) };
                self.current_description = duplicate_text(&desc);
                self.state.current_description = desc;
                Task::Nothing
            },
            Message::GetExistingTimeEntry => {
                if self.has_client { Task::FetchCurrentTimeEntry } else { Task::Nothing }
            },
            Message::ExistingTimeEntryGotten(time_entry) => {
                self.state.running_time_entry = time_entry;
                Task::Nothing
            },
            Message::StartTimeFieldTextChanged(text) => {
                self.start_time_field_text = text;
                Task::Nothing
            },
            Message::StartTimeFieldSubmitted(text) => {
                if !self.has_client {
                    return Task::Nothing;
                }
                let (hour, minute) = match parse_clock_time(text.as_str()) {
                    Some(parsed) => parsed,
                    None => {
                        return Task::Nothing;
                    },
                };
                let entry = match &self.state.running_time_entry {
                    Some(e) => e.duplicate(),
                    None => {
                        return Task::Nothing;
                    },
                };
                let start_time = with_clock_time(&entry.start_time, hour, minute);
                let update = TimeEntryUpdate {
                    billable: entry.billable,
                    description: duplicate_text(&entry.description),
                    start_time,
                    stop_time: entry.stop_time,
                };
                Task::UpdateTimeEntry { entry, update }
            },
            Message::ToggleStartTimeEditing(editable) => {
                if editable {
                    match &self.state.running_time_entry {
                        Some(running) => {
                            self.start_time_field_text = format_clock_time(&running.start_time);
                            self.start_time_field_editable = true;
                        },
                        None => {
                            self.start_time_field_editable = false;
                            self.start_time_field_text = String::new();
                        },
                    }
                }
                Task::Nothing
            },
            Message::StartTimeFieldUnfocused => {
                self.start_time_field_editable = false;
                self.start_time_field_text = String::new();
                Task::Nothing
            },
        }
    }
}

/// A start time typed into the timer page is what the running entry then
/// shows: the update moves the entry's start to the typed hour and minute
/// (as `%H:%M` writes them) on the same UTC day.
pub proof fn submitted_start_time_shows_as_typed(p: TimerPageView, text: String, t: Task)
    requires
        timer_page_task(p, &Message::StartTimeFieldSubmitted(text), &t),
        t is UpdateTimeEntry,
    ensures
        parsed_clock_time(text@) is Some,
        t matches Task::UpdateTimeEntry { entry, update } && ({
            let (h, m) = parsed_clock_time(text@).unwrap();
            &&& clock_text(update.start_time) == decimal_pad2(h as int) + seq![':'] + decimal_pad2(m as int)
            &&& update.start_time.unix_seconds() / (SECONDS_PER_DAY as int)
                == entry@.start_time.unix_seconds() / (SECONDS_PER_DAY as int)
        }),
{
    let (h, m) = parsed_clock_time(text@).unwrap();
    if let Task::UpdateTimeEntry { entry, update } = t {
        clock_time_round_trip(entry@.start_time, h as int, m as int);
    }
}

/// The description field shows what was typed into it: after any nonempty
/// text is typed, the page's description is that text and the field shows
/// it; after the field is emptied it shows nothing.
pub proof fn typed_description_is_shown(p: TimerPageView, typed: String)
    ensures
        typed@.len() > 0 ==> timer_page_next(p, &Message::DescriptionChanged(typed)).current_description == Some(typed@),
        typed@.len() > 0 ==> text_or_empty(timer_page_next(p, &Message::DescriptionChanged(typed)).current_description) == typed@,
        typed@.len() > 0 ==> timer_page_next(p, &Message::DescriptionChanged(typed)).state.current_description == Some(typed@),
        typed@.len() == 0 ==> text_or_empty(timer_page_next(p, &Message::DescriptionChanged(typed)).current_description).len() == 0,
        forall|d: Seq<char>| #[trigger] text_or_empty(Some(d)) == d,
{
}

} // verus!
