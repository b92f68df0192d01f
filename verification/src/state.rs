use vstd::prelude::*;

use crate::models::{duplicate_text, opt_text_view, Integration, Project, ProjectView, Scope, ScopeView, TimeEntry, TimeEntryView};

verus! {

/// The version of the stored state's layout.
pub const GLOBAL_STATE_VERSION: u64 = 1;

/// The state the applet keeps across runs: the chosen integration, the
/// running entry, the chosen scope and project, the description typed in,
/// and the scopes and projects last fetched.
#[derive(Debug)]
pub struct GlobalState {
    pub selected_integration: Option<Integration>,
    pub running_time_entry: Option<TimeEntry>,
    pub selected_scope: Option<Scope>,
    pub selected_project: Option<Project>,
    pub current_description: Option<String>,
    pub scopes: Vec<Scope>,
    pub projects: Vec<Project>,
}

/// The value of a [`GlobalState`].
pub struct GlobalStateView {
    pub selected_integration: Option<Integration>,
    pub running_time_entry: Option<TimeEntryView>,
    pub selected_scope: Option<ScopeView>,
    pub selected_project: Option<ProjectView>,
    pub current_description: Option<Seq<char>>,
    pub scopes: Seq<ScopeView>,
    pub projects: Seq<ProjectView>,
}

/// The values of a list of scopes.
pub open spec fn scopes_view(s: Seq<Scope>) -> Seq<ScopeView> {
    s.map_values(|x: Scope| x@)
}

/// The values of a list of projects.
pub open spec fn projects_view(s: Seq<Project>) -> Seq<ProjectView> {
    s.map_values(|x: Project| x@)
}

/// The value of an optional time entry.
pub open spec fn opt_entry_view(e: &Option<TimeEntry>) -> Option<TimeEntryView> {
    match e {
        Some(t) => Some(t@),
        None => None,
    }
}

/// The value of an optional scope.
pub open spec fn opt_scope_view(s: &Option<Scope>) -> Option<ScopeView> {
    match s {
        Some(x) => Some(x@),
        None => None,
    }
}

/// The value of an optional project.
pub open spec fn opt_project_view(p: &Option<Project>) -> Option<ProjectView> {
    match p {
        Some(x) => Some(x@),
        None => None,
    }
}

impl View for GlobalState {
    type V = GlobalStateView;

    open spec fn view(&self) -> GlobalStateView {
        GlobalStateView {
            selected_integration: self.selected_integration,
            running_time_entry: opt_entry_view(&self.running_time_entry),
            selected_scope: opt_scope_view(&self.selected_scope),
            selected_project: opt_project_view(&self.selected_project),
            current_description: opt_text_view(&self.current_description),
            scopes: scopes_view(self.scopes@),
            projects: projects_view(self.projects@),
        }
    }
}

/// A copy of a list of scopes.
pub fn duplicate_scopes(v: &Vec<Scope>) -> (r: Vec<Scope>)
    ensures
        scopes_view(r@) == scopes_view(v@),
{
    let mut out: Vec<Scope> = Vec::new();
    let mut i: usize = 0;
    while i < v.len()
        invariant
            i <= v@.len(),
            out@.len() == i,
            forall|j: int| 0 <= j < i ==> #[trigger] out@[j]@ == v@[j]@,
        decreases v@.len() - i,
    {
        out.push(v[i].duplicate());
        i = i + 1;
    }
    assert(scopes_view(out@) =~= scopes_view(v@));
    out
}

/// A copy of a list of projects.
pub fn duplicate_projects(v: &Vec<Project>) -> (r: Vec<Project>)
    ensures
        projects_view(r@) == projects_view(v@),
{
    let mut out: Vec<Project> = Vec::new();
    let mut i: usize = 0;
    while i < v.len()
        invariant
            i <= v@.len(),
            out@.len() == i,
            forall|j: int| 0 <= j < i ==> #[trigger] out@[j]@ == v@[j]@,
        decreases v@.len() - i,
    {
        out.push(v[i].duplicate());
        i = i + 1;
    }
    assert(projects_view(out@) =~= projects_view(v@));
    out
}

impl GlobalState {
    /// A copy of this state.
    pub fn duplicate(&self) -> (r: GlobalState)
        ensures
            r@ == self@,
    {
        GlobalState {
            selected_integration: self.selected_integration,
            running_time_entry: match &self.running_time_entry {
                Some(e) => Some(e.duplicate()),
                None => None,
            },
            selected_scope: match &self.selected_scope {
                Some(s) => Some(s.duplicate()),
                None => None,
            },
            selected_project: match &self.selected_project {
                Some(p) => Some(p.duplicate()),
                None => None,
            },
            current_description: duplicate_text(&self.current_description),
            scopes: duplicate_scopes(&self.scopes),
            projects: duplicate_projects(&self.projects),
        }
    }
}

impl Default for GlobalState {
    /// Nothing chosen, nothing running, nothing fetched.
    fn default() -> (s: GlobalState)
        ensures
            s.selected_integration is None,
            s.running_time_entry is None,
            s.selected_scope is None,
            s.selected_project is None,
            s.current_description is None,
            s.scopes@.len() == 0,
            s.projects@.len() == 0,
    {
        GlobalState {
            selected_integration: None,
            running_time_entry: None,
            selected_scope: None,
            selected_project: None,
            current_description: None,
            scopes: Vec::new(),
            projects: Vec::new(),
        }
    }
}

} // verus!
