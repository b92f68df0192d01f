use vstd::prelude::*;
use vstd::string::StringExecFns;

use crate::clock::current_time;
use crate::error::Error;
use crate::models::{
    api_id_text, duplicate_id, duplicate_text, opt_id_view, opt_text_view, rfc3339_text, ApiId,
    ApiIdView, Project, ProjectView, Scope, ScopeView, TimeEntry, TimeEntryUpdate, TimeEntryView,
    Timestamp,
};
use crate::request::{Credentials, Method, Request, RequestBody};

verus! {

broadcast use vstd::string::group_string_axioms;

/// The root of Toggl Track's API.
pub open spec fn toggl_api() -> Seq<char> {
    "https://api.track.toggl.com/api/v9"@
}

/// The colour given to scopes the service does not colour.
pub open spec fn default_color() -> Seq<char> {
    "ffffff"@
}

/// The application name Toggl is told a time entry was created with.
pub open spec fn toggl_created_with() -> Seq<char> {
    "cosmic-ext-time-tracker"@
}

/// A Toggl project as the API gives it.
#[derive(Debug)]
pub struct TogglProject {
    pub id: i64,
    pub name: String,
    pub workspace_id: i64,
    pub color: String,
}

/// A Toggl workspace as the API gives it.
#[derive(Debug)]
pub struct TogglWorkspace {
    pub id: i64,
    pub name: String,
    pub active_project_count: i64,
}

/// A Toggl tag as the API gives it.
#[derive(Debug)]
pub struct TogglTag {
    pub id: i64,
    pub name: String,
    pub workspace_id: i64,
}

/// A Toggl time entry as the API gives it.
#[derive(Debug)]
pub struct TogglTimeEntry {
    pub id: i64,
    pub workspace_id: i64,
    pub project_id: Option<i64>,
    pub billable: bool,
    pub description: Option<String>,
    pub start: Timestamp,
    pub stop: Option<Timestamp>,
}

/// The scope a Toggl workspace stands for.
pub open spec fn workspace_scope(w: &TogglWorkspace) -> ScopeView {
    ScopeView { id: ApiIdView::Int(w.id), name: w.name@, color: default_color() }
}

/// The project a Toggl project stands for.
pub open spec fn toggl_project_view(p: &TogglProject) -> ProjectView {
    ProjectView {
        id: ApiIdView::Int(p.id),
        scope_id: ApiIdView::Int(p.workspace_id),
        name: p.name@,
        color: p.color@,
    }
}

/// The time entry a Toggl time entry stands for.
pub open spec fn toggl_entry_view(e: &TogglTimeEntry) -> TimeEntryView {
    TimeEntryView {
        id: ApiIdView::Int(e.id),
        scope_id: Some(ApiIdView::Int(e.workspace_id)),
        project_id: match e.project_id {
            Some(p) => Some(ApiIdView::Int(p)),
            None => None,
        },
        billable: e.billable,
        description: opt_text_view(&e.description),
        start_time: e.start,
        stop_time: e.stop,
    }
}

impl TogglWorkspace {
    /// The scope this workspace stands for; Toggl workspaces have no colour.
    pub fn into_scope(self) -> (s: Scope)
        ensures
            s@ == workspace_scope(&self),
    {
        Scope { id: ApiId::Int(self.id), name: self.name, color: String::from_str("ffffff") }
    }
}

impl TogglProject {
    /// The project this Toggl project stands for.
    pub fn into_project(self) -> (p: Project)
        ensures
            p@ == toggl_project_view(&self),
    {
        Project {
            id: ApiId::Int(self.id),
            scope_id: ApiId::Int(self.workspace_id),
            name: self.name,
            color: self.color,
        }
    }
}

impl TogglTimeEntry {
    /// The time entry this Toggl time entry stands for.
    pub fn into_time_entry(self) -> (t: TimeEntry)
        ensures
            t@ == toggl_entry_view(&self),
            t@.id == ApiIdView::Int(self.id),
            t@.scope_id == Some(ApiIdView::Int(self.workspace_id)),
            match self.project_id {
                Some(p) => t@.project_id == Some(ApiIdView::Int(p)),
                None => t@.project_id is None,
            },
            t.billable == self.billable,
            opt_text_view(&t.description) == opt_text_view(&self.description),
            t.start_time == self.start,
            t.stop_time == self.stop,
    {
        let project_id = match self.project_id {
            Some(p) => Some(ApiId::Int(p)),
            None => None,
        };
        TimeEntry {
            id: ApiId::Int(self.id),
            scope_id: Some(ApiId::Int(self.workspace_id)),
            project_id,
            billable: self.billable,
            description: self.description,
            start_time: self.start,
            stop_time: self.stop,
        }
    }
}

/// The scopes a list of Toggl workspaces stands for, in order.
pub fn scopes_from_workspaces(workspaces: Vec<TogglWorkspace>) -> (r: Vec<Scope>)
    ensures
        r@.len() == workspaces@.len(),
        forall|i: int| 0 <= i < r@.len() ==> #[trigger] r@[i]@ == workspace_scope(&workspaces@[i]),
{
    broadcast use vstd::std_specs::vec::axiom_spec_into_iter;
    let ghost input = workspaces@;
    let mut out: Vec<Scope> = Vec::new();
    for w in it: workspaces.into_iter()
        invariant
            it.seq() == input,
            out@.len() == it.index(),
            forall|i: int| 0 <= i < out@.len() ==> #[trigger] out@[i]@ == workspace_scope(&input[i]),
    {
        out.push(w.into_scope());
    }
    out
}

/// The projects a list of Toggl projects stands for, in order.
pub fn projects_from_toggl(projects: Vec<TogglProject>) -> (r: Vec<Project>)
    ensures
        r@.len() == projects@.len(),
        forall|i: int| 0 <= i < r@.len() ==> #[trigger] r@[i]@ == toggl_project_view(&projects@[i]),
{
    broadcast use vstd::std_specs::vec::axiom_spec_into_iter;
    let ghost input = projects@;
    let mut out: Vec<Project> = Vec::new();
    for p in it: projects.into_iter()
        invariant
            it.seq() == input,
            out@.len() == it.index(),
            forall|i: int| 0 <= i < out@.len() ==> #[trigger] out@[i]@ == toggl_project_view(&input[i]),
    {
        out.push(p.into_project());
    }
    out
}

/// The running time entry, from Toggl's answer (which is `null` when no entry runs).
pub fn current_time_entry_from_toggl(answer: Option<TogglTimeEntry>) -> (r: Option<TimeEntry>)
    ensures
        answer is None <==> r is None,
        r matches Some(t) ==> t@ == toggl_entry_view(&answer.unwrap()),
        r matches Some(t) ==> {
            let e = answer.unwrap();
            &&& t@.id == ApiIdView::Int(e.id)
            &&& t@.scope_id == Some(ApiIdView::Int(e.workspace_id))
            &&& match e.project_id {
                Some(p) => t@.project_id == Some(ApiIdView::Int(p)),
                None => t@.project_id is None,
            }
            &&& t.billable == e.billable
            &&& opt_text_view(&t.description) == opt_text_view(&e.description)
            &&& t.start_time == e.start
            &&& t.stop_time == e.stop
        },
{
    match answer {
        Some(entry) => Some(entry.into_time_entry()),
        None => None,
    }
}

/// A session with Toggl Track, authenticated by an API token.
#[derive(Debug)]
pub struct TogglClient {
    pub api_key: String,
}

/// The credentials Toggl is sent: the token as user, `api_token` as password.
pub open spec fn toggl_credentials_ok(c: &Credentials, api_key: Seq<char>) -> bool {
    c matches Credentials::Basic { user, password } && user@ == api_key && password@ == "api_token"@
}

/// A request to Toggl with the given method, address below the API root, and body.
pub open spec fn toggl_request(r: &Request, api_key: Seq<char>, method: Method, path: Seq<char>) -> bool {
    &&& r.method == method
    &&& r.url@ == toggl_api() + path
    &&& toggl_credentials_ok(&r.credentials, api_key)
}

/// The address of a time entry below the API root.
pub open spec fn toggl_entry_path(workspace: ApiIdView, entry: ApiIdView) -> Seq<char> {
    "/workspaces/"@ + api_id_text(workspace) + "/time_entries/"@ + api_id_text(entry)
}

/// Whether an HTTP status code means success (`StatusCode::is_success`: 200 to 299).
pub open spec fn is_success_status(status: u16) -> bool {
    200 <= status <= 299
}

/// Whether an HTTP status code means success (200 to 299).
pub fn status_is_success(status: u16) -> (b: bool)
    ensures
        b == is_success_status(status),
{
    200 <= status && status <= 299
}

impl TogglClient {
    /// A session for the given API token, not yet checked with the service.
    pub fn new(api_key: String) -> (c: TogglClient)
        ensures
            c.api_key@ == api_key@,
    {
        TogglClient { api_key }
    }

    /// The session, once the service has answered the authentication check:
    /// `Err(NotAuthorized)` unless the service accepted the token.
    pub fn confirm_authentication(self, authorized: bool) -> (r: Result<TogglClient, Error>)
        ensures
            authorized ==> (r matches Ok(c) && c.api_key@ == self.api_key@),
            !authorized ==> r matches Err(Error::NotAuthorized),
    {
        if authorized {
            Ok(self)
        } else {
            Err(Error::NotAuthorized)
        }
    }

    fn credentials(&self) -> (c: Credentials)
        ensures
            toggl_credentials_ok(&c, self.api_key@),
    {
        Credentials::Basic { user: self.api_key.clone(), password: String::from_str("api_token") }
    }

    fn get(&self, path: &str) -> (r: Request)
        ensures
            toggl_request(&r, self.api_key@, Method::Get, path@),
            r.body is Empty,
    {
        let mut url = String::from_str("https://api.track.toggl.com/api/v9");
        url.append(path);
        Request { method: Method::Get, url, credentials: self.credentials(), body: RequestBody::Empty }
    }

    /// The request that checks the token (`GET /me/logged`).
    pub fn validate_authentication_request(&self) -> (r: Request)
        ensures
            toggl_request(&r, self.api_key@, Method::Get, "/me/logged"@),
            r.body is Empty,
    {
        self.get("/me/logged")
    }

    /// The request for the running time entry (`GET /me/time_entries/current`).
    pub fn current_time_entry_request(&self) -> (r: Request)
        ensures
            toggl_request(&r, self.api_key@, Method::Get, "/me/time_entries/current"@),
            r.body is Empty,
    {
        self.get("/me/time_entries/current")
    }

    /// The request for all workspaces (`GET /me/workspaces`).
    pub fn all_scopes_request(&self) -> (r: Request)
        ensures
            toggl_request(&r, self.api_key@, Method::Get, "/me/workspaces"@),
            r.body is Empty,
    {
        self.get("/me/workspaces")
    }

    /// The request for all projects (`GET /me/projects`).
    pub fn all_projects_request(&self) -> (r: Request)
        ensures
            toggl_request(&r, self.api_key@, Method::Get, "/me/projects"@),
            r.body is Empty,
    {
        self.get("/me/projects")
    }

    fn entry_url(workspace: &ApiId, entry: &ApiId) -> (url: String)
        ensures
            url@ == toggl_api() + toggl_entry_path(workspace@, entry@),
    {
        let mut url = String::from_str("https://api.track.toggl.com/api/v9");
        url.append("/workspaces/");
        url.append(workspace.to_string().as_str());
        url.append("/time_entries/");
        url.append(entry.to_string().as_str());
        proof {
            assert(url@ =~= toggl_api() + toggl_entry_path(workspace@, entry@));
        }
        url
    }

    /// The request that stops a time entry (`PATCH .../time_entries/{id}/stop`);
    /// an entry without a workspace cannot be addressed.
    pub fn stop_time_entry_request(&self, time_entry: &TimeEntry) -> (r: Result<Request, Error>)
        ensures
            time_entry.scope_id is None <==> r is Err,
            r matches Err(e) ==> e matches Error::MissingRequiredField(f) && f@ == "Workspace ID"@,
            r matches Ok(req) ==> {
                &&& toggl_request(&req, self.api_key@, Method::Patch,
                    toggl_entry_path(time_entry.scope_id.unwrap()@, time_entry.id@) + "/stop"@)
                &&& req.body is Empty
            },
    {
        match &time_entry.scope_id {
            None => Err(Error::MissingRequiredField(String::from_str("Workspace ID"))),
            Some(workspace) => {
                let mut url = Self::entry_url(workspace, &time_entry.id);
                url.append("/stop");
                proof {
                    assert(url@ =~= toggl_api() + (toggl_entry_path(workspace@, time_entry.id@) + "/stop"@));
                }
                Ok(Request { method: Method::Patch, url, credentials: self.credentials(), body: RequestBody::Empty })
            },
        }
    }

    /// The request that starts a time entry in the entry's workspace and
    /// project, stamped with the time `now`; an entry without a workspace
    /// cannot be started.
    pub fn start_time_entry_request_at(
        &self,
        time_entry: &TimeEntry,
        description: Option<String>,
        now: &Timestamp,
    ) -> (r: Result<Request, Error>)
        ensures
            time_entry.scope_id is None <==> r is Err,
            r matches Err(e) ==> e matches Error::MissingRequiredField(f) && f@ == "Workspace ID"@,
            r matches Ok(req) ==> {
                &&& toggl_request(&req, self.api_key@, Method::Post,
                    "/workspaces/"@ + api_id_text(time_entry.scope_id.unwrap()@) + "/time_entries"@)
                &&& req.body matches RequestBody::TogglStart { workspace_id, project_id, description: d, created_with, start }
                &&& workspace_id@ == time_entry.scope_id.unwrap()@
                &&& opt_id_view(&project_id) == opt_id_view(&time_entry.project_id)
                &&& opt_text_view(&d) == opt_text_view(&description)
                &&& created_with@ == toggl_created_with()
                &&& start@ == rfc3339_text(now.unix_seconds(), now.subsec_nanos())
            },
    {
        match &time_entry.scope_id {
            None => Err(Error::MissingRequiredField(String::from_str("Workspace ID"))),
            Some(workspace) => {
                let mut url = String::from_str("https://api.track.toggl.com/api/v9");
                url.append("/workspaces/");
                url.append(workspace.to_string().as_str());
                url.append("/time_entries");
                proof {
                    assert(url@ =~= toggl_api() + ("/workspaces/"@ + api_id_text(workspace@) + "/time_entries"@));
                }
                let body = RequestBody::TogglStart {
                    workspace_id: workspace.duplicate(),
                    project_id: duplicate_id(&time_entry.project_id),
                    description,
                    created_with: String::from_str("cosmic-ext-time-tracker"),
                    start: now.to_rfc3339(),
                };
                Ok(Request { method: Method::Post, url, credentials: self.credentials(), body })
            },
        }
    }

    /// The request that starts a time entry at the current time; see
    /// [`TogglClient::start_time_entry_request_at`].
    pub fn start_time_entry_request(&self, time_entry: &TimeEntry, description: Option<String>) -> (r: Result<Request, Error>)
        ensures
            time_entry.scope_id is None ==> (r matches Err(Error::MissingRequiredField(f)) && f@ == "Workspace ID"@),
            time_entry.scope_id is Some ==> (r is Ok || r matches Err(Error::ClockOutOfRange)),
            r matches Ok(req) ==> {
                &&& toggl_request(&req, self.api_key@, Method::Post,
                    "/workspaces/"@ + api_id_text(time_entry.scope_id.unwrap()@) + "/time_entries"@)
                &&& req.body matches RequestBody::TogglStart { workspace_id, project_id, description: d, created_with, start }
                &&& workspace_id@ == time_entry.scope_id.unwrap()@
                &&& opt_id_view(&project_id) == opt_id_view(&time_entry.project_id)
                &&& opt_text_view(&d) == opt_text_view(&description)
                &&& created_with@ == toggl_created_with()
                &&& exists|secs: int, nanos: int| Timestamp::valid_parts(secs, nanos) && start@ == rfc3339_text(secs, nanos)
            },
    {
        if time_entry.scope_id.is_none() {
            return Err(Error::MissingRequiredField(String::from_str("Workspace ID")));
        }
        match current_time() {
            Some(now) => {
                let r = self.start_time_entry_request_at(time_entry, description, &now);
                proof {
                    if let Ok(req) = &r {
                        if let RequestBody::TogglStart { start, .. } = &req.body {
                            assert(Timestamp::valid_parts(now.unix_seconds(), now.subsec_nanos())
                                && start@ == rfc3339_text(now.unix_seconds(), now.subsec_nanos()));
                        }
                    }
                }
                r
            },
            None => Err(Error::ClockOutOfRange),
        }
    }

    /// The request that changes a time entry to the given fields
    /// (`PUT .../time_entries/{id}`); an entry without a workspace cannot be addressed.
    pub fn update_time_entry_request(&self, time_entry: &TimeEntry, update: &TimeEntryUpdate) -> (r: Result<Request, Error>)
        ensures
            time_entry.scope_id is None <==> r is Err,
            r matches Err(e) ==> e matches Error::MissingRequiredField(f) && f@ == "Workspace ID"@,
            r matches Ok(req) ==> {
                &&& toggl_request(&req, self.api_key@, Method::Put,
                    toggl_entry_path(time_entry.scope_id.unwrap()@, time_entry.id@))
                &&& req.body matches RequestBody::TogglUpdate { start, stop, description, billable }
                &&& start == update.start_time
                &&& stop == update.stop_time
                &&& opt_text_view(&description) == opt_text_view(&update.description)
                &&& billable == update.billable
            },
    {
        match &time_entry.scope_id {
            None => Err(Error::MissingRequiredField(String::from_str("Workspace ID"))),
            Some(workspace) => {
                let url = Self::entry_url(workspace, &time_entry.id);
                let body = RequestBody::TogglUpdate {
                    start: update.start_time,
                    stop: update.stop_time,
                    description: duplicate_text(&update.description),
                    billable: update.billable,
                };
                Ok(Request { method: Method::Put, url, credentials: self.credentials(), body })
            },
        }
    }
}

/// A Toggl time entry read into the model keeps what it says: its id, its
/// workspace as the scope, its project exactly when it has one, whether it
/// is billable, its description and its start and stop.
pub proof fn toggl_entry_keeps_its_fields(e: TogglTimeEntry)
    ensures
        toggl_entry_view(&e).id == ApiIdView::Int(e.id),
        toggl_entry_view(&e).scope_id == Some(ApiIdView::Int(e.workspace_id)),
        forall|p: i64| toggl_entry_view(&e).project_id == Some(ApiIdView::Int(p)) <==> e.project_id == Some(p),
        toggl_entry_view(&e).project_id is None <==> e.project_id is None,
        toggl_entry_view(&e).billable == e.billable,
        toggl_entry_view(&e).description == opt_text_view(&e.description),
        toggl_entry_view(&e).start_time == e.start,
        toggl_entry_view(&e).stop_time == e.stop,
{
}

} // verus!
