use vstd::prelude::*;
use vstd::string::StringExecFns;

use crate::clock::current_time;
use crate::error::Error;
use crate::models::{
    api_id_text, duplicate_text, opt_text_view, rfc3339_text, ApiId, ApiIdView, Project,
    ProjectView, Scope, ScopeView, TimeEntry, TimeEntryUpdate, TimeEntryView, Timestamp,
};
use crate::request::{join_url, joined_url, parse_url, parsed_url, Credentials, Method, Request, RequestBody};

verus! {

broadcast use vstd::string::group_string_axioms;

/// A Kimai project as the API gives it (a scope here).
#[derive(Debug)]
pub struct KimaiProject {
    pub id: i64,
    pub name: String,
    pub color: Option<String>,
}

/// A Kimai activity as the API gives it (a project here).
#[derive(Debug)]
pub struct KimaiActivity {
    pub id: i64,
    pub name: String,
    pub project_id: i64,
    pub color: Option<String>,
}

/// A Kimai activity with its project written out.
#[derive(Debug)]
pub struct KimaiActivityExpanded {
    pub id: i64,
    pub name: String,
    pub project: KimaiProject,
    pub color: Option<String>,
}

/// A Kimai timesheet as the API gives it.
#[derive(Debug)]
pub struct KimaiTimeEntry {
    pub id: i64,
    pub activity_id: i64,
    pub project_id: i64,
    pub billable: bool,
    pub description: Option<String>,
    pub begin: Timestamp,
    pub end: Option<Timestamp>,
}

/// A Kimai timesheet with its activity and project written out.
#[derive(Debug)]
pub struct KimaiTimeEntryExpanded {
    pub id: i64,
    pub activity: KimaiActivityExpanded,
    pub project: KimaiProject,
    pub billable: bool,
    pub description: Option<String>,
    pub begin: Timestamp,
    pub end: Option<Timestamp>,
}

/// A colour, or white where the service gives none.
pub open spec fn color_or_white(c: &Option<String>) -> Seq<char> {
    match c {
        Some(s) => s@,
        None => "ffffff"@,
    }
}

/// The scope a Kimai project stands for.
pub open spec fn kimai_project_scope(p: &KimaiProject) -> ScopeView {
    ScopeView { id: ApiIdView::Int(p.id), name: p.name@, color: color_or_white(&p.color) }
}

/// The project a Kimai activity stands for.
pub open spec fn kimai_activity_project(a: &KimaiActivity) -> ProjectView {
    ProjectView {
        id: ApiIdView::Int(a.id),
        scope_id: ApiIdView::Int(a.project_id),
        name: a.name@,
        color: color_or_white(&a.color),
    }
}

/// The time entry a Kimai timesheet stands for: its project is the scope, its activity the project.
pub open spec fn kimai_entry_view(e: &KimaiTimeEntry) -> TimeEntryView {
    TimeEntryView {
        id: ApiIdView::Int(e.id),
        scope_id: Some(ApiIdView::Int(e.project_id)),
        project_id: Some(ApiIdView::Int(e.activity_id)),
        billable: e.billable,
        description: opt_text_view(&e.description),
        start_time: e.begin,
        stop_time: e.end,
    }
}

/// The time entry an expanded Kimai timesheet stands for.
pub open spec fn kimai_expanded_entry_view(e: &KimaiTimeEntryExpanded) -> TimeEntryView {
    TimeEntryView {
        id: ApiIdView::Int(e.id),
        scope_id: Some(ApiIdView::Int(e.project.id)),
        project_id: Some(ApiIdView::Int(e.activity.id)),
        billable: e.billable,
        description: opt_text_view(&e.description),
        start_time: e.begin,
        stop_time: e.end,
    }
}

fn color_or_white_exec(c: Option<String>) -> (r: String)
    ensures
        r@ == color_or_white(&c),
{
    match c {
        Some(s) => s,
        None => String::from_str("ffffff"),
    }
}

impl KimaiProject {
    /// The scope this Kimai project stands for; white where it has no colour.
    pub fn into_scope(self) -> (s: Scope)
        ensures
            s@ == kimai_project_scope(&self),
    {
        Scope { id: ApiId::Int(self.id), name: self.name, color: color_or_white_exec(self.color) }
    }
}

impl KimaiActivity {
    /// The project this Kimai activity stands for; white where it has no colour.
    pub fn into_project(self) -> (p: Project)
        ensures
            p@ == kimai_activity_project(&self),
    {
        Project {
            id: ApiId::Int(self.id),
            scope_id: ApiId::Int(self.project_id),
            name: self.name,
            color: color_or_white_exec(self.color),
        }
    }
}

impl KimaiTimeEntry {
    /// The time entry this timesheet stands for.
    pub fn into_time_entry(self) -> (t: TimeEntry)
        ensures
            t@ == kimai_entry_view(&self),
            t@.id == ApiIdView::Int(self.id),
            t@.scope_id == Some(ApiIdView::Int(self.project_id)),
            t@.project_id == Some(ApiIdView::Int(self.activity_id)),
            t.billable == self.billable,
            opt_text_view(&t.description) == opt_text_view(&self.description),
            t.start_time == self.begin,
            t.stop_time == self.end,
    {
        TimeEntry {
            id: ApiId::Int(self.id),
            scope_id: Some(ApiId::Int(self.project_id)),
            project_id: Some(ApiId::Int(self.activity_id)),
            billable: self.billable,
            description: self.description,
            start_time: self.begin,
            stop_time: self.end,
        }
    }
}

/// The scopes a list of Kimai projects stands for, in order.
pub fn scopes_from_kimai(projects: Vec<KimaiProject>) -> (r: Vec<Scope>)
    ensures
        r@.len() == projects@.len(),
        forall|i: int| 0 <= i < r@.len() ==> #[trigger] r@[i]@ == kimai_project_scope(&projects@[i]),
{
    broadcast use vstd::std_specs::vec::axiom_spec_into_iter;
    let ghost input = projects@;
    let mut out: Vec<Scope> = Vec::new();
    for p in it: projects.into_iter()
        invariant
            it.seq() == input,
            out@.len() == it.index(),
            forall|i: int| 0 <= i < out@.len() ==> #[trigger] out@[i]@ == kimai_project_scope(&input[i]),
    {
        out.push(p.into_scope());
    }
    out
}

/// The projects a list of Kimai activities stands for, in order.
pub fn projects_from_kimai(activities: Vec<KimaiActivity>) -> (r: Vec<Project>)
    ensures
        r@.len() == activities@.len(),
        forall|i: int| 0 <= i < r@.len() ==> #[trigger] r@[i]@ == kimai_activity_project(&activities@[i]),
{
    broadcast use vstd::std_specs::vec::axiom_spec_into_iter;
    let ghost input = activities@;
    let mut out: Vec<Project> = Vec::new();
    for a in it: activities.into_iter()
        invariant
            it.seq() == input,
            out@.len() == it.index(),
            forall|i: int| 0 <= i < out@.len() ==> #[trigger] out@[i]@ == kimai_activity_project(&input[i]),
    {
        out.push(a.into_project());
    }
    out
}

/// The running time entry, from Kimai's list of active timesheets: the first one, if any.
pub fn current_time_entry_from_kimai(active: Vec<KimaiTimeEntryExpanded>) -> (r: Option<TimeEntry>)
    ensures
        active@.len() == 0 <==> r is None,
        r matches Some(t) ==> t@ == kimai_expanded_entry_view(&active@[0]),
        r matches Some(t) ==> {
            let e = active@[0];
            &&& t@.id == ApiIdView::Int(e.id)
            &&& t@.scope_id == Some(ApiIdView::Int(e.project.id))
            &&& t@.project_id == Some(ApiIdView::Int(e.activity.id))
            &&& t.billable == e.billable
            &&& opt_text_view(&t.description) == opt_text_view(&e.description)
            &&& t.start_time == e.begin
            &&& t.stop_time == e.end
        },
{
    if active.len() == 0 {
        None
    } else {
        let first = &active[0];
        let entry = KimaiTimeEntry {
            id: first.id,
            project_id: first.project.id,
            activity_id: first.activity.id,
            billable: first.billable,
            description: duplicate_text(&first.description),
            begin: first.begin,
            end: first.end,
        };
        Some(entry.into_time_entry())
    }
}

/// A session with a Kimai server, authenticated by an API token.
#[derive(Debug)]
pub struct KimaiClient {
    api_key: String,
    base_url: String,
}

/// A request to Kimai with the given method at the given reference resolved against the server's URL.
pub open spec fn kimai_request(r: &Request, client: &KimaiClient, method: Method, reference: Seq<char>) -> bool {
    &&& r.method == method
    &&& joined_url(client.base_url_text(), reference) == Some(r.url@)
    &&& r.credentials matches Credentials::Bearer(token) && token@ == client.api_key_text()
}

/// The outcome of building a Kimai request: `InvalidURL` exactly when the
/// reference does not resolve against the server's URL.
pub open spec fn kimai_request_outcome(
    r: &Result<Request, Error>,
    client: &KimaiClient,
    method: Method,
    reference: Seq<char>,
) -> bool {
    match r {
        Ok(req) => kimai_request(req, client, method, reference),
        Err(e) => e is InvalidURL && joined_url(client.base_url_text(), reference) is None,
    }
}

impl KimaiClient {
    #[verifier::type_invariant]
    spec fn base_url_parses(self) -> bool {
        parsed_url(self.base_url@) is Some
    }

    /// The API token.
    pub closed spec fn api_key_text(&self) -> Seq<char> {
        self.api_key@
    }

    /// The server's URL, as the user gave it.
    pub closed spec fn base_url_text(&self) -> Seq<char> {
        self.base_url@
    }

    /// A session for the given token and server, not yet checked with the
    /// server: `InvalidURL` when `base_url` is not a URL.
    pub fn new(api_key: String, base_url: &str) -> (r: Result<KimaiClient, Error>)
        ensures
            r is Ok <==> parsed_url(base_url@) is Some,
            r matches Ok(c) ==> c.api_key_text() == api_key@ && c.base_url_text() == base_url@,
            r matches Err(e) ==> e is InvalidURL,
    {
        match parse_url(base_url) {
            Ok(_) => Ok(KimaiClient { api_key, base_url: String::from_str(base_url) }),
            Err(e) => Err(Error::InvalidURL(e)),
        }
    }

    /// The session, once the server has answered the authentication check:
    /// `Err(NotAuthorized)` unless the service accepted the token.
    pub fn confirm_authentication(self, authorized: bool) -> (r: Result<KimaiClient, Error>)
        ensures
            authorized ==> (r matches Ok(c) && c.api_key_text() == self.api_key_text()
                && c.base_url_text() == self.base_url_text()),
            !authorized ==> r matches Err(Error::NotAuthorized),
    {
        if authorized {
            Ok(self)
        } else {
            Err(Error::NotAuthorized)
        }
    }

    fn request(&self, method: Method, reference: &str, body: RequestBody) -> (r: Result<Request, Error>)
        ensures
            kimai_request_outcome(&r, self, method, reference@),
            r matches Ok(req) ==> req.body == body,
    {
        proof {
            use_type_invariant(self);
        }
        match join_url(self.base_url.as_str(), reference) {
            Ok(url) => Ok(Request { method, url, credentials: Credentials::Bearer(self.api_key.clone()), body }),
            Err(e) => Err(Error::InvalidURL(e)),
        }
    }

    /// The request that checks the token (`GET api/users/me`).
    pub fn validate_authentication_request(&self) -> (r: Result<Request, Error>)
        ensures
            kimai_request_outcome(&r, self, Method::Get, "api/users/me"@),
            r matches Ok(req) ==> req.body is Empty,
    {
        self.request(Method::Get, "api/users/me", RequestBody::Empty)
    }

    /// The request for the active timesheets (`GET api/timesheets/active`).
    pub fn current_time_entry_request(&self) -> (r: Result<Request, Error>)
        ensures
            kimai_request_outcome(&r, self, Method::Get, "api/timesheets/active"@),
            r matches Ok(req) ==> req.body is Empty,
    {
        self.request(Method::Get, "api/timesheets/active", RequestBody::Empty)
    }

    /// The request for all projects, the scopes here (`GET api/projects`).
    pub fn all_scopes_request(&self) -> (r: Result<Request, Error>)
        ensures
            kimai_request_outcome(&r, self, Method::Get, "api/projects"@),
            r matches Ok(req) ==> req.body is Empty,
    {
        self.request(Method::Get, "api/projects", RequestBody::Empty)
    }

    /// The request for all activities, the projects here (`GET api/activities`).
    pub fn all_projects_request(&self) -> (r: Result<Request, Error>)
        ensures
            kimai_request_outcome(&r, self, Method::Get, "api/activities"@),
            r matches Ok(req) ==> req.body is Empty,
    {
        self.request(Method::Get, "api/activities", RequestBody::Empty)
    }

    /// The request that stops a timesheet (`PATCH /api/timesheets/{id}/stop`).
    pub fn stop_time_entry_request(&self, time_entry: &TimeEntry) -> (r: Result<Request, Error>)
        ensures
            kimai_request_outcome(&r, self, Method::Patch,
                "/api/timesheets/"@ + api_id_text(time_entry.id@) + "/stop"@),
            r matches Ok(req) ==> req.body is Empty,
    {
        let mut reference = String::from_str("/api/timesheets/");
        reference.append(time_entry.id.to_string().as_str());
        reference.append("/stop");
        self.request(Method::Patch, reference.as_str(), RequestBody::Empty)
    }

    /// The request that starts a timesheet on the entry's scope (a Kimai
    /// project) and project (a Kimai activity), stamped with the time `now`.
    /// Both are needed: the scope is checked first.
    pub fn start_time_entry_request_at(
        &self,
        time_entry: &TimeEntry,
        description: Option<String>,
        now: &Timestamp,
    ) -> (r: Result<Request, Error>)
        ensures
            time_entry.scope_id is None ==> (r matches Err(Error::MissingRequiredField(f)) && f@ == "Workspace ID"@),
            time_entry.scope_id is Some && time_entry.project_id is None ==>
                (r matches Err(Error::MissingRequiredField(f)) && f@ == "Project ID"@),
            time_entry.scope_id is Some && time_entry.project_id is Some ==> {
                &&& kimai_request_outcome(&r, self, Method::Post, "/api/timesheets"@)
                &&& r matches Ok(req) ==> {
                    &&& req.body matches RequestBody::KimaiStart { project, activity, description: d, begin }
                    &&& project@ == time_entry.scope_id.unwrap()@
                    &&& activity@ == time_entry.project_id.unwrap()@
                    &&& opt_text_view(&d) == opt_text_view(&description)
                    &&& begin@ == rfc3339_text(now.unix_seconds(), now.subsec_nanos())
                }
            },
    {
        let project = match &time_entry.scope_id {
            Some(p) => p,
            None => {
                return Err(Error::MissingRequiredField(String::from_str("Workspace ID")));
            },
        };
        let activity = match &time_entry.project_id {
            Some(a) => a,
            None => {
                return Err(Error::MissingRequiredField(String::from_str("Project ID")));
            },
        };
        let body = RequestBody::KimaiStart {
            project: project.duplicate(),
            activity: activity.duplicate(),
            description,
            begin: now.to_rfc3339(),
        };
        self.request(Method::Post, "/api/timesheets", body)
    }

    /// The request that starts a timesheet at the current time; see
    /// [`KimaiClient::start_time_entry_request_at`].
    pub fn start_time_entry_request(&self, time_entry: &TimeEntry, description: Option<String>) -> (r: Result<Request, Error>)
        ensures
            time_entry.scope_id is None ==> (r matches Err(Error::MissingRequiredField(f)) && f@ == "Workspace ID"@),
            time_entry.scope_id is Some && time_entry.project_id is None ==>
                (r matches Err(Error::MissingRequiredField(f)) && f@ == "Project ID"@),
            time_entry.scope_id is Some && time_entry.project_id is Some ==>
                (r matches Err(Error::ClockOutOfRange) || kimai_request_outcome(&r, self, Method::Post, "/api/timesheets"@)),
            r matches Ok(req) ==> {
                &&& kimai_request(&req, self, Method::Post, "/api/timesheets"@)
                &&& req.body matches RequestBody::KimaiStart { project, activity, description: d, begin }
                &&& project@ == time_entry.scope_id.unwrap()@
                &&& activity@ == time_entry.project_id.unwrap()@
                &&& opt_text_view(&d) == opt_text_view(&description)
                &&& exists|secs: int, nanos: int| Timestamp::valid_parts(secs, nanos) && begin@ == rfc3339_text(secs, nanos)
            },
    {
        if time_entry.scope_id.is_none() {
            return Err(Error::MissingRequiredField(String::from_str("Workspace ID")));
        }
        if time_entry.project_id.is_none() {
            return Err(Error::MissingRequiredField(String::from_str("Project ID")));
        }
        match current_time() {
            Some(now) => {
                let r = self.start_time_entry_request_at(time_entry, description, &now);
                proof {
                    if let Ok(req) = &r {
                        if let RequestBody::KimaiStart { begin, .. } = &req.body {
                            assert(Timestamp::valid_parts(now.unix_seconds(), now.subsec_nanos())
                                && begin@ == rfc3339_text(now.unix_seconds(), now.subsec_nanos()));
                        }
                    }
                }
                r
            },
            None => Err(Error::ClockOutOfRange),
        }
    }

    /// The request that changes a timesheet to the given fields (`PATCH /api/timesheets/{id}`).
    pub fn update_time_entry_request(&self, time_entry: &TimeEntry, update: &TimeEntryUpdate) -> (r: Result<Request, Error>)
        ensures
            kimai_request_outcome(&r, self, Method::Patch, "/api/timesheets/"@ + api_id_text(time_entry.id@)),
            r matches Ok(req) ==> {
                &&& req.body matches RequestBody::KimaiUpdate { begin, end, description, billable }
                &&& begin == update.start_time
                &&& end == update.stop_time
                &&& opt_text_view(&description) == opt_text_view(&update.description)
                &&& billable == update.billable
            },
    {
        let mut reference = String::from_str("/api/timesheets/");
        reference.append(time_entry.id.to_string().as_str());
        let body = RequestBody::KimaiUpdate {
            begin: update.start_time,
            end: update.stop_time,
            description: duplicate_text(&update.description),
            billable: update.billable,
        };
        self.request(Method::Patch, reference.as_str(), body)
    }
}

/// A Kimai timesheet read into the model keeps what it says: its id, its
/// project as the scope, its activity as the project, whether it is
/// billable, its description and its begin and end; the same holds of a
/// timesheet with its project and activity written out.
pub proof fn kimai_timesheet_keeps_its_fields(e: KimaiTimeEntry, x: KimaiTimeEntryExpanded)
    ensures
        kimai_entry_view(&e).id == ApiIdView::Int(e.id),
        kimai_entry_view(&e).scope_id == Some(ApiIdView::Int(e.project_id)),
        kimai_entry_view(&e).project_id == Some(ApiIdView::Int(e.activity_id)),
        kimai_entry_view(&e).billable == e.billable,
        kimai_entry_view(&e).description == opt_text_view(&e.description),
        kimai_entry_view(&e).start_time == e.begin,
        kimai_entry_view(&e).stop_time == e.end,
        kimai_expanded_entry_view(&x).id == ApiIdView::Int(x.id),
        kimai_expanded_entry_view(&x).scope_id == Some(ApiIdView::Int(x.project.id)),
        kimai_expanded_entry_view(&x).project_id == Some(ApiIdView::Int(x.activity.id)),
        kimai_expanded_entry_view(&x).billable == x.billable,
        kimai_expanded_entry_view(&x).description == opt_text_view(&x.description),
        kimai_expanded_entry_view(&x).start_time == x.begin,
        kimai_expanded_entry_view(&x).stop_time == x.end,
{
}

} // verus!
