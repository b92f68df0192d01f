use vstd::prelude::*;

use crate::models::{opt_text_view, ApiId, ApiIdView, Integration, Project, Scope, TimeEntry, TimeEntryView, Timestamp};

verus! {

/// What the shell asks to start: a scope, an optional project, an optional description.
#[derive(Debug)]
pub struct StartEntryData {
    pub scope_id: String,
    pub project_id: Option<String>,
    pub description: Option<String>,
}

/// A request from the shell panel, read from one line of standard input.
#[derive(Debug)]
pub enum BackendMessage {
    GetCurrentEntry,
    StopEntry(TimeEntry),
    StartEntry(StartEntryData),
    GetAllIntegrations,
    GetAllScopes,
    GetAllProjects,
}

/// The name a request travels under, in both directions.
pub open spec fn message_name(m: &BackendMessage) -> Seq<char> {
    match m {
        BackendMessage::GetCurrentEntry => "get_current_time_entry"@,
        BackendMessage::StopEntry(_) => "stop_current_time_entry"@,
        BackendMessage::StartEntry(_) => "start_time_entry"@,
        BackendMessage::GetAllIntegrations => "get_all_integrations"@,
        BackendMessage::GetAllScopes => "get_all_scopes"@,
        BackendMessage::GetAllProjects => "get_all_projects"@,
    }
}

impl BackendMessage {
    /// The name this request travels under; answers are sent under the same name.
    pub fn as_name(&self) -> (s: &'static str)
        ensures
            s@ == message_name(self),
    {
        match self {
            BackendMessage::GetCurrentEntry => "get_current_time_entry",
            BackendMessage::StopEntry(_) => "stop_current_time_entry",
            BackendMessage::StartEntry(_) => "start_time_entry",
            BackendMessage::GetAllIntegrations => "get_all_integrations",
            BackendMessage::GetAllScopes => "get_all_scopes",
            BackendMessage::GetAllProjects => "get_all_projects",
        }
    }
}

/// What the backend asks of its Kimai session for a request, if anything.
#[derive(Debug)]
pub enum BackendCall {
    /// Ask for the running entry.
    FetchCurrentEntry,
    /// Stop this entry.
    StopEntry(TimeEntry),
    /// Start an entry in the context of `entry`, with the description.
    StartEntry { entry: TimeEntry, description: Option<String> },
    /// No call: the integrations are known here.
    NoCall,
    /// Ask for every scope.
    FetchScopes,
    /// Ask for every project.
    FetchProjects,
}

/// The entry a shell request starts from at `now`: the default identifier,
/// the scope and project it names (as text identifiers), not billable, its
/// description, started at `now`, still running.
pub open spec fn start_entry_view(data: &StartEntryData, now: Timestamp) -> TimeEntryView {
    TimeEntryView {
        id: ApiIdView::Int(0),
        scope_id: Some(ApiIdView::Text(data.scope_id@)),
        project_id: match &data.project_id {
            Some(p) => Some(ApiIdView::Text(p@)),
            None => None,
        },
        billable: false,
        description: opt_text_view(&data.description),
        start_time: now,
        stop_time: None,
    }
}

/// Whether `call` is what a request asks of the session at `now`.
pub open spec fn call_for(m: &BackendMessage, now: Timestamp, call: &BackendCall) -> bool {
    match m {
        BackendMessage::GetCurrentEntry => call is FetchCurrentEntry,
        BackendMessage::StopEntry(e) => call matches BackendCall::StopEntry(x) && x@ == e@,
        BackendMessage::StartEntry(d) => call matches BackendCall::StartEntry { entry, description }
            && entry@ == start_entry_view(d, now) && opt_text_view(&description) == opt_text_view(&d.description),
        BackendMessage::GetAllIntegrations => call is NoCall,
        BackendMessage::GetAllScopes => call is FetchScopes,
        BackendMessage::GetAllProjects => call is FetchProjects,
    }
}

/// What the backend asks of its session for a request that came in at `now`.
pub fn parse_message(message: &BackendMessage, now: Timestamp) -> (call: BackendCall)
    ensures
        call_for(message, now, &call),
{
    match message {
        BackendMessage::GetCurrentEntry => BackendCall::FetchCurrentEntry,
        BackendMessage::StopEntry(entry) => BackendCall::StopEntry(entry.duplicate()),
        BackendMessage::StartEntry(data) => {
            let entry = TimeEntry {
                id: ApiId::Int(0),
                scope_id: Some(ApiId::String(data.scope_id.clone())),
                project_id: match &data.project_id {
                    Some(p) => Some(ApiId::String(p.clone())),
                    None => None,
                },
                billable: false,
                description: match &data.description {
                    Some(d) => Some(d.clone()),
                    None => None,
                },
                start_time: now,
                stop_time: None,
            };
            let description = match &data.description {
                Some(d) => Some(d.clone()),
                None => None,
            };
            BackendCall::StartEntry { entry, description }
        },
        BackendMessage::GetAllIntegrations => BackendCall::NoCall,
        BackendMessage::GetAllScopes => BackendCall::FetchScopes,
        BackendMessage::GetAllProjects => BackendCall::FetchProjects,
    }
}

/// How a call went, as the backend reads it: the running entry (if any), a
/// stop (whatever came of it), the started entry (`None`: the start failed),
/// nothing to call, or the scopes or projects (`None`: the call failed).
#[derive(Debug)]
pub enum CallOutcome {
    CurrentEntry(Option<TimeEntry>),
    Stopped,
    Started(Option<TimeEntry>),
    Nothing,
    Scopes(Option<Vec<Scope>>),
    Projects(Option<Vec<Project>>),
}

/// Whether an outcome is one the call of this request can have.
pub open spec fn outcome_fits(m: &BackendMessage, o: &CallOutcome) -> bool {
    match m {
        BackendMessage::GetCurrentEntry => o is CurrentEntry,
        BackendMessage::StopEntry(_) => o is Stopped,
        BackendMessage::StartEntry(_) => o is Started,
        BackendMessage::GetAllIntegrations => o is Nothing,
        BackendMessage::GetAllScopes => o is Scopes,
        BackendMessage::GetAllProjects => o is Projects,
    }
}

/// What a reply carries under the request's name.
#[derive(Debug)]
pub enum ReplyContent {
    Entry(TimeEntry),
    /// The text `Success`.
    Success,
    Integrations(Vec<Integration>),
    Scopes(Vec<Scope>),
    Projects(Vec<Project>),
}

/// A reply to the shell: the request's name and what it carries.
#[derive(Debug)]
pub struct Reply {
    pub message: &'static str,
    pub content: ReplyContent,
}

/// The reply a request gets once its call went as `o`: the running entry
/// if there is one; `Success` after any stop; the started entry if the start
/// worked; every integration; the scopes or projects if the call worked.
/// Nothing is sent otherwise.
pub open spec fn reply_ok(m: &BackendMessage, o: &CallOutcome, r: &Option<Reply>) -> bool {
    &&& r matches Some(reply) ==> reply.message@ == message_name(m)
    &&& match o {
        CallOutcome::CurrentEntry(Some(e)) => r matches Some(reply) && reply.content matches ReplyContent::Entry(x) && x@ == e@,
        CallOutcome::Stopped => r matches Some(reply) && reply.content is Success,
        CallOutcome::Started(Some(e)) => r matches Some(reply) && reply.content matches ReplyContent::Entry(x) && x@ == e@,
        CallOutcome::Nothing => r matches Some(reply) && reply.content matches ReplyContent::Integrations(v)
            && v@ == seq![Integration::KimaiIntegration, Integration::TogglIntegration],
        CallOutcome::Scopes(Some(v)) => r matches Some(reply) && reply.content matches ReplyContent::Scopes(x) && x@ == v@,
        CallOutcome::Projects(Some(v)) => r matches Some(reply) && reply.content matches ReplyContent::Projects(x) && x@ == v@,
        _ => r is None,
    }
}

/// The reply to a request once its call went as `outcome`, if one is sent.
pub fn reply_for(message: &BackendMessage, outcome: CallOutcome) -> (r: Option<Reply>)
    requires
        outcome_fits(message, &outcome),
    ensures
        reply_ok(message, &outcome, &r),
{
    let name = message.as_name();
    let content = match outcome {
        CallOutcome::CurrentEntry(Some(e)) => ReplyContent::Entry(e),
        CallOutcome::Stopped => ReplyContent::Success,
        CallOutcome::Started(Some(e)) => ReplyContent::Entry(e),
        CallOutcome::Nothing => ReplyContent::Integrations(Integration::all()),
        CallOutcome::Scopes(Some(v)) => ReplyContent::Scopes(v),
        CallOutcome::Projects(Some(v)) => ReplyContent::Projects(v),
        _ => {
            return None;
        },
    };
    Some(Reply { message: name, content })
}

} // verus!
