use vstd::prelude::*;
use vstd::std_specs::cmp::PartialEqSpecImpl;
use vstd::string::StringExecFns;

use crate::text::{decimal, i64_to_decimal};

verus! {

/// Seconds in a day.
pub const SECONDS_PER_DAY: i64 = 86_400;

/// Smallest number of seconds since the Unix epoch that a [`Timestamp`] holds:
/// -262143-01-01T00:00:00Z, the first second of the day 96,465,292 days
/// before the epoch and the earliest date-time chrono represents.
pub const MIN_UNIX_SECONDS: i64 = -8_334_601_228_800;

/// Largest number of seconds since the Unix epoch that a [`Timestamp`] holds:
/// 262142-12-31T23:59:59Z, the last second of the day 95,026,236 days after
/// the epoch and the last second of the latest date chrono represents.
pub const MAX_UNIX_SECONDS: i64 = 8_210_266_876_799;

/// Nanoseconds in one second.
pub const NANOS_PER_SECOND: u32 = 1_000_000_000;

/// A point in time in UTC: whole seconds since 1970-01-01T00:00:00Z and the
/// nanoseconds past that second. The seconds cover the whole days that
/// chrono's UTC date-times cover, from the year -262143 to the year 262142.
#[derive(Clone, Copy, Debug, PartialEq, Eq, Structural)]
pub struct Timestamp {
    secs: i64,
    nanos: u32,
}

impl Timestamp {
    #[verifier::type_invariant]
    spec fn well_formed(self) -> bool {
        &&& MIN_UNIX_SECONDS <= self.secs <= MAX_UNIX_SECONDS
        &&& self.nanos < NANOS_PER_SECOND
    }

    /// Whole seconds since the Unix epoch.
    pub closed spec fn unix_seconds(self) -> int {
        self.secs as int
    }

    /// Nanoseconds past the whole second.
    pub closed spec fn subsec_nanos(self) -> int {
        self.nanos as int
    }

    /// Whether these two numbers make a timestamp.
    pub open spec fn valid_parts(secs: int, nanos: int) -> bool {
        &&& MIN_UNIX_SECONDS <= secs <= MAX_UNIX_SECONDS
        &&& 0 <= nanos < NANOS_PER_SECOND
    }

    /// The timestamp `secs` seconds and `nanos` nanoseconds after the epoch,
    /// or `None` where the parts are out of range.
    pub fn new(secs: i64, nanos: u32) -> (r: Option<Timestamp>)
        ensures
            r is Some <==> Self::valid_parts(secs as int, nanos as int),
            r matches Some(t) ==> t.unix_seconds() == secs && t.subsec_nanos() == nanos,
    {
        if MIN_UNIX_SECONDS <= secs && secs <= MAX_UNIX_SECONDS && nanos < NANOS_PER_SECOND {
            Some(Timestamp { secs, nanos })
        } else {
            None
        }
    }

    /// Whole seconds since the Unix epoch.
    pub fn secs(&self) -> (s: i64)
        ensures
            s == self.unix_seconds(),
            MIN_UNIX_SECONDS <= s <= MAX_UNIX_SECONDS,
    {
        proof {
            use_type_invariant(self);
        }
        self.secs
    }

    /// Nanoseconds past the whole second.
    pub fn nanos(&self) -> (n: u32)
        ensures
            n == self.subsec_nanos(),
            n < NANOS_PER_SECOND,
    {
        proof {
            use_type_invariant(self);
        }
        self.nanos
    }
}

/// The RFC 3339 text of the UTC date-time `secs` seconds and `nanos`
/// nanoseconds after the epoch, as chrono's `DateTime::<Utc>::to_rfc3339` writes it.
pub uninterp spec fn rfc3339_text(secs: int, nanos: int) -> Seq<char>;

impl Timestamp {
    /// `DateTime::from_timestamp(secs, nanos)` followed by `to_rfc3339()`
    /// (chrono). Every timestamp is in chrono's range, so the date-time
    /// exists; the contract names the text and says nothing of its shape.
    #[verifier::external_body]
    pub(crate) fn to_rfc3339(&self) -> (s: String)
        ensures
            s@ == rfc3339_text(self.unix_seconds(), self.subsec_nanos()),
    {
        chrono::DateTime::from_timestamp(self.secs, self.nanos).unwrap().to_rfc3339()
    }
}

/// A time-tracking service the client can talk to.
#[derive(Clone, Copy, Debug, PartialEq, Eq, Structural)]
pub enum Integration {
    TogglIntegration,
    KimaiIntegration,
}

/// The name shown to the user for an integration.
pub open spec fn integration_name(i: Integration) -> Seq<char> {
    match i {
        Integration::TogglIntegration => "Toggl Track"@,
        Integration::KimaiIntegration => "Kimai"@,
    }
}

impl Integration {
    /// Every integration, in the order the user is offered them.
    pub fn all() -> (v: Vec<Integration>)
        ensures
            v@ == seq![Integration::KimaiIntegration, Integration::TogglIntegration],
    {
        vec![Integration::KimaiIntegration, Integration::TogglIntegration]
    }

    /// The name shown to the user ("Toggl Track" or "Kimai").
    pub fn to_string(&self) -> (s: String)
        ensures
            s@ == integration_name(*self),
    {
        match self {
            Integration::TogglIntegration => String::from_str("Toggl Track"),
            Integration::KimaiIntegration => String::from_str("Kimai"),
        }
    }
}

/// An identifier given by a service: a number, or an opaque text.
#[derive(Debug)]
pub enum ApiId {
    Int(i64),
    String(String),
}

/// The mathematical value of an [`ApiId`].
pub enum ApiIdView {
    Int(i64),
    Text(Seq<char>),
}

impl View for ApiId {
    type V = ApiIdView;

    open spec fn view(&self) -> ApiIdView {
        match self {
            ApiId::Int(n) => ApiIdView::Int(*n),
            ApiId::String(s) => ApiIdView::Text(s@),
        }
    }
}

/// The text an identifier is shown and sent as.
pub open spec fn api_id_text(id: ApiIdView) -> Seq<char> {
    match id {
        ApiIdView::Int(n) => decimal(n as int),
        ApiIdView::Text(s) => s,
    }
}

impl ApiId {
    /// The text this identifier is shown and sent as: the decimal number, or the text itself.
    pub fn to_string(&self) -> (s: String)
        ensures
            s@ == api_id_text(self@),
    {
        match self {
            ApiId::Int(n) => i64_to_decimal(*n),
            ApiId::String(t) => t.clone(),
        }
    }

    /// Whether two identifiers are the same.
    pub fn same_as(&self, other: &ApiId) -> (b: bool)
        ensures
            b == (self@ == other@),
    {
        match self {
            ApiId::Int(a) => match other {
                ApiId::Int(b) => *a == *b,
                ApiId::String(_) => false,
            },
            ApiId::String(a) => match other {
                ApiId::Int(_) => false,
                ApiId::String(b) => a.eq(b),
            },
        }
    }

    /// A copy of this identifier.
    pub fn duplicate(&self) -> (r: ApiId)
        ensures
            r@ == self@,
    {
        match self {
            ApiId::Int(n) => ApiId::Int(*n),
            ApiId::String(t) => ApiId::String(t.clone()),
        }
    }
}

impl Default for ApiId {
    fn default() -> (r: ApiId)
        ensures
            r@ == ApiIdView::Int(0),
    {
        ApiId::Int(0)
    }
}

impl PartialEq for ApiId {
    fn eq(&self, other: &ApiId) -> (b: bool) {
        self.same_as(other)
    }
}

impl PartialEqSpecImpl for ApiId {
    open spec fn obeys_eq_spec() -> bool {
        true
    }

    open spec fn eq_spec(&self, other: &ApiId) -> bool {
        self@ == other@
    }
}

/// A copy of an optional identifier.
pub fn duplicate_id(id: &Option<ApiId>) -> (r: Option<ApiId>)
    ensures
        opt_id_view(&r) == opt_id_view(id),
{
    match id {
        Some(i) => Some(i.duplicate()),
        None => None,
    }
}

/// The value of an optional identifier.
pub open spec fn opt_id_view(id: &Option<ApiId>) -> Option<ApiIdView> {
    match id {
        Some(i) => Some(i@),
        None => None,
    }
}

/// The value of an optional text.
pub open spec fn opt_text_view(t: &Option<String>) -> Option<Seq<char>> {
    match t {
        Some(s) => Some(s@),
        None => None,
    }
}

/// A copy of an optional text.
pub fn duplicate_text(t: &Option<String>) -> (r: Option<String>)
    ensures
        opt_text_view(&r) == opt_text_view(t),
{
    match t {
        Some(s) => Some(s.clone()),
        None => None,
    }
}

/// The top-level grouping of work: a Kimai project, or a Toggl workspace.
#[derive(Debug)]
pub struct Scope {
    pub id: ApiId,
    pub name: String,
    pub color: String,
}

/// The value of a [`Scope`].
pub struct ScopeView {
    pub id: ApiIdView,
    pub name: Seq<char>,
    pub color: Seq<char>,
}

impl View for Scope {
    type V = ScopeView;

    open spec fn view(&self) -> ScopeView {
        ScopeView { id: self.id@, name: self.name@, color: self.color@ }
    }
}

impl Scope {
    /// A copy of this scope.
    pub fn duplicate(&self) -> (r: Scope)
        ensures
            r@ == self@,
    {
        Scope { id: self.id.duplicate(), name: self.name.clone(), color: self.color.clone() }
    }
}

/// The thing time is booked on inside a scope: a Kimai activity, or a Toggl project.
#[derive(Debug)]
pub struct Project {
    pub id: ApiId,
    pub scope_id: ApiId,
    pub name: String,
    pub color: String,
}

/// The value of a [`Project`].
pub struct ProjectView {
    pub id: ApiIdView,
    pub scope_id: ApiIdView,
    pub name: Seq<char>,
    pub color: Seq<char>,
}

impl View for Project {
    type V = ProjectView;

    open spec fn view(&self) -> ProjectView {
        ProjectView {
            id: self.id@,
            scope_id: self.scope_id@,
            name: self.name@,
            color: self.color@,
        }
    }
}

impl Project {
    /// A copy of this project.
    pub fn duplicate(&self) -> (r: Project)
        ensures
            r@ == self@,
    {
        Project {
            id: self.id.duplicate(),
            scope_id: self.scope_id.duplicate(),
            name: self.name.clone(),
            color: self.color.clone(),
        }
    }
}

/// A span of tracked time; it is running while it has no stop time.
#[derive(Debug)]
pub struct TimeEntry {
    pub id: ApiId,
    pub scope_id: Option<ApiId>,
    pub project_id: Option<ApiId>,
    pub billable: bool,
    pub description: Option<String>,
    pub start_time: Timestamp,
    pub stop_time: Option<Timestamp>,
}

/// The value of a [`TimeEntry`].
pub struct TimeEntryView {
    pub id: ApiIdView,
    pub scope_id: Option<ApiIdView>,
    pub project_id: Option<ApiIdView>,
    pub billable: bool,
    pub description: Option<Seq<char>>,
    pub start_time: Timestamp,
    pub stop_time: Option<Timestamp>,
}

impl View for TimeEntry {
    type V = TimeEntryView;

    open spec fn view(&self) -> TimeEntryView {
        TimeEntryView {
            id: self.id@,
            scope_id: opt_id_view(&self.scope_id),
            project_id: opt_id_view(&self.project_id),
            billable: self.billable,
            description: opt_text_view(&self.description),
            start_time: self.start_time,
            stop_time: self.stop_time,
        }
    }
}

impl TimeEntry {
    /// A copy of this time entry.
    pub fn duplicate(&self) -> (r: TimeEntry)
        ensures
            r@ == self@,
    {
        TimeEntry {
            id: self.id.duplicate(),
            scope_id: duplicate_id(&self.scope_id),
            project_id: duplicate_id(&self.project_id),
            billable: self.billable,
            description: duplicate_text(&self.description),
            start_time: self.start_time,
            stop_time: self.stop_time,
        }
    }
}

/// The fields of a time entry that an update may change.
#[derive(Debug)]
pub struct TimeEntryUpdate {
    pub billable: bool,
    pub description: Option<String>,
    pub start_time: Timestamp,
    pub stop_time: Option<Timestamp>,
}

/// The value of a [`TimeEntryUpdate`].
pub struct TimeEntryUpdateView {
    pub billable: bool,
    pub description: Option<Seq<char>>,
    pub start_time: Timestamp,
    pub stop_time: Option<Timestamp>,
}

impl View for TimeEntryUpdate {
    type V = TimeEntryUpdateView;

    open spec fn view(&self) -> TimeEntryUpdateView {
        TimeEntryUpdateView {
            billable: self.billable,
            description: opt_text_view(&self.description),
            start_time: self.start_time,
            stop_time: self.stop_time,
        }
    }
}

} // verus!
