use vstd::prelude::*;

use crate::models::{ApiId, Timestamp};

verus! {

/// The serialization of the URL the `url` crate parses from `text`, if it parses one.
pub uninterp spec fn parsed_url(text: Seq<char>) -> Option<Seq<char>>;

/// The serialization of the URL the `url` crate makes of `reference` read
/// against the base URL `base`, if it makes one.
pub uninterp spec fn joined_url(base: Seq<char>, reference: Seq<char>) -> Option<Seq<char>>;

/// `Url::parse(text)` (url), giving the serialization of the parsed URL.
/// The contract names the result and says when it is `Ok`; it states
/// nothing of URL syntax, nor which parse error comes back.
#[verifier::external_body]
pub(crate) fn parse_url(text: &str) -> (r: Result<String, url::ParseError>)
    ensures
        r is Ok <==> parsed_url(text@) is Some,
        r matches Ok(u) ==> u@ == parsed_url(text@).unwrap(),
{
    url::Url::parse(text).map(|u| u.into())
}

/// `Url::join(&base, reference)` (url) on the URL whose serialization is
/// `base`, giving the serialization of the result. The contract names the
/// result and says when it is `Ok`; it states nothing of how references
/// resolve, nor which parse error comes back.
#[verifier::external_body]
pub(crate) fn join_url(base: &str, reference: &str) -> (r: Result<String, url::ParseError>)
    requires
        parsed_url(base@) is Some,
    ensures
        r is Ok <==> joined_url(base@, reference@) is Some,
        r matches Ok(u) ==> u@ == joined_url(base@, reference@).unwrap(),
{
    url::Url::parse(base).and_then(|b| b.join(reference)).map(|u| u.into())
}

/// The HTTP method of a request.
#[derive(Clone, Copy, Debug, PartialEq, Eq, Structural)]
pub enum Method {
    Get,
    Post,
    Patch,
    Put,
}

/// How a request authenticates.
#[derive(Debug)]
pub enum Credentials {
    /// `Authorization: Bearer <token>`.
    Bearer(String),
    /// HTTP basic authentication.
    Basic { user: String, password: String },
}

/// The JSON body a request carries.
#[derive(Debug)]
#[allow(inconsistent_fields)]
pub enum RequestBody {
    Empty,
    /// Starts a Kimai timesheet.
    KimaiStart {
        project: ApiId,
        activity: ApiId,
        description: Option<String>,
        begin: String,
    },
    /// Changes a Kimai timesheet.
    KimaiUpdate {
        begin: Timestamp,
        end: Option<Timestamp>,
        description: Option<String>,
        billable: bool,
    },
    /// Starts a Toggl time entry.
    TogglStart {
        workspace_id: ApiId,
        project_id: Option<ApiId>,
        description: Option<String>,
        created_with: String,
        start: String,
    },
    /// Changes a Toggl time entry.
    TogglUpdate {
        start: Timestamp,
        stop: Option<Timestamp>,
        description: Option<String>,
        billable: bool,
    },
}

/// One HTTP request to a service; every request sends `Content-Type: application/json`.
#[derive(Debug)]
pub struct Request {
    pub method: Method,
    pub url: String,
    pub credentials: Credentials,
    pub body: RequestBody,
}

} // verus!
