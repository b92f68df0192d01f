use vstd::prelude::*;

verus! {

/// Why the `url` crate could not parse a URL.
#[verifier::external_type_specification]
#[verifier::external_body]
pub struct ExUrlParseError(url::ParseError);

/// What can go wrong when talking to a time-tracking service.
#[derive(Debug)]
pub enum Error {
    /// The service refused the credentials.
    NotAuthorized,
    /// The credentials could not be checked.
    FailedToAuthenticate,
    /// A URL could not be parsed or resolved.
    InvalidURL(url::ParseError),
    /// The request or its answer failed on the way; the text describes it.
    NetworkError(String),
    /// The time entry does not fit the service it was sent to.
    WrongTimeEntryContext,
    /// The project does not fit the service it was sent to.
    WrongProjectContext,
    /// The request needs a field that the time entry lacks; the text names it.
    MissingRequiredField(String),
    /// The system clock reads a time outside the range a timestamp holds.
    ClockOutOfRange,
}

} // verus!
