//! What can go wrong with a request, and how it is reported to the client.

use vstd::prelude::*;
use vstd::string::*;

verus! {

/// Why a request was not served.
#[derive(Debug, Clone, Copy, PartialEq, Eq, Structural)]
pub enum Failure {
    /// A `GET` without a `url` parameter in its query.
    MissingUrl,
    /// A `POST` whose access token is not the configured one.
    InvalidToken,
    /// The origin answered with a status below 200 or from 300 to 399. Such
    /// an answer is neither stored nor replaced by a stored copy: the request
    /// fails.
    UnexpectedStatus,
    /// The origin or the fallback could not be reached, or the origin's
    /// answer could not be duplicated.
    Fetch,
    /// The object store could not be reached or gave a malformed answer.
    Store,
    /// No fallback URL is configured, or what is configured is no URL.
    Fallback,
    /// An event that does not answer the action that was last asked for.
    UnexpectedEvent,
}

/// The text sent with a missing `url` parameter.
pub const MISSING_URL: &'static str = "missing url parameter";

/// The text sent with a wrong access token.
pub const INVALID_TOKEN: &'static str = "invalid access token";

/// The text of a status that is neither a success nor a failure.
pub const UNEXPECTED_STATUS: &'static str = "unexpected status code from origin";

/// The text of a failed fetch.
pub const FETCH_FAILED: &'static str = "fetch failed";

/// The text of a failed store operation.
pub const STORE_FAILED: &'static str = "object store failed";

/// The text of a fallback that cannot be asked.
pub const NO_FALLBACK: &'static str = "fallback url is not usable";

/// The text of an event out of turn.
pub const UNEXPECTED_EVENT: &'static str = "unexpected event";

/// The one text sent to a client for every fatal error.
pub const INTERNAL_ERROR: &'static str = "internal error";

impl Failure {
    /// Whether the client caused the error. Every other error is fatal: it
    /// ends the request and is not retried.
    pub open spec fn is_client_error(self) -> bool {
        self == Failure::MissingUrl || self == Failure::InvalidToken
    }

    /// The HTTP status for this error.
    pub open spec fn spec_status_code(self) -> u16 {
        match self {
            Failure::MissingUrl => 400,
            Failure::InvalidToken => 403,
            _ => 500,
        }
    }

    /// What the error says, for the log.
    pub open spec fn spec_message(self) -> Seq<char> {
        match self {
            Failure::MissingUrl => MISSING_URL@,
            Failure::InvalidToken => INVALID_TOKEN@,
            Failure::UnexpectedStatus => UNEXPECTED_STATUS@,
            Failure::Fetch => FETCH_FAILED@,
            Failure::Store => STORE_FAILED@,
            Failure::Fallback => NO_FALLBACK@,
            Failure::UnexpectedEvent => UNEXPECTED_EVENT@,
        }
    }

    /// The body sent to the client: the error's own text where the client
    /// caused it, and one fixed text that names no detail otherwise.
    pub open spec fn spec_client_body(self) -> Seq<char> {
        if self.is_client_error() {
            self.spec_message()
        } else {
            INTERNAL_ERROR@
        }
    }

    /// The HTTP status for this error: 400 for a missing parameter, 403 for a
    /// wrong token, 500 for every fatal error.
    pub fn status_code(&self) -> (status: u16)
        ensures
            status == self.spec_status_code(),
            400 <= status <= 599,
    {
        match self {
            Failure::MissingUrl => 400,
            Failure::InvalidToken => 403,
            _ => 500,
        }
    }

    /// What the error says, for the log.
    pub fn message(&self) -> (text: String)
        ensures
            text@ == self.spec_message(),
    {
        match self {
            Failure::MissingUrl => String::from_str(MISSING_URL),
            Failure::InvalidToken => String::from_str(INVALID_TOKEN),
            Failure::UnexpectedStatus => String::from_str(UNEXPECTED_STATUS),
            Failure::Fetch => String::from_str(FETCH_FAILED),
            Failure::Store => String::from_str(STORE_FAILED),
            Failure::Fallback => String::from_str(NO_FALLBACK),
            Failure::UnexpectedEvent => String::from_str(UNEXPECTED_EVENT),
        }
    }

    /// The body sent to the client.
    pub fn client_body(&self) -> (text: String)
        ensures
            text@ == self.spec_client_body(),
    {
        match self {
            Failure::MissingUrl => String::from_str(MISSING_URL),
            Failure::InvalidToken => String::from_str(INVALID_TOKEN),
            _ => String::from_str(INTERNAL_ERROR),
        }
    }
}

} // verus!
