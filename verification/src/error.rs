//! The error taxonomy: the closed set of failures that the repository reports,
//! and the errors that the API boundary shows for them.

use vstd::prelude::*;

verus! {

/// Status of a "bad request" response.
pub const BAD_REQUEST: u16 = 400;

/// Status of a "not found" response.
pub const NOT_FOUND: u16 = 404;

/// Status of an "internal error" response.
pub const INTERNAL_SERVER_ERROR: u16 = 500;

/// A failure of a repository operation.
#[derive(Debug, PartialEq, Eq)]
pub enum RepoError {
    /// No post has the requested id.
    NotFound,
    /// The input violates a constraint that the store enforces; the store's message.
    Invalid(String),
    /// The store is unreachable, or it failed to execute the operation.
    ConnectionFailed,
}

/// Mathematical value of a [`RepoError`].
pub enum RepoErrorView {
    NotFound,
    Invalid(Seq<char>),
    ConnectionFailed,
}

impl View for RepoError {
    type V = RepoErrorView;

    open spec fn view(&self) -> RepoErrorView {
        match self {
            RepoError::NotFound => RepoErrorView::NotFound,
            RepoError::Invalid(message) => RepoErrorView::Invalid(message@),
            RepoError::ConnectionFailed => RepoErrorView::ConnectionFailed,
        }
    }
}

/// What the API boundary reports for a failed request.
#[derive(Debug, PartialEq, Eq)]
pub enum ApiError {
    /// The requested post does not exist.
    NotFound,
    /// The request was refused, with the explanation: the store's message
    /// where the store refused it.
    BadRequest(String),
    /// The store failed. Nothing of the failure is shown.
    Internal,
}

/// Mathematical value of an [`ApiError`].
pub enum ApiErrorView {
    NotFound,
    BadRequest(Seq<char>),
    Internal,
}

impl View for ApiError {
    type V = ApiErrorView;

    open spec fn view(&self) -> ApiErrorView {
        match self {
            ApiError::NotFound => ApiErrorView::NotFound,
            ApiError::BadRequest(message) => ApiErrorView::BadRequest(message@),
            ApiError::Internal => ApiErrorView::Internal,
        }
    }
}

/// The explanation that goes with a "not found" response.
pub open spec fn not_found_text() -> Seq<char> {
    "not found"@
}

impl RepoErrorView {
    /// The API error that stands for this repository error: `NotFound` is
    /// "not found", `Invalid` is "bad request" with the same message, and
    /// `ConnectionFailed` is "internal error".
    pub open spec fn api_error(self) -> ApiErrorView {
        match self {
            RepoErrorView::NotFound => ApiErrorView::NotFound,
            RepoErrorView::Invalid(message) => ApiErrorView::BadRequest(message),
            RepoErrorView::ConnectionFailed => ApiErrorView::Internal,
        }
    }
}

impl ApiErrorView {
    /// The response status of this error.
    pub open spec fn status(self) -> int {
        match self {
            ApiErrorView::NotFound => 404,
            ApiErrorView::BadRequest(_) => 400,
            ApiErrorView::Internal => 500,
        }
    }

    /// The explanation shown with this error, if any. An internal error shows none.
    pub open spec fn message(self) -> Option<Seq<char>> {
        match self {
            ApiErrorView::NotFound => Some(not_found_text()),
            ApiErrorView::BadRequest(message) => Some(message),
            ApiErrorView::Internal => None,
        }
    }
}

impl From<RepoError> for ApiError {
    fn from(error: RepoError) -> (api_error: ApiError) {
        match error {
            RepoError::NotFound => ApiError::NotFound,
            RepoError::Invalid(message) => ApiError::BadRequest(message),
            RepoError::ConnectionFailed => ApiError::Internal,
        }
    }
}

impl vstd::std_specs::convert::FromSpecImpl<RepoError> for ApiError {
    open spec fn obeys_from_spec() -> bool {
        true
    }

    open spec fn from_spec(error: RepoError) -> ApiError {
        match error {
            RepoError::NotFound => ApiError::NotFound,
            RepoError::Invalid(message) => ApiError::BadRequest(message),
            RepoError::ConnectionFailed => ApiError::Internal,
        }
    }
}

impl ApiError {
    /// The status of the response that reports this error.
    pub fn status_code(&self) -> (code: u16)
        ensures
            code == self@.status(),
    {
        match self {
            ApiError::NotFound => NOT_FOUND,
            ApiError::BadRequest(_) => BAD_REQUEST,
            ApiError::Internal => INTERNAL_SERVER_ERROR,
        }
    }

    /// The explanation that the response carries: a fixed text for `NotFound`,
    /// the store's message for `BadRequest`, and none for `Internal`.
    pub fn message(&self) -> (text: Option<String>)
        ensures
            text is Some == self@.message() is Some,
            text matches Some(t) ==> self@.message() == Some(t@),
    {
        match self {
            ApiError::NotFound => Some("not found".to_owned()),
            ApiError::BadRequest(message) => Some(message.clone()),
            ApiError::Internal => None,
        }
    }
}

} // verus!
