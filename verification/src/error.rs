//! The failures that the plugin reports to its callers.

use vstd::prelude::*;

verus! {

/// Status of a successful response.
pub const STATUS_OK: u16 = 200;

/// Status of a response to a caller that is not authenticated.
pub const STATUS_UNAUTHORIZED: u16 = 401;

/// Status of a response to a request that failed for any other reason.
pub const STATUS_INTERNAL_SERVER_ERROR: u16 = 500;

/// Why a request to the plugin failed.
#[derive(Clone, Debug, PartialEq, Eq)]
pub enum ApiError {
    /// The caller holds no valid session.
    AuthenticationError,
    /// The experiences server could not be reached, or its answer could not
    /// be read.
    UpstreamCommunicationError(String),
    /// The experiences server answered, and refused the request.
    UpstreamApplicationError(String),
    /// The local store failed.
    PersistenceError(String),
}

/// An [`ApiError`] with its texts as sequences of characters.
pub enum ApiErrorView {
    AuthenticationError,
    UpstreamCommunicationError(Seq<char>),
    UpstreamApplicationError(Seq<char>),
    PersistenceError(Seq<char>),
}

impl View for ApiError {
    type V = ApiErrorView;

    open spec fn view(&self) -> ApiErrorView {
        match self {
            ApiError::AuthenticationError => ApiErrorView::AuthenticationError,
            ApiError::UpstreamCommunicationError(text) => ApiErrorView::UpstreamCommunicationError(
                text@,
            ),
            ApiError::UpstreamApplicationError(text) => ApiErrorView::UpstreamApplicationError(
                text@,
            ),
            ApiError::PersistenceError(text) => ApiErrorView::PersistenceError(text@),
        }
    }
}

/// The status that goes with an outcome: 200 for success, 401 for a caller
/// that is not authenticated, 500 for every other failure.
pub open spec fn status_of(outcome: Result<(), ApiErrorView>) -> u16 {
    match outcome {
        Ok(_) => STATUS_OK,
        Err(ApiErrorView::AuthenticationError) => STATUS_UNAUTHORIZED,
        Err(_) => STATUS_INTERNAL_SERVER_ERROR,
    }
}

impl ApiError {
    /// The status of a response that carries this error.
    pub fn status(&self) -> (r: u16)
        ensures
            r == status_of(Err(self@)),
    {
        match self {
            ApiError::AuthenticationError => STATUS_UNAUTHORIZED,
            _ => STATUS_INTERNAL_SERVER_ERROR,
        }
    }
}

} // verus!
