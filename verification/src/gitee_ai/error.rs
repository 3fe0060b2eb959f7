//! What can go wrong in an exchange with the hosted account service.

use crate::gitee_ai::types::GiteeAiError;
use crate::gitee_ai::types::GiteeAiErrorView;
use vstd::prelude::*;
use vstd::std_specs::convert::FromSpecImpl;
use vstd::string::StringExecFns;

verus! {

/// A failure of an exchange with the account service.
#[derive(Debug, Clone, PartialEq, Eq)]
pub enum Error {
    /// The request could not be sent or the response not be read.
    Request(String),
    /// The response is not the JSON that was expected.
    Json(String),
    /// The service answered with an error of its own.
    GiteeAi(GiteeAiError),
    /// The persisted settings could not be read or written.
    Store(String),
    /// Anything else.
    Other(String),
}

/// What an [`Error`] holds.
pub enum ErrorView {
    Request(Seq<char>),
    Json(Seq<char>),
    GiteeAi(GiteeAiErrorView),
    Store(Seq<char>),
    Other(Seq<char>),
}

impl View for Error {
    type V = ErrorView;

    open spec fn view(&self) -> ErrorView {
        match self {
            Error::Request(message) => ErrorView::Request(message@),
            Error::Json(message) => ErrorView::Json(message@),
            Error::GiteeAi(error) => ErrorView::GiteeAi(error@),
            Error::Store(message) => ErrorView::Store(message@),
            Error::Other(message) => ErrorView::Other(message@),
        }
    }
}

impl ErrorView {
    /// The one-line description of the error.
    pub open spec fn description(self) -> Seq<char> {
        match self {
            ErrorView::Request(message) => "Request failed: "@ + message,
            ErrorView::Json(message) => "JSON parsing failed: "@ + message,
            ErrorView::GiteeAi(error) => "Gitee AI API error: "@ + error.description(),
            ErrorView::Store(message) => "Store error: "@ + message,
            ErrorView::Other(message) => message,
        }
    }
}

impl Error {
    /// The one-line description of the error.
    pub fn to_string(&self) -> (text: String)
        ensures
            text@ == self@.description(),
    {
        match self {
            Error::Request(message) => String::from_str("Request failed: ").concat(
                message.as_str(),
            ),
            Error::Json(message) => String::from_str("JSON parsing failed: ").concat(
                message.as_str(),
            ),
            Error::GiteeAi(error) => String::from_str("Gitee AI API error: ").concat(
                error.to_string().as_str(),
            ),
            Error::Store(message) => String::from_str("Store error: ").concat(message.as_str()),
            Error::Other(message) => message.clone(),
        }
    }
}

impl From<GiteeAiError> for Error {
    fn from(error: GiteeAiError) -> (wrapped: Error) {
        Error::GiteeAi(error)
    }
}

impl FromSpecImpl<GiteeAiError> for Error {
    open spec fn obeys_from_spec() -> bool {
        true
    }

    open spec fn from_spec(error: GiteeAiError) -> Error {
        Error::GiteeAi(error)
    }
}

impl From<String> for Error {
    fn from(message: String) -> (wrapped: Error) {
        Error::Other(message)
    }
}

impl FromSpecImpl<String> for Error {
    open spec fn obeys_from_spec() -> bool {
        true
    }

    open spec fn from_spec(message: String) -> Error {
        Error::Other(message)
    }
}

} // verus!
