//! What can go wrong while a connection is resolved or models are listed.

use vstd::prelude::*;
use vstd::string::StringExecFns;

verus! {

/// A failure of connection resolution or of the model listing.
#[derive(Debug, Clone, PartialEq, Eq)]
pub enum Error {
    /// A model endpoint could not be reached, or its address is no URL.
    NetworkError(String),
    /// The custom endpoint is switched on but has no address.
    ConfigurationError(String),
    /// The persisted settings could not be read or written.
    StoreError(String),
    /// The local inference server did not start.
    StartupError(String),
    /// Anything else, such as a response of an unexpected shape.
    UnknownError(String),
}

/// What an [`Error`] holds.
pub enum ErrorView {
    NetworkError(Seq<char>),
    ConfigurationError(Seq<char>),
    StoreError(Seq<char>),
    StartupError(Seq<char>),
    UnknownError(Seq<char>),
}

impl View for Error {
    type V = ErrorView;

    open spec fn view(&self) -> ErrorView {
        match self {
            Error::NetworkError(message) => ErrorView::NetworkError(message@),
            Error::ConfigurationError(message) => ErrorView::ConfigurationError(message@),
            Error::StoreError(message) => ErrorView::StoreError(message@),
            Error::StartupError(message) => ErrorView::StartupError(message@),
            Error::UnknownError(message) => ErrorView::UnknownError(message@),
        }
    }
}

impl ErrorView {
    /// The message that the error carries.
    pub open spec fn message(self) -> Seq<char> {
        match self {
            ErrorView::NetworkError(message) => message,
            ErrorView::ConfigurationError(message) => message,
            ErrorView::StoreError(message) => message,
            ErrorView::StartupError(message) => message,
            ErrorView::UnknownError(message) => message,
        }
    }
}

impl ErrorView {
    /// What to tell the user: that the local engine failed to start, or that
    /// no backend is available, each with the reason.
    pub open spec fn user_message(self) -> Seq<char> {
        match self {
            ErrorView::StartupError(message) => "local engine failed to start: "@ + message,
            _ => "no backend available: "@ + self.message(),
        }
    }
}

/// The two things that a user is told never read alike.
pub proof fn user_messages_tell_startup_apart(startup: ErrorView, other: ErrorView)
    requires
        startup is StartupError,
        !(other is StartupError),
    ensures
        startup.user_message() != other.user_message(),
{
    reveal_strlit("local engine failed to start: ");
    reveal_strlit("no backend available: ");
    assert(startup.user_message()[0] == 'l');
    assert(other.user_message()[0] == 'n');
}

impl Error {
    /// What to tell the user: that the local engine failed to start, or that
    /// no backend is available, each with the reason.
    pub fn user_message(&self) -> (text: String)
        ensures
            text@ == self@.user_message(),
    {
        match self {
            Error::StartupError(message) => String::from_str(
                "local engine failed to start: ",
            ).concat(message.as_str()),
            _ => String::from_str("no backend available: ").concat(self.message()),
        }
    }

    /// The message that the error carries.
    pub fn message(&self) -> (text: &str)
        ensures
            text@ == self@.message(),
    {
        match self {
            Error::NetworkError(message) => message.as_str(),
            Error::ConfigurationError(message) => message.as_str(),
            Error::StoreError(message) => message.as_str(),
            Error::StartupError(message) => message.as_str(),
            Error::UnknownError(message) => message.as_str(),
        }
    }

    /// A copy of the error.
    pub fn duplicate(&self) -> (copy: Error)
        ensures
            copy@ == self@,
    {
        match self {
            Error::NetworkError(message) => Error::NetworkError(message.clone()),
            Error::ConfigurationError(message) => Error::ConfigurationError(message.clone()),
            Error::StoreError(message) => Error::StoreError(message.clone()),
            Error::StartupError(message) => Error::StartupError(message.clone()),
            Error::UnknownError(message) => Error::UnknownError(message.clone()),
        }
    }
}

} // verus!
