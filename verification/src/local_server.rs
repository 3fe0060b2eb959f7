//! The last tier of every resolution: the inference server on this machine.
//!
//! The server is reused when it already runs and started when it does not.
//! Asking the server and starting it are the caller's work; what to do with
//! each answer is decided here, one step at a time.

use crate::connection::Connection;
use crate::connection::ConnectionView;
use crate::error::Error;
use crate::error::ErrorView;
use vstd::prelude::*;

verus! {

/// What the manager of the local server reports: the address of a running
/// server, or that none runs.
#[derive(Debug, Clone, PartialEq, Eq)]
pub enum LocalServerStatus {
    Running(String),
    Stopped,
}

/// What a [`LocalServerStatus`] holds.
pub enum LocalServerStatusView {
    Running(Seq<char>),
    Stopped,
}

impl View for LocalServerStatus {
    type V = LocalServerStatusView;

    open spec fn view(&self) -> LocalServerStatusView {
        match self {
            LocalServerStatus::Running(api_base) => LocalServerStatusView::Running(api_base@),
            LocalServerStatus::Stopped => LocalServerStatusView::Stopped,
        }
    }
}

/// The characters of an address, or the error in its place.
pub open spec fn address_view(address: Result<String, Error>) -> Result<Seq<char>, ErrorView> {
    match address {
        Ok(api_base) => Ok(api_base@),
        Err(error) => Err(error@),
    }
}

/// What the resolver needs to be done next.
#[derive(Debug, Clone, Copy, PartialEq, Eq, Structural)]
pub enum LocalRequest {
    /// Ask the manager whether the server runs, and where.
    Status,
    /// Have the manager start the server.
    Start,
}

/// The answer to a [`LocalRequest`].
#[derive(Debug, PartialEq, Eq)]
pub enum LocalReply {
    /// What the manager reported.
    Status(LocalServerStatus),
    /// The address of the started server, or why it did not start.
    Started(Result<String, Error>),
}

/// What a [`LocalReply`] holds.
pub enum LocalReplyView {
    Status(LocalServerStatusView),
    Started(Result<Seq<char>, ErrorView>),
}

impl View for LocalReply {
    type V = LocalReplyView;

    open spec fn view(&self) -> LocalReplyView {
        match self {
            LocalReply::Status(status) => LocalReplyView::Status(status@),
            LocalReply::Started(started) => LocalReplyView::Started(address_view(*started)),
        }
    }
}

/// How far the resolution of the local server has come.
#[derive(Debug, Clone, PartialEq, Eq)]
pub enum LocalResolver {
    /// The manager has not been asked yet.
    AwaitingStatus,
    /// No server runs; one is being started.
    AwaitingStart,
    /// The server is there.
    Ready(Connection),
    /// The server did not start.
    Failed(Error),
}

/// What a [`LocalResolver`] holds.
pub enum LocalResolverView {
    AwaitingStatus,
    AwaitingStart,
    Ready(ConnectionView),
    Failed(ErrorView),
}

impl View for LocalResolver {
    type V = LocalResolverView;

    open spec fn view(&self) -> LocalResolverView {
        match self {
            LocalResolver::AwaitingStatus => LocalResolverView::AwaitingStatus,
            LocalResolver::AwaitingStart => LocalResolverView::AwaitingStart,
            LocalResolver::Ready(connection) => LocalResolverView::Ready(connection@),
            LocalResolver::Failed(error) => LocalResolverView::Failed(error@),
        }
    }
}

impl LocalResolverView {
    /// What has to be done before the resolution can go on; `None` once it is
    /// over.
    pub open spec fn pending(self) -> Option<LocalRequest> {
        match self {
            LocalResolverView::AwaitingStatus => Some(LocalRequest::Status),
            LocalResolverView::AwaitingStart => Some(LocalRequest::Start),
            LocalResolverView::Ready(_) => None,
            LocalResolverView::Failed(_) => None,
        }
    }

    /// The resolution after `reply` has come in. A running server is used as
    /// it is; a stopped one is started; the address that the start returns is
    /// used, and its failure ends the resolution. A reply to anything but the
    /// pending request changes nothing.
    pub open spec fn step(self, reply: LocalReplyView) -> LocalResolverView {
        match self {
            LocalResolverView::AwaitingStatus => match reply {
                LocalReplyView::Status(LocalServerStatusView::Running(api_base)) =>
                    LocalResolverView::Ready(ConnectionView::keyless(api_base)),
                LocalReplyView::Status(LocalServerStatusView::Stopped) =>
                    LocalResolverView::AwaitingStart,
                _ => self,
            },
            LocalResolverView::AwaitingStart => match reply {
                LocalReplyView::Started(Ok(api_base)) => LocalResolverView::Ready(
                    ConnectionView::keyless(api_base),
                ),
                LocalReplyView::Started(Err(error)) => LocalResolverView::Failed(error),
                _ => self,
            },
            _ => self,
        }
    }

    /// The result, once the resolution is over.
    pub open spec fn outcome(self) -> Option<Result<ConnectionView, ErrorView>> {
        match self {
            LocalResolverView::Ready(connection) => Some(Ok(connection)),
            LocalResolverView::Failed(error) => Some(Err(error)),
            _ => None,
        }
    }

    /// The resolution after the surroundings were offered the chance to
    /// answer `request`: a step when that is what is pending, nothing else.
    pub open spec fn offered(self, request: LocalRequest, reply: LocalReplyView) -> LocalResolverView {
        if self.pending() == Some(request) {
            self.step(reply)
        } else {
            self
        }
    }
}

impl LocalResolver {
    /// A resolution that has asked nothing yet.
    pub fn begin() -> (resolver: LocalResolver)
        ensures
            resolver@ == LocalResolverView::AwaitingStatus,
    {
        LocalResolver::AwaitingStatus
    }

    /// What has to be done before the resolution can go on; `None` once it is
    /// over.
    pub fn pending(&self) -> (request: Option<LocalRequest>)
        ensures
            request == self@.pending(),
    {
        match self {
            LocalResolver::AwaitingStatus => Some(LocalRequest::Status),
            LocalResolver::AwaitingStart => Some(LocalRequest::Start),
            LocalResolver::Ready(_) => None,
            LocalResolver::Failed(_) => None,
        }
    }

    /// Takes in the answer to the pending request.
    pub fn advance(self, reply: LocalReply) -> (next: LocalResolver)
        ensures
            next@ == self@.step(reply@),
    {
        match self {
            LocalResolver::AwaitingStatus => match reply {
                LocalReply::Status(LocalServerStatus::Running(api_base)) => LocalResolver::Ready(
                    Connection::keyless(api_base),
                ),
                LocalReply::Status(LocalServerStatus::Stopped) => LocalResolver::AwaitingStart,
                LocalReply::Started(_) => LocalResolver::AwaitingStatus,
            },
            LocalResolver::AwaitingStart => match reply {
                LocalReply::Started(Ok(api_base)) => LocalResolver::Ready(
                    Connection::keyless(api_base),
                ),
                LocalReply::Started(Err(error)) => LocalResolver::Failed(error),
                LocalReply::Status(_) => LocalResolver::AwaitingStart,
            },
            LocalResolver::Ready(connection) => LocalResolver::Ready(connection),
            LocalResolver::Failed(error) => LocalResolver::Failed(error),
        }
    }

    /// The result, once the resolution is over.
    pub fn outcome(self) -> (result: Option<Result<Connection, Error>>)
        ensures
            outcome_view(result) == self@.outcome(),
    {
        match self {
            LocalResolver::Ready(connection) => Some(Ok(connection)),
            LocalResolver::Failed(error) => Some(Err(error)),
            _ => None,
        }
    }
}

/// What the result of a resolution holds.
pub open spec fn result_view(result: Result<Connection, Error>) -> Result<
    ConnectionView,
    ErrorView,
> {
    match result {
        Ok(connection) => Ok(connection@),
        Err(error) => Err(error@),
    }
}

/// What the result of a resolution holds, where there is one.
pub open spec fn outcome_view(outcome: Option<Result<Connection, Error>>) -> Option<
    Result<ConnectionView, ErrorView>,
> {
    match outcome {
        Some(result) => Some(result_view(result)),
        None => None,
    }
}

/// The connection to the local server, given what its manager reports and
/// what a start would return: the address of the running server where one
/// runs, else the address that the start returns, else the start's error.
pub open spec fn local_policy(
    server: LocalServerStatusView,
    server_start: Result<Seq<char>, ErrorView>,
) -> Result<ConnectionView, ErrorView> {
    match server {
        LocalServerStatusView::Running(api_base) => Ok(ConnectionView::keyless(api_base)),
        LocalServerStatusView::Stopped => match server_start {
            Ok(api_base) => Ok(ConnectionView::keyless(api_base)),
            Err(error) => Err(error),
        },
    }
}

/// A resolution that is given every answer it may ask for ends with what the
/// policy says.
pub proof fn local_steps_follow_policy(
    server: LocalServerStatusView,
    server_start: Result<Seq<char>, ErrorView>,
)
    ensures
        LocalResolverView::AwaitingStatus.offered(
            LocalRequest::Status,
            LocalReplyView::Status(server),
        ).offered(LocalRequest::Start, LocalReplyView::Started(server_start)).outcome() == Some(
            local_policy(server, server_start),
        ),
{
}

/// A server that already runs is used without a start: the resolution is
/// over after the first answer.
pub proof fn running_server_is_reused(api_base: Seq<char>)
    ensures
        LocalResolverView::AwaitingStatus.step(
            LocalReplyView::Status(LocalServerStatusView::Running(api_base)),
        ) == LocalResolverView::Ready(ConnectionView::keyless(api_base)),
        LocalResolverView::Ready(ConnectionView::keyless(api_base)).pending() is None,
        forall|server_start: Result<Seq<char>, ErrorView>|
            local_policy(LocalServerStatusView::Running(api_base), server_start) == Ok::<
                ConnectionView,
                ErrorView,
            >(ConnectionView::keyless(api_base)),
{
}

/// The answers of the local server's manager, gathered ahead of a
/// resolution: what it reports, and what a start returns if one is asked for.
#[derive(Debug, PartialEq, Eq)]
pub struct LocalAnswers {
    pub server: LocalServerStatus,
    pub server_start: Result<String, Error>,
}

/// What a [`LocalAnswers`] holds.
pub struct LocalAnswersView {
    pub server: LocalServerStatusView,
    pub server_start: Result<Seq<char>, ErrorView>,
}

impl View for LocalAnswers {
    type V = LocalAnswersView;

    open spec fn view(&self) -> LocalAnswersView {
        LocalAnswersView { server: self.server@, server_start: address_view(self.server_start) }
    }
}

/// Resolves the connection to the local server against answers gathered
/// ahead: each pending request is answered from `answers` until the
/// resolution is over.
pub fn resolve_local(answers: LocalAnswers) -> (result: Result<Connection, Error>)
    ensures
        result_view(result) == local_policy(answers@.server, answers@.server_start),
{
    let LocalAnswers { server, server_start } = answers;
    let mut resolver = LocalResolver::begin();
    resolver = resolver.advance(LocalReply::Status(server));
    match resolver.pending() {
        Some(LocalRequest::Start) => {
            resolver = resolver.advance(LocalReply::Started(server_start));
        },
        _ => {},
    }
    match resolver.outcome() {
        Some(result) => result,
        None => {
            proof {
                local_steps_follow_policy(answers@.server, answers@.server_start);
            }
            unreached()
        },
    }
}

} // verus!
