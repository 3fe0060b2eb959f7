//! Which backend serves a capability right now.
//!
//! For language-model completions the tiers are tried in a fixed order and
//! the first that applies wins: the hosted service opened by an active
//! subscription, the hosted service opened by the free trial, the endpoint
//! that the user supplied, the inference server on this machine. For
//! speech-to-text only the last tier exists.
//!
//! A resolution never reads a setting, calls the account service or touches
//! the local server itself. It says what it needs next ([`LlmRequest`]), the
//! caller gets it, and [`LlmResolver::advance`] decides what follows. A lower
//! tier is asked about only after every tier above it has declined.
//! [`get_llm_connection`] runs a whole resolution against answers gathered
//! ahead.

use crate::connection::Connection;
use crate::connection::ConnectionLLM;
use crate::connection::ConnectionLLMView;
use crate::connection::ConnectionSTT;
use crate::connection::ConnectionSTTView;
use crate::connection::ConnectionView;
use crate::connection::HOSTED_API_BASE;
use crate::connection::optional_text;
use crate::error::Error;
use crate::error::ErrorView;
use crate::gitee_ai::trial::TrialState;
use crate::gitee_ai::types::GiteeAiLoginStatus;
use crate::gitee_ai::types::GiteeAiLoginStatusView;
use crate::gitee_ai::types::GiteeAiUserPurchaseStatus;
use crate::gitee_ai::types::GiteeAiUserStatus;
use crate::local_server::LocalAnswers;
use crate::local_server::LocalAnswersView;
use crate::local_server::LocalReply;
use crate::local_server::LocalReplyView;
use crate::local_server::LocalRequest;
use crate::local_server::LocalResolver;
use crate::local_server::LocalResolverView;
use crate::local_server::LocalServerStatusView;
use crate::local_server::local_policy;
use crate::local_server::resolve_local;
use vstd::prelude::*;

verus! {

/// The message of the error that ends a resolution when the custom endpoint
/// is switched on and no address is stored for it.
pub const MISSING_CUSTOM_API_BASE: &'static str =
    "the custom endpoint is enabled but has no api_base";

/// What a resolution needs to be done next.
#[derive(Debug, Clone, Copy, PartialEq, Eq, Structural)]
pub enum LlmRequest {
    /// Fetch the login status from the account service.
    LoginStatus,
    /// Obtain the access token of the free trial.
    TrialToken,
    /// Read whether the custom endpoint is switched on.
    CustomEnabled,
    /// Read the address of the custom endpoint.
    CustomApiBase,
    /// Read the key of the custom endpoint.
    CustomApiKey,
    /// Ask or start the local server.
    LocalServer(LocalRequest),
}

/// The answer to an [`LlmRequest`].
#[derive(Debug, PartialEq, Eq)]
pub enum LlmReply {
    /// The login status, or `None` where the account service could not be
    /// reached or did not answer properly.
    LoginStatus(Option<GiteeAiLoginStatus>),
    /// The trial token, or `None` where none is to be had.
    TrialToken(Option<String>),
    /// The stored switch, or why it could not be read.
    CustomEnabled(Result<bool, Error>),
    /// The stored address, `None` where there is none, or why it could not be
    /// read.
    CustomApiBase(Result<Option<String>, Error>),
    /// The stored key, `None` where there is none, or why it could not be
    /// read.
    CustomApiKey(Result<Option<String>, Error>),
    /// The answer of the local server's manager.
    LocalServer(LocalReply),
}

/// What an [`LlmReply`] holds.
pub enum LlmReplyView {
    LoginStatus(Option<GiteeAiLoginStatusView>),
    TrialToken(Option<Seq<char>>),
    CustomEnabled(Result<bool, ErrorView>),
    CustomApiBase(Result<Option<Seq<char>>, ErrorView>),
    CustomApiKey(Result<Option<Seq<char>>, ErrorView>),
    LocalServer(LocalReplyView),
}

/// What a fetched login status holds.
pub open spec fn login_view(login: Option<GiteeAiLoginStatus>) -> Option<GiteeAiLoginStatusView> {
    match login {
        Some(status) => Some(status@),
        None => None,
    }
}

/// What a stored switch holds.
pub open spec fn switch_view(switch: Result<bool, Error>) -> Result<bool, ErrorView> {
    match switch {
        Ok(on) => Ok(on),
        Err(error) => Err(error@),
    }
}

/// What a stored text holds.
pub open spec fn setting_view(setting: Result<Option<String>, Error>) -> Result<
    Option<Seq<char>>,
    ErrorView,
> {
    match setting {
        Ok(text) => Ok(optional_text(text)),
        Err(error) => Err(error@),
    }
}

impl View for LlmReply {
    type V = LlmReplyView;

    open spec fn view(&self) -> LlmReplyView {
        match self {
            LlmReply::LoginStatus(login) => LlmReplyView::LoginStatus(login_view(*login)),
            LlmReply::TrialToken(token) => LlmReplyView::TrialToken(optional_text(*token)),
            LlmReply::CustomEnabled(switch) => LlmReplyView::CustomEnabled(switch_view(*switch)),
            LlmReply::CustomApiBase(setting) => LlmReplyView::CustomApiBase(
                setting_view(*setting),
            ),
            LlmReply::CustomApiKey(setting) => LlmReplyView::CustomApiKey(setting_view(*setting)),
            LlmReply::LocalServer(reply) => LlmReplyView::LocalServer(reply@),
        }
    }
}

/// How far a resolution has come.
#[derive(Debug, Clone, PartialEq, Eq)]
pub enum LlmResolver {
    /// Nothing is known yet but whether the trial window is open.
    AwaitingLoginStatus { trial_open: bool },
    /// No subscription opens the hosted service; the trial may.
    AwaitingTrialToken,
    /// The hosted service is out of reach.
    AwaitingCustomEnabled,
    /// The custom endpoint is switched on.
    AwaitingCustomApiBase,
    /// The custom endpoint is switched on and has this address.
    AwaitingCustomApiKey { api_base: String },
    /// No tier above the local server applies.
    AwaitingServerStatus,
    /// No tier above the local server applies, and no server runs.
    AwaitingServerStart,
    /// The resolution is over: this is the backend.
    Resolved(ConnectionLLM),
    /// The resolution is over: there is no backend.
    Failed(Error),
}

/// What an [`LlmResolver`] holds.
pub enum LlmResolverView {
    AwaitingLoginStatus { trial_open: bool },
    AwaitingTrialToken,
    AwaitingCustomEnabled,
    AwaitingCustomApiBase,
    AwaitingCustomApiKey { api_base: Seq<char> },
    AwaitingServerStatus,
    AwaitingServerStart,
    Resolved(ConnectionLLMView),
    Failed(ErrorView),
}

impl View for LlmResolver {
    type V = LlmResolverView;

    open spec fn view(&self) -> LlmResolverView {
        match self {
            LlmResolver::AwaitingLoginStatus { trial_open } => LlmResolverView::AwaitingLoginStatus {
                trial_open: *trial_open,
            },
            LlmResolver::AwaitingTrialToken => LlmResolverView::AwaitingTrialToken,
            LlmResolver::AwaitingCustomEnabled => LlmResolverView::AwaitingCustomEnabled,
            LlmResolver::AwaitingCustomApiBase => LlmResolverView::AwaitingCustomApiBase,
            LlmResolver::AwaitingCustomApiKey { api_base } => LlmResolverView::AwaitingCustomApiKey {
                api_base: api_base@,
            },
            LlmResolver::AwaitingServerStatus => LlmResolverView::AwaitingServerStatus,
            LlmResolver::AwaitingServerStart => LlmResolverView::AwaitingServerStart,
            LlmResolver::Resolved(connection) => LlmResolverView::Resolved(connection@),
            LlmResolver::Failed(error) => LlmResolverView::Failed(error@),
        }
    }
}

/// The token with which a subscription opens the hosted service, where the
/// login status was fetched and shows one.
pub open spec fn subscription_key(login: Option<GiteeAiLoginStatusView>) -> Option<Seq<char>> {
    match login {
        Some(status) => status.subscription_token(),
        None => None,
    }
}

/// The token with which the free trial opens the hosted service: the trial
/// token, where the window is open and the token is there and not empty.
pub open spec fn trial_key(trial_open: bool, trial_token: Option<Seq<char>>) -> Option<Seq<char>> {
    match trial_token {
        Some(token) => if trial_open && token.len() > 0 {
            Some(token)
        } else {
            None
        },
        None => None,
    }
}

/// The custom endpoint made of the stored address and key. A setting that
/// cannot be read is an error, the address first; so is a missing address.
pub open spec fn custom_policy(
    api_base: Result<Option<Seq<char>>, ErrorView>,
    api_key: Result<Option<Seq<char>>, ErrorView>,
) -> Result<ConnectionView, ErrorView> {
    match api_base {
        Err(error) => Err(error),
        Ok(None) => Err(ErrorView::ConfigurationError(MISSING_CUSTOM_API_BASE@)),
        Ok(Some(address)) => match api_key {
            Err(error) => Err(error),
            Ok(key) => Ok(ConnectionView { api_base: address, api_key: key }),
        },
    }
}

/// The state that the resolution of the local server leaves a resolution in.
pub open spec fn after_local(local: LocalResolverView) -> LlmResolverView {
    match local {
        LocalResolverView::AwaitingStatus => LlmResolverView::AwaitingServerStatus,
        LocalResolverView::AwaitingStart => LlmResolverView::AwaitingServerStart,
        LocalResolverView::Ready(connection) => LlmResolverView::Resolved(
            ConnectionLLMView::HyprLocal(connection),
        ),
        LocalResolverView::Failed(error) => LlmResolverView::Failed(error),
    }
}

impl LlmResolverView {
    /// What has to be done before the resolution can go on; `None` once it is
    /// over.
    pub open spec fn pending(self) -> Option<LlmRequest> {
        match self {
            LlmResolverView::AwaitingLoginStatus { .. } => Some(LlmRequest::LoginStatus),
            LlmResolverView::AwaitingTrialToken => Some(LlmRequest::TrialToken),
            LlmResolverView::AwaitingCustomEnabled => Some(LlmRequest::CustomEnabled),
            LlmResolverView::AwaitingCustomApiBase => Some(LlmRequest::CustomApiBase),
            LlmResolverView::AwaitingCustomApiKey { .. } => Some(LlmRequest::CustomApiKey),
            LlmResolverView::AwaitingServerStatus => Some(
                LlmRequest::LocalServer(LocalRequest::Status),
            ),
            LlmResolverView::AwaitingServerStart => Some(
                LlmRequest::LocalServer(LocalRequest::Start),
            ),
            LlmResolverView::Resolved(_) => None,
            LlmResolverView::Failed(_) => None,
        }
    }

    /// The resolution after `reply` has come in.
    ///
    /// - A login status that shows a paying account with a token that is not
    ///   empty resolves to the hosted service with that token. Any other, and
    ///   a failed fetch, hands over to the trial where its window is open and
    ///   to the custom endpoint where it is not.
    /// - A trial token that is not empty resolves to the hosted service with
    ///   it; an empty or missing one hands over to the custom endpoint.
    /// - The custom switch hands over to the custom endpoint when on and to
    ///   the local server when off.
    /// - The custom address must be there; the key may be missing.
    /// - The local server is reused or started.
    /// - A setting that could not be read, and a server that did not start,
    ///   end the resolution with that error.
    /// - A reply to anything but the pending request changes nothing.
    pub open spec fn step(self, reply: LlmReplyView) -> LlmResolverView {
        match self {
            LlmResolverView::AwaitingLoginStatus { trial_open } => match reply {
                LlmReplyView::LoginStatus(login) => match subscription_key(login) {
                    Some(token) => LlmResolverView::Resolved(
                        ConnectionLLMView::GiteeAi(ConnectionView::hosted(token)),
                    ),
                    None => if trial_open {
                        LlmResolverView::AwaitingTrialToken
                    } else {
                        LlmResolverView::AwaitingCustomEnabled
                    },
                },
                _ => self,
            },
            LlmResolverView::AwaitingTrialToken => match reply {
                LlmReplyView::TrialToken(token) => match trial_key(true, token) {
                    Some(key) => LlmResolverView::Resolved(
                        ConnectionLLMView::GiteeAi(ConnectionView::hosted(key)),
                    ),
                    None => LlmResolverView::AwaitingCustomEnabled,
                },
                _ => self,
            },
            LlmResolverView::AwaitingCustomEnabled => match reply {
                LlmReplyView::CustomEnabled(Ok(on)) => if on {
                    LlmResolverView::AwaitingCustomApiBase
                } else {
                    LlmResolverView::AwaitingServerStatus
                },
                LlmReplyView::CustomEnabled(Err(error)) => LlmResolverView::Failed(error),
                _ => self,
            },
            LlmResolverView::AwaitingCustomApiBase => match reply {
                LlmReplyView::CustomApiBase(Ok(Some(api_base))) =>
                    LlmResolverView::AwaitingCustomApiKey { api_base },
                LlmReplyView::CustomApiBase(Ok(None)) => LlmResolverView::Failed(
                    ErrorView::ConfigurationError(MISSING_CUSTOM_API_BASE@),
                ),
                LlmReplyView::CustomApiBase(Err(error)) => LlmResolverView::Failed(error),
                _ => self,
            },
            LlmResolverView::AwaitingCustomApiKey { api_base } => match reply {
                LlmReplyView::CustomApiKey(Ok(api_key)) => LlmResolverView::Resolved(
                    ConnectionLLMView::Custom(ConnectionView { api_base, api_key }),
                ),
                LlmReplyView::CustomApiKey(Err(error)) => LlmResolverView::Failed(error),
                _ => self,
            },
            LlmResolverView::AwaitingServerStatus => match reply {
                LlmReplyView::LocalServer(local) => after_local(
                    LocalResolverView::AwaitingStatus.step(local),
                ),
                _ => self,
            },
            LlmResolverView::AwaitingServerStart => match reply {
                LlmReplyView::LocalServer(local) => after_local(
                    LocalResolverView::AwaitingStart.step(local),
                ),
                _ => self,
            },
            LlmResolverView::Resolved(_) => self,
            LlmResolverView::Failed(_) => self,
        }
    }

    /// The result, once the resolution is over.
    pub open spec fn outcome(self) -> Option<Result<ConnectionLLMView, ErrorView>> {
        match self {
            LlmResolverView::Resolved(connection) => Some(Ok(connection)),
            LlmResolverView::Failed(error) => Some(Err(error)),
            _ => None,
        }
    }

    /// The resolution after the surroundings were offered the chance to
    /// answer `request`: a step when that is what is pending, nothing else.
    pub open spec fn offered(self, request: LlmRequest, reply: LlmReplyView) -> LlmResolverView {
        if self.pending() == Some(request) {
            self.step(reply)
        } else {
            self
        }
    }
}

/// What the result of a resolution holds.
pub open spec fn llm_result_view(result: Result<ConnectionLLM, Error>) -> Result<
    ConnectionLLMView,
    ErrorView,
> {
    match result {
        Ok(connection) => Ok(connection@),
        Err(error) => Err(error@),
    }
}

/// What the result of a resolution holds, where there is one.
pub open spec fn llm_outcome_view(outcome: Option<Result<ConnectionLLM, Error>>) -> Option<
    Result<ConnectionLLMView, ErrorView>,
> {
    match outcome {
        Some(result) => Some(llm_result_view(result)),
        None => None,
    }
}

/// What the result of a speech-to-text resolution holds.
pub open spec fn stt_result_view(result: Result<ConnectionSTT, Error>) -> Result<
    ConnectionSTTView,
    ErrorView,
> {
    match result {
        Ok(connection) => Ok(connection@),
        Err(error) => Err(error@),
    }
}

impl LlmResolver {
    /// Opens a resolution at `now`. The trial begins here if it has not begun
    /// before; a start that is already recorded is left as it is.
    pub fn begin(trial: &mut TrialState, now: i64) -> (resolver: LlmResolver)
        ensures
            *final(trial) == old(trial).started_by(now),
            resolver@ == (LlmResolverView::AwaitingLoginStatus {
                trial_open: final(trial).open_at(now),
            }),
    {
        trial.ensure_started(now);
        LlmResolver::AwaitingLoginStatus { trial_open: trial.is_open(now) }
    }

    /// Opens a resolution that goes to the local server at once.
    pub fn begin_local() -> (resolver: LlmResolver)
        ensures
            resolver@ == LlmResolverView::AwaitingServerStatus,
    {
        LlmResolver::AwaitingServerStatus
    }

    /// What has to be done before the resolution can go on; `None` once it is
    /// over.
    pub fn pending(&self) -> (request: Option<LlmRequest>)
        ensures
            request == self@.pending(),
    {
        match self {
            LlmResolver::AwaitingLoginStatus { .. } => Some(LlmRequest::LoginStatus),
            LlmResolver::AwaitingTrialToken => Some(LlmRequest::TrialToken),
            LlmResolver::AwaitingCustomEnabled => Some(LlmRequest::CustomEnabled),
            LlmResolver::AwaitingCustomApiBase => Some(LlmRequest::CustomApiBase),
            LlmResolver::AwaitingCustomApiKey { .. } => Some(LlmRequest::CustomApiKey),
            LlmResolver::AwaitingServerStatus => Some(LlmRequest::LocalServer(LocalRequest::Status)),
            LlmResolver::AwaitingServerStart => Some(LlmRequest::LocalServer(LocalRequest::Start)),
            LlmResolver::Resolved(_) => None,
            LlmResolver::Failed(_) => None,
        }
    }

    /// The state that the resolution of the local server leaves a resolution
    /// in.
    fn from_local(local: LocalResolver) -> (resolver: LlmResolver)
        ensures
            resolver@ == after_local(local@),
    {
        match local {
            LocalResolver::AwaitingStatus => LlmResolver::AwaitingServerStatus,
            LocalResolver::AwaitingStart => LlmResolver::AwaitingServerStart,
            LocalResolver::Ready(connection) => LlmResolver::Resolved(
                ConnectionLLM::HyprLocal(connection),
            ),
            LocalResolver::Failed(error) => LlmResolver::Failed(error),
        }
    }

    /// Takes in the answer to the pending request.
    pub fn advance(self, reply: LlmReply) -> (next: LlmResolver)
        ensures
            next@ == self@.step(reply@),
    {
        match self {
            LlmResolver::AwaitingLoginStatus { trial_open } => match reply {
                LlmReply::LoginStatus(login) => {
                    let token = match &login {
                        Some(status) => status.subscription_token(),
                        None => None,
                    };
                    match token {
                        Some(key) => LlmResolver::Resolved(
                            ConnectionLLM::GiteeAi(Connection::hosted(key)),
                        ),
                        None => if trial_open {
                            LlmResolver::AwaitingTrialToken
                        } else {
                            LlmResolver::AwaitingCustomEnabled
                        },
                    }
                },
                _ => LlmResolver::AwaitingLoginStatus { trial_open },
            },
            LlmResolver::AwaitingTrialToken => match reply {
                LlmReply::TrialToken(Some(token)) => if token.as_str().is_empty() {
                    LlmResolver::AwaitingCustomEnabled
                } else {
                    LlmResolver::Resolved(ConnectionLLM::GiteeAi(Connection::hosted(token)))
                },
                LlmReply::TrialToken(None) => LlmResolver::AwaitingCustomEnabled,
                _ => LlmResolver::AwaitingTrialToken,
            },
            LlmResolver::AwaitingCustomEnabled => match reply {
                LlmReply::CustomEnabled(Ok(on)) => if on {
                    LlmResolver::AwaitingCustomApiBase
                } else {
                    LlmResolver::AwaitingServerStatus
                },
                LlmReply::CustomEnabled(Err(error)) => LlmResolver::Failed(error),
                _ => LlmResolver::AwaitingCustomEnabled,
            },
            LlmResolver::AwaitingCustomApiBase => match reply {
                LlmReply::CustomApiBase(Ok(Some(api_base))) => LlmResolver::AwaitingCustomApiKey {
                    api_base,
                },
                LlmReply::CustomApiBase(Ok(None)) => LlmResolver::Failed(
                    Error::ConfigurationError(MISSING_CUSTOM_API_BASE.to_owned()),
                ),
                LlmReply::CustomApiBase(Err(error)) => LlmResolver::Failed(error),
                _ => LlmResolver::AwaitingCustomApiBase,
            },
            LlmResolver::AwaitingCustomApiKey { api_base } => match reply {
                LlmReply::CustomApiKey(Ok(api_key)) => LlmResolver::Resolved(
                    ConnectionLLM::Custom(Connection { api_base, api_key }),
                ),
                LlmReply::CustomApiKey(Err(error)) => LlmResolver::Failed(error),
                _ => LlmResolver::AwaitingCustomApiKey { api_base },
            },
            LlmResolver::AwaitingServerStatus => match reply {
                LlmReply::LocalServer(local) => LlmResolver::from_local(
                    LocalResolver::AwaitingStatus.advance(local),
                ),
                _ => LlmResolver::AwaitingServerStatus,
            },
            LlmResolver::AwaitingServerStart => match reply {
                LlmReply::LocalServer(local) => LlmResolver::from_local(
                    LocalResolver::AwaitingStart.advance(local),
                ),
                _ => LlmResolver::AwaitingServerStart,
            },
            LlmResolver::Resolved(connection) => LlmResolver::Resolved(connection),
            LlmResolver::Failed(error) => LlmResolver::Failed(error),
        }
    }

    /// The result, once the resolution is over.
    pub fn outcome(self) -> (result: Option<Result<ConnectionLLM, Error>>)
        ensures
            llm_outcome_view(result) == self@.outcome(),
    {
        match self {
            LlmResolver::Resolved(connection) => Some(Ok(connection)),
            LlmResolver::Failed(error) => Some(Err(error)),
            _ => None,
        }
    }
}

/// Everything a resolution may ask for, gathered ahead of it.
#[derive(Debug, PartialEq, Eq)]
pub struct LlmAnswers {
    /// The login status; `None` where the account service could not be
    /// reached.
    pub login: Option<GiteeAiLoginStatus>,
    /// The trial token; `None` where none is to be had.
    pub trial_token: Option<String>,
    /// Whether the custom endpoint is switched on.
    pub custom_enabled: Result<bool, Error>,
    /// The address of the custom endpoint.
    pub custom_api_base: Result<Option<String>, Error>,
    /// The key of the custom endpoint.
    pub custom_api_key: Result<Option<String>, Error>,
    /// What the local server's manager reports and what a start returns.
    pub local: LocalAnswers,
}

/// What an [`LlmAnswers`] holds.
pub struct LlmAnswersView {
    pub login: Option<GiteeAiLoginStatusView>,
    pub trial_token: Option<Seq<char>>,
    pub custom_enabled: Result<bool, ErrorView>,
    pub custom_api_base: Result<Option<Seq<char>>, ErrorView>,
    pub custom_api_key: Result<Option<Seq<char>>, ErrorView>,
    pub local: LocalAnswersView,
}

impl View for LlmAnswers {
    type V = LlmAnswersView;

    open spec fn view(&self) -> LlmAnswersView {
        LlmAnswersView {
            login: login_view(self.login),
            trial_token: optional_text(self.trial_token),
            custom_enabled: switch_view(self.custom_enabled),
            custom_api_base: setting_view(self.custom_api_base),
            custom_api_key: setting_view(self.custom_api_key),
            local: self.local@,
        }
    }
}

/// The result that a local resolution gives a language-model resolution.
pub open spec fn as_local_llm(result: Result<ConnectionView, ErrorView>) -> Result<
    ConnectionLLMView,
    ErrorView,
> {
    match result {
        Ok(connection) => Ok(ConnectionLLMView::HyprLocal(connection)),
        Err(error) => Err(error),
    }
}

/// The result that the custom endpoint gives a language-model resolution.
pub open spec fn as_custom_llm(result: Result<ConnectionView, ErrorView>) -> Result<
    ConnectionLLMView,
    ErrorView,
> {
    match result {
        Ok(connection) => Ok(ConnectionLLMView::Custom(connection)),
        Err(error) => Err(error),
    }
}

/// What the tiers below the hosted service resolve to: the custom endpoint
/// when it is switched on, the local server when it is not, and an error
/// where the switch cannot be read.
pub open spec fn lower_tiers(answers: LlmAnswersView) -> Result<ConnectionLLMView, ErrorView> {
    match answers.custom_enabled {
        Err(error) => Err(error),
        Ok(on) => if on {
            as_custom_llm(custom_policy(answers.custom_api_base, answers.custom_api_key))
        } else {
            as_local_llm(local_policy(answers.local.server, answers.local.server_start))
        },
    }
}

/// The backend for language-model completions, given whether the trial
/// window is open and what each source answers. The first tier that applies
/// wins: the subscription's token, the trial's token, the custom endpoint,
/// the local server.
pub open spec fn llm_policy(trial_open: bool, answers: LlmAnswersView) -> Result<
    ConnectionLLMView,
    ErrorView,
> {
    match subscription_key(answers.login) {
        Some(token) => Ok(ConnectionLLMView::GiteeAi(ConnectionView::hosted(token))),
        None => match trial_key(trial_open, answers.trial_token) {
            Some(token) => Ok(ConnectionLLMView::GiteeAi(ConnectionView::hosted(token))),
            None => lower_tiers(answers),
        },
    }
}

/// The backend for language-model completions at `now`, for a trial record
/// as it is stored before the resolution.
pub open spec fn resolve_llm(trial: TrialState, now: i64, answers: LlmAnswersView) -> Result<
    ConnectionLLMView,
    ErrorView,
> {
    llm_policy(trial.started_by(now).open_at(now), answers)
}

/// The state in which a resolution ends that is offered every answer in
/// turn, from the state `start` on.
pub open spec fn llm_run(start: LlmResolverView, answers: LlmAnswersView) -> LlmResolverView {
    start.offered(LlmRequest::LoginStatus, LlmReplyView::LoginStatus(answers.login)).offered(
        LlmRequest::TrialToken,
        LlmReplyView::TrialToken(answers.trial_token),
    ).offered(LlmRequest::CustomEnabled, LlmReplyView::CustomEnabled(answers.custom_enabled))
        .offered(LlmRequest::CustomApiBase, LlmReplyView::CustomApiBase(answers.custom_api_base))
        .offered(LlmRequest::CustomApiKey, LlmReplyView::CustomApiKey(answers.custom_api_key))
        .offered(
        LlmRequest::LocalServer(LocalRequest::Status),
        LlmReplyView::LocalServer(LocalReplyView::Status(answers.local.server)),
    ).offered(
        LlmRequest::LocalServer(LocalRequest::Start),
        LlmReplyView::LocalServer(LocalReplyView::Started(answers.local.server_start)),
    )
}

/// A resolution that is given every answer it asks for ends with what the
/// policy says.
pub proof fn llm_steps_follow_policy(trial_open: bool, answers: LlmAnswersView)
    ensures
        llm_run(LlmResolverView::AwaitingLoginStatus { trial_open }, answers).outcome() == Some(
            llm_policy(trial_open, answers),
        ),
{
}

/// A resolution that starts at the local server ends with what the local
/// policy says.
pub proof fn local_llm_steps_follow_policy(answers: LlmAnswersView)
    ensures
        llm_run(LlmResolverView::AwaitingServerStatus, answers).outcome() == Some(
            as_local_llm(local_policy(answers.local.server, answers.local.server_start)),
        ),
{
}

/// Runs `resolver` to its end against answers gathered ahead.
fn run_to_end(resolver: LlmResolver, answers: LlmAnswers) -> (end: LlmResolver)
    ensures
        end@ == llm_run(resolver@, answers@),
{
    let LlmAnswers { login, trial_token, custom_enabled, custom_api_base, custom_api_key, local } =
        answers;
    let LocalAnswers { server, server_start } = local;
    let mut resolver = resolver;
    match resolver.pending() {
        Some(LlmRequest::LoginStatus) => {
            resolver = resolver.advance(LlmReply::LoginStatus(login));
        },
        _ => {},
    }
    match resolver.pending() {
        Some(LlmRequest::TrialToken) => {
            resolver = resolver.advance(LlmReply::TrialToken(trial_token));
        },
        _ => {},
    }
    match resolver.pending() {
        Some(LlmRequest::CustomEnabled) => {
            resolver = resolver.advance(LlmReply::CustomEnabled(custom_enabled));
        },
        _ => {},
    }
    match resolver.pending() {
        Some(LlmRequest::CustomApiBase) => {
            resolver = resolver.advance(LlmReply::CustomApiBase(custom_api_base));
        },
        _ => {},
    }
    match resolver.pending() {
        Some(LlmRequest::CustomApiKey) => {
            resolver = resolver.advance(LlmReply::CustomApiKey(custom_api_key));
        },
        _ => {},
    }
    match resolver.pending() {
        Some(LlmRequest::LocalServer(LocalRequest::Status)) => {
            resolver = resolver.advance(LlmReply::LocalServer(LocalReply::Status(server)));
        },
        _ => {},
    }
    match resolver.pending() {
        Some(LlmRequest::LocalServer(LocalRequest::Start)) => {
            resolver = resolver.advance(LlmReply::LocalServer(LocalReply::Started(server_start)));
        },
        _ => {},
    }
    resolver
}

/// Resolves the backend for language-model completions at `now`.
///
/// The trial begins with the first resolution: `trial` has a start
/// afterwards, and one that it had before is kept. The result is that of the
/// first tier that applies, or the error of the tier that failed.
pub fn get_llm_connection(trial: &mut TrialState, now: i64, answers: LlmAnswers) -> (result: Result<
    ConnectionLLM,
    Error,
>)
    ensures
        *final(trial) == old(trial).started_by(now),
        llm_result_view(result) == resolve_llm(*old(trial), now, answers@),
        result matches Ok(connection) ==> connection@.well_formed(),
{
    let resolver = LlmResolver::begin(trial, now);
    let end = run_to_end(resolver, answers);
    proof {
        llm_steps_follow_policy(trial.open_at(now), answers@);
        policy_results_are_well_formed(trial.open_at(now), answers@);
    }
    match end.outcome() {
        Some(result) => result,
        None => unreached(),
    }
}

/// Resolves the local server as the backend for language-model completions.
pub fn get_local_llm_connection(answers: LocalAnswers) -> (result: Result<ConnectionLLM, Error>)
    ensures
        llm_result_view(result) == as_local_llm(
            local_policy(answers@.server, answers@.server_start),
        ),
{
    match resolve_local(answers) {
        Ok(connection) => Ok(ConnectionLLM::HyprLocal(connection)),
        Err(error) => Err(error),
    }
}

/// The result that a local resolution gives a speech-to-text resolution.
pub open spec fn as_local_stt(result: Result<ConnectionView, ErrorView>) -> Result<
    ConnectionSTTView,
    ErrorView,
> {
    match result {
        Ok(connection) => Ok(ConnectionSTTView::HyprLocal(connection)),
        Err(error) => Err(error),
    }
}

/// Resolves the backend for speech-to-text: always the local server, reused
/// when it runs and started when it does not.
pub fn get_stt_connection(answers: LocalAnswers) -> (result: Result<ConnectionSTT, Error>)
    ensures
        stt_result_view(result) == as_local_stt(
            local_policy(answers@.server, answers@.server_start),
        ),
{
    match resolve_local(answers) {
        Ok(connection) => Ok(ConnectionSTT::HyprLocal(connection)),
        Err(error) => Err(error),
    }
}

/// Days of free trial left at `now`; `None` while no trial has begun.
pub fn get_free_trial_days_remaining(trial: &TrialState, now: i64) -> (days: Option<i64>)
    ensures
        days == trial.days_remaining(now),
{
    trial.remaining_days(now)
}

/// Whatever the policy resolves to keeps the rules of its tier: the local
/// server has no key, the hosted service has its fixed address and a key
/// that is not empty.
pub proof fn policy_results_are_well_formed(trial_open: bool, answers: LlmAnswersView)
    ensures
        llm_policy(trial_open, answers) matches Ok(connection) ==> connection.well_formed(),
{
}

/// An account that is logged in, in good standing, holds a live purchase
/// and has a token that is not empty gets the hosted service with that
/// token, whatever the other sources answer.
pub proof fn active_subscription_opens_hosted_service(
    trial: TrialState,
    now: i64,
    answers: LlmAnswersView,
    login: GiteeAiLoginStatusView,
)
    requires
        answers.login == Some(login),
        login.is_logged_in,
        login.user_info is Some,
        login.user_info->0.status == GiteeAiUserStatus::Normal,
        login.user_info->0.purchase_status == GiteeAiUserPurchaseStatus::Active,
        login.token_info is Some,
        login.token_info->0.token.len() > 0,
    ensures
        resolve_llm(trial, now, answers) == Ok::<ConnectionLLMView, ErrorView>(
            ConnectionLLMView::GiteeAi(
                (ConnectionView {
                    api_base: HOSTED_API_BASE@,
                    api_key: Some(login.token_info->0.token),
                }),
            ),
        ),
{
}

/// Without an active subscription, a trial that began no more than thirty
/// days before `now` gets the hosted service with the trial token, where that
/// token is there and not empty.
pub proof fn open_trial_opens_hosted_service(
    start: i64,
    now: i64,
    answers: LlmAnswersView,
    token: Seq<char>,
)
    requires
        subscription_key(answers.login) is None,
        now - start <= 30 * 86_400,
        answers.trial_token == Some(token),
        token.len() > 0,
    ensures
        resolve_llm(TrialState::begun_at(start), now, answers) == Ok::<
            ConnectionLLMView,
            ErrorView,
        >(
            ConnectionLLMView::GiteeAi(
                (ConnectionView { api_base: HOSTED_API_BASE@, api_key: Some(token) }),
            ),
        ),
{
}

/// Without an active subscription, a trial that began more than thirty days
/// before `now` is passed over: the trial token is not asked for, and the
/// result is that of the custom endpoint and the local server.
pub proof fn closed_trial_is_passed_over(start: i64, now: i64, answers: LlmAnswersView)
    requires
        subscription_key(answers.login) is None,
        now - start > 30 * 86_400,
    ensures
        !TrialState::begun_at(start).started_by(now).open_at(now),
        (LlmResolverView::AwaitingLoginStatus { trial_open: false }).step(
            LlmReplyView::LoginStatus(answers.login),
        ) == LlmResolverView::AwaitingCustomEnabled,
        resolve_llm(TrialState::begun_at(start), now, answers) == lower_tiers(answers),
{
}

/// Where the hosted service is out of reach and the custom endpoint is
/// switched on, the result is the custom endpoint with the stored address and
/// the stored key, also where no key is stored.
pub proof fn custom_endpoint_is_used_when_enabled(
    trial_open: bool,
    answers: LlmAnswersView,
    api_base: Seq<char>,
    api_key: Option<Seq<char>>,
)
    requires
        subscription_key(answers.login) is None,
        trial_key(trial_open, answers.trial_token) is None,
        answers.custom_enabled == Ok::<bool, ErrorView>(true),
        answers.custom_api_base == Ok::<Option<Seq<char>>, ErrorView>(Some(api_base)),
        answers.custom_api_key == Ok::<Option<Seq<char>>, ErrorView>(api_key),
    ensures
        llm_policy(trial_open, answers) == Ok::<ConnectionLLMView, ErrorView>(
            ConnectionLLMView::Custom((ConnectionView { api_base, api_key })),
        ),
{
}

/// Where no tier above the local server applies and the server already runs,
/// the result is that server, and no start is asked for: the resolution is
/// over with the manager's report.
pub proof fn running_local_server_is_reused(
    trial_open: bool,
    answers: LlmAnswersView,
    api_base: Seq<char>,
)
    requires
        subscription_key(answers.login) is None,
        trial_key(trial_open, answers.trial_token) is None,
        answers.custom_enabled == Ok::<bool, ErrorView>(false),
        answers.local.server == LocalServerStatusView::Running(api_base),
    ensures
        llm_policy(trial_open, answers) == Ok::<ConnectionLLMView, ErrorView>(
            ConnectionLLMView::HyprLocal((ConnectionView { api_base, api_key: None })),
        ),
        LlmResolverView::AwaitingServerStatus.step(
            LlmReplyView::LocalServer(LocalReplyView::Status(answers.local.server)),
        ).pending() is None,
{
}

/// A resolution asks for less and less: each answer to the pending request
/// moves it to a later stage, so it is over after at most seven answers, and
/// no tier is asked about twice or after a lower one.
pub proof fn every_answer_moves_on(state: LlmResolverView, reply: LlmReplyView)
    requires
        state.pending() is Some,
        reply_answers(reply, state.pending()->0),
    ensures
        stage(state.step(reply)) > stage(state),
{
}

/// How far a resolution has come, as a number: the stages in the order in
/// which a resolution can pass through them.
pub open spec fn stage(state: LlmResolverView) -> int {
    match state {
        LlmResolverView::AwaitingLoginStatus { .. } => 0,
        LlmResolverView::AwaitingTrialToken => 1,
        LlmResolverView::AwaitingCustomEnabled => 2,
        LlmResolverView::AwaitingCustomApiBase => 3,
        LlmResolverView::AwaitingCustomApiKey { .. } => 4,
        LlmResolverView::AwaitingServerStatus => 5,
        LlmResolverView::AwaitingServerStart => 6,
        LlmResolverView::Resolved(_) => 7,
        LlmResolverView::Failed(_) => 7,
    }
}

/// Whether `reply` is an answer to `request`.
pub open spec fn reply_answers(reply: LlmReplyView, request: LlmRequest) -> bool {
    match request {
        LlmRequest::LoginStatus => reply is LoginStatus,
        LlmRequest::TrialToken => reply is TrialToken,
        LlmRequest::CustomEnabled => reply is CustomEnabled,
        LlmRequest::CustomApiBase => reply is CustomApiBase,
        LlmRequest::CustomApiKey => reply is CustomApiKey,
        LlmRequest::LocalServer(LocalRequest::Status) => reply matches LlmReplyView::LocalServer(
            LocalReplyView::Status(_),
        ),
        LlmRequest::LocalServer(LocalRequest::Start) => reply matches LlmReplyView::LocalServer(
            LocalReplyView::Started(_),
        ),
    }
}

/// No answer makes a resolution end with a backend that breaks the rules of
/// its tier: a resolution that has not ended in one cannot be brought to end
/// in one.
pub proof fn steps_keep_results_well_formed(state: LlmResolverView, reply: LlmReplyView)
    requires
        state matches LlmResolverView::Resolved(connection) ==> connection.well_formed(),
    ensures
        state.step(reply) matches LlmResolverView::Resolved(connection)
            ==> connection.well_formed(),
{
}

} // verus!
